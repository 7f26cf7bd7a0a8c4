//! The items of one list: moving the selection among them and asking the
//! store to change them.

use crate::db::models::{
    items_view, NewTodoItem, NewTodoItemView, TodoItem, TodoItemView, UIList, UIListView,
};
use crate::db::ops::{Command, CommandView};
use crate::ui::selection::Direction;
use vstd::prelude::*;

verus! {

/// The operations on the items of a list.
pub struct ItemsComponent;

impl UIListView {
    /// What is asked of the store to tick the selected item off or on.
    pub open spec fn toggle_request(self) -> CommandView {
        match self.selected_item() {
            Some(item) => CommandView::ToggleItem { list_id: self.list.id, id: item.id },
            None => CommandView::Nothing,
        }
    }

    /// What is asked of the store to append an item called `name`.
    pub open spec fn create_request(self, name: Seq<char>) -> CommandView {
        CommandView::CreateItem(
            NewTodoItemView { list_id: self.list.id, name, priority: None, due_date: None },
        )
    }

    /// What is asked of the store to rename the selected item.
    pub open spec fn rename_request(self, name: Seq<char>) -> CommandView {
        match self.selected_item() {
            Some(item) => CommandView::RenameItem { list_id: self.list.id, id: item.id, name },
            None => CommandView::Nothing,
        }
    }

    /// What is asked of the store to delete the selected item.
    pub open spec fn delete_request(self) -> CommandView {
        match self.selected_item() {
            Some(item) => CommandView::DeleteItem { list_id: self.list.id, id: item.id },
            None => CommandView::Nothing,
        }
    }

    /// What is asked of the store to move the selected item by `amount`
    /// places: a move by as many places as there is room for.
    pub open spec fn move_request(self, amount: nat, direction: Direction) -> CommandView {
        match self.selected_item() {
            Some(item) => CommandView::MoveItem {
                list_id: self.list.id,
                id: item.id,
                direction,
                amount: self.selection.travel(amount, direction) as usize,
            },
            None => CommandView::Nothing,
        }
    }

    /// Whether `command` is work on the items of this list.
    pub open spec fn concerns(self, command: CommandView) -> bool {
        match command {
            CommandView::CreateItem(new_item) => new_item.list_id == self.list.id,
            CommandView::RenameItem { list_id, .. } => list_id == self.list.id,
            CommandView::ToggleItem { list_id, .. } => list_id == self.list.id,
            CommandView::DeleteItem { list_id, .. } => list_id == self.list.id,
            CommandView::MoveItem { list_id, .. } => list_id == self.list.id,
            _ => false,
        }
    }

    /// The list after `command` was carried out and `items` were read from
    /// the store. The items are those read. The selection stays on its
    /// index as far as the new length allows; after a move it goes along
    /// with the moved item.
    pub open spec fn completed(self, command: CommandView, items: Seq<TodoItemView>) -> UIListView {
        if !self.concerns(command) {
            self
        } else {
            let reloaded = self.reloaded(items);
            match command {
                CommandView::MoveItem { direction, amount, .. } => reloaded.with_selection(
                    reloaded.selection.followed(amount as nat, direction),
                ),
                _ => reloaded,
            }
        }
    }
}

impl ItemsComponent {
    /// Selects the next item, wrapping around at the end.
    pub fn select_next_item(ui_list: &mut UIList)
        requires
            old(ui_list).wf(),
        ensures
            final(ui_list)@ == old(ui_list)@.with_selection(old(ui_list)@.selection.next()),
            final(ui_list).wf(),
    {
        ui_list.item_state.select_next();
    }

    /// Moves the selection `amount` items down, stopping at the last one.
    pub fn scroll_down_by(ui_list: &mut UIList, amount: usize)
        requires
            old(ui_list).wf(),
        ensures
            final(ui_list)@ == old(ui_list)@.with_selection(
                old(ui_list)@.selection.scrolled(amount as nat, Direction::Down),
            ),
            final(ui_list).wf(),
    {
        ui_list.item_state.scroll_down_by(amount);
    }

    /// Selects the previous item, wrapping around at the start.
    pub fn select_previous_item(ui_list: &mut UIList)
        requires
            old(ui_list).wf(),
        ensures
            final(ui_list)@ == old(ui_list)@.with_selection(old(ui_list)@.selection.previous()),
            final(ui_list).wf(),
    {
        ui_list.item_state.select_previous();
    }

    /// Moves the selection `amount` items up, stopping at the first one.
    pub fn scroll_up_by(ui_list: &mut UIList, amount: usize)
        requires
            old(ui_list).wf(),
        ensures
            final(ui_list)@ == old(ui_list)@.with_selection(
                old(ui_list)@.selection.scrolled(amount as nat, Direction::Up),
            ),
            final(ui_list).wf(),
    {
        ui_list.item_state.scroll_up_by(amount);
    }

    /// Clears the selection.
    pub fn remove_item_selection(ui_list: &mut UIList)
        requires
            old(ui_list).wf(),
        ensures
            final(ui_list)@ == old(ui_list)@.with_selection(
                old(ui_list)@.selection.with_selected(None),
            ),
            final(ui_list)@.selection.selected is None,
            final(ui_list).wf(),
    {
        ui_list.item_state.deselect();
    }

    /// Selects the first item.
    pub fn select_first(ui_list: &mut UIList)
        requires
            old(ui_list).wf(),
        ensures
            final(ui_list)@ == old(ui_list)@.with_selection(old(ui_list)@.selection.first()),
            final(ui_list).wf(),
    {
        ui_list.item_state.select_first();
    }

    /// Selects the last item.
    pub fn select_last(ui_list: &mut UIList)
        requires
            old(ui_list).wf(),
        ensures
            final(ui_list)@ == old(ui_list)@.with_selection(old(ui_list)@.selection.last()),
            final(ui_list).wf(),
    {
        ui_list.item_state.select_last();
    }

    /// Selects the first item unless an item is selected already.
    pub fn select_first_item(ui_list: &mut UIList)
        requires
            old(ui_list).wf(),
        ensures
            final(ui_list)@ == (if old(ui_list)@.selection.selected is None {
                old(ui_list)@.with_selection(old(ui_list)@.selection.first())
            } else {
                old(ui_list)@
            }),
            final(ui_list).wf(),
    {
        if ui_list.item_state.selected().is_none() {
            ui_list.item_state.select_first();
        }
    }

    /// Selects the last item unless an item is selected already.
    pub fn select_last_item(ui_list: &mut UIList)
        requires
            old(ui_list).wf(),
        ensures
            final(ui_list)@ == (if old(ui_list)@.selection.selected is None {
                old(ui_list)@.with_selection(old(ui_list)@.selection.last())
            } else {
                old(ui_list)@
            }),
            final(ui_list).wf(),
    {
        if ui_list.item_state.selected().is_none() {
            ui_list.item_state.select_last();
        }
    }

    /// The identity of the selected item.
    pub fn selected_item_id(ui_list: &UIList) -> (id: Option<i64>)
        ensures
            id == match ui_list@.selected_item() {
                Some(item) => Some(item.id),
                None => None,
            },
    {
        match ui_list.item_state.selected() {
            Some(j) => if j < ui_list.items.len() {
                Some(ui_list.items[j].item.id)
            } else {
                None
            },
            None => None,
        }
    }

    /// Asks for the selected item to be ticked off or on.
    pub fn toggle_item_done(ui_list: &UIList) -> (command: Command)
        ensures
            command@ == ui_list@.toggle_request(),
    {
        match ItemsComponent::selected_item_id(ui_list) {
            Some(id) => Command::ToggleItem { list_id: ui_list.list.id, id },
            None => Command::Nothing,
        }
    }

    /// Asks for a new item called `name` at the end of the list.
    pub fn create_item(ui_list: &UIList, name: String) -> (command: Command)
        ensures
            command@ == ui_list@.create_request(name@),
    {
        Command::CreateItem(
            NewTodoItem { list_id: ui_list.list.id, name, priority: None, due_date: None },
        )
    }

    /// Asks for the selected item to be renamed to `name`.
    pub fn update_item(ui_list: &UIList, name: String) -> (command: Command)
        ensures
            command@ == ui_list@.rename_request(name@),
    {
        match ItemsComponent::selected_item_id(ui_list) {
            Some(id) => Command::RenameItem { list_id: ui_list.list.id, id, name },
            None => Command::Nothing,
        }
    }

    /// Asks for the selected item to be deleted.
    pub fn delete_selected_item(ui_list: &UIList) -> (command: Command)
        ensures
            command@ == ui_list@.delete_request(),
    {
        match ItemsComponent::selected_item_id(ui_list) {
            Some(id) => Command::DeleteItem { list_id: ui_list.list.id, id },
            None => Command::Nothing,
        }
    }

    /// Asks for the selected item to be moved one place up.
    pub fn move_selected_item_up(ui_list: &UIList) -> (command: Command)
        ensures
            command@ == ui_list@.move_request(1, Direction::Up),
    {
        ItemsComponent::move_selected_item_by(ui_list, 1, Direction::Up)
    }

    /// Asks for the selected item to be moved `amount` places up, or to
    /// the top where fewer places are left.
    pub fn move_selected_item_up_by(ui_list: &UIList, amount: usize) -> (command: Command)
        ensures
            command@ == ui_list@.move_request(amount as nat, Direction::Up),
    {
        ItemsComponent::move_selected_item_by(ui_list, amount, Direction::Up)
    }

    /// Asks for the selected item to be moved one place down.
    pub fn move_selected_item_down(ui_list: &UIList) -> (command: Command)
        ensures
            command@ == ui_list@.move_request(1, Direction::Down),
    {
        ItemsComponent::move_selected_item_by(ui_list, 1, Direction::Down)
    }

    /// Asks for the selected item to be moved `amount` places down, or to
    /// the bottom where fewer places are left.
    pub fn move_selected_item_down_by(ui_list: &UIList, amount: usize) -> (command: Command)
        ensures
            command@ == ui_list@.move_request(amount as nat, Direction::Down),
    {
        ItemsComponent::move_selected_item_by(ui_list, amount, Direction::Down)
    }

    /// Asks for the selected item to be moved `amount` places in
    /// `direction`, or to the edge where fewer places are left.
    pub fn move_selected_item_by(ui_list: &UIList, amount: usize, direction: Direction) -> (command:
        Command)
        ensures
            command@ == ui_list@.move_request(amount as nat, direction),
    {
        match ItemsComponent::selected_item_id(ui_list) {
            Some(id) => Command::MoveItem {
                list_id: ui_list.list.id,
                id,
                direction,
                amount: ui_list.item_state.travel_by(amount, direction),
            },
            None => Command::Nothing,
        }
    }

    /// Whether `command` is work on the items of this list.
    pub fn concerns(ui_list: &UIList, command: &Command) -> (concerned: bool)
        ensures
            concerned == ui_list@.concerns(command@),
    {
        match command {
            Command::CreateItem(new_item) => new_item.list_id == ui_list.list.id,
            Command::RenameItem { list_id, .. } => *list_id == ui_list.list.id,
            Command::ToggleItem { list_id, .. } => *list_id == ui_list.list.id,
            Command::DeleteItem { list_id, .. } => *list_id == ui_list.list.id,
            Command::MoveItem { list_id, .. } => *list_id == ui_list.list.id,
            _ => false,
        }
    }

    /// Takes in the items read from the store after `command` was carried
    /// out. A command that is not about this list's items changes nothing.
    pub fn complete(ui_list: &mut UIList, command: &Command, items: Vec<TodoItem>)
        ensures
            final(ui_list)@ == old(ui_list)@.completed(command@, items_view(items@)),
            old(ui_list)@.concerns(command@) ==> final(ui_list).wf(),
            old(ui_list).wf() ==> final(ui_list).wf(),
    {
        if ItemsComponent::concerns(ui_list, command) {
            ui_list.update_items(items);
            match command {
                Command::MoveItem { direction, amount, .. } => {
                    ui_list.item_state.follow(*amount, *direction);
                },
                _ => {},
            }
        }
    }
}

/// Deleting the selected item of a list of `n` items, selected at `i`,
/// leaves nothing selected if `n` is 1 and the selection on `min(i, n - 2)`
/// otherwise, once the `n - 1` items left were read from the store.
pub proof fn lemma_selection_after_item_delete(list: UIListView, items: Seq<TodoItemView>)
    requires
        list.wf(),
        list.selection.selected is Some,
        items.len() == list.items.len() - 1,
    ensures
        list.delete_request() is DeleteItem,
        list.completed(list.delete_request(), items).wf(),
        list.completed(list.delete_request(), items).items == items,
        list.completed(list.delete_request(), items).selection.selected == (if list.items.len()
            == 1 {
            None
        } else if list.selection.selected->0 <= list.items.len() - 2 {
            Some(list.selection.selected->0)
        } else {
            Some((list.items.len() - 2) as usize)
        }),
{
}

/// Moving the selected item, at index `i`, up by `amount` asks the store
/// for a move by `min(amount, i)` places and leaves the selection on
/// `i - min(amount, i)`, once the items were read from the store again.
pub proof fn lemma_selection_after_item_move_up(
    list: UIListView,
    amount: nat,
    items: Seq<TodoItemView>,
)
    requires
        list.wf(),
        list.selection.selected is Some,
        items.len() == list.items.len(),
    ensures
        list.move_request(amount, Direction::Up) matches CommandView::MoveItem {
            amount: travel,
            direction,
            ..
        } && direction == Direction::Up && travel == (if amount <= list.selection.selected->0 {
            amount
        } else {
            list.selection.selected->0 as nat
        }) && list.completed(list.move_request(amount, Direction::Up), items).selection.selected
            == Some((list.selection.selected->0 - travel) as usize),
        list.completed(list.move_request(amount, Direction::Up), items).wf(),
{
}

/// Moving the selected item, at index `i` of `n`, down by `amount` asks the
/// store for a move by `min(amount, n - 1 - i)` places and leaves the
/// selection that many places further down.
pub proof fn lemma_selection_after_item_move_down(
    list: UIListView,
    amount: nat,
    items: Seq<TodoItemView>,
)
    requires
        list.wf(),
        list.selection.selected is Some,
        items.len() == list.items.len(),
    ensures
        list.move_request(amount, Direction::Down) matches CommandView::MoveItem {
            amount: travel,
            direction,
            ..
        } && direction == Direction::Down && travel == (if amount <= list.items.len() - 1
            - list.selection.selected->0 {
            amount
        } else {
            (list.items.len() - 1 - list.selection.selected->0) as nat
        }) && list.completed(list.move_request(amount, Direction::Down), items).selection.selected
            == Some((list.selection.selected->0 + travel) as usize),
        list.completed(list.move_request(amount, Direction::Down), items).wf(),
{
}

} // verus!
