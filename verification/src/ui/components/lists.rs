//! The lists: moving the selection among them and asking the store to
//! change them.

use crate::db::models::{
    items_view, lists_view, NewTodoList, TodoItem, TodoItemView, UIList, UIListView,
};
use crate::db::ops::{Command, CommandView};
use crate::ui::components::items::ItemsComponent;
use crate::ui::selection::{Direction, SelectionState};
use vstd::prelude::*;

verus! {

/// All lists as last read from the store, and which of them is selected.
#[derive(Debug)]
pub struct ListsComponent {
    pub lists: Vec<UIList>,
    pub list_state: SelectionState,
}

/// A [`ListsComponent`] as a mathematical value.
pub struct ListsView {
    pub lists: Seq<UIListView>,
    pub selection: SelectionState,
}

impl View for ListsComponent {
    type V = ListsView;

    open spec fn view(&self) -> ListsView {
        ListsView { lists: lists_view(self.lists@), selection: self.list_state }
    }
}

impl ListsView {
    /// The selection speaks of exactly the lists held and addresses one of
    /// them or none, and the same holds within every list.
    pub open spec fn wf(self) -> bool {
        &&& self.selection.len == self.lists.len()
        &&& self.selection.wf()
        &&& forall|i: int| 0 <= i < self.lists.len() ==> (#[trigger] self.lists[i]).wf()
    }

    /// No lists, nothing selected.
    pub open spec fn empty() -> ListsView {
        ListsView { lists: Seq::empty(), selection: SelectionState { selected: None, len: 0 } }
    }

    /// The selected list, if any.
    pub open spec fn selected_list(self) -> Option<UIListView> {
        match self.selection.selected {
            Some(i) if i < self.lists.len() => Some(self.lists[i as int]),
            _ => None,
        }
    }

    /// The same lists with another selection among them.
    pub open spec fn with_selection(self, selection: SelectionState) -> ListsView {
        ListsView { lists: self.lists, selection }
    }

    /// The same lists with `list` in the place of the selected one;
    /// unchanged where none is selected.
    pub open spec fn with_selected_list(self, list: UIListView) -> ListsView {
        match self.selection.selected {
            Some(i) if i < self.lists.len() => ListsView {
                lists: self.lists.update(i as int, list),
                selection: self.selection,
            },
            _ => self,
        }
    }

    /// The state after all lists were read from the store again: the lists
    /// are the ones read; the selection stays where it was unless there are
    /// too few lists for it now, in which case it moves to the last list,
    /// or goes away with the last list.
    pub open spec fn loaded(self, lists: Seq<UIListView>) -> ListsView {
        ListsView { lists, selection: self.selection.resized(lists.len() as usize) }
    }

    /// What is asked of the store to append a list called `name`.
    pub open spec fn create_request(self, name: Seq<char>) -> CommandView {
        CommandView::CreateList(name)
    }

    /// What is asked of the store to rename the selected list.
    pub open spec fn rename_request(self, name: Seq<char>) -> CommandView {
        match self.selected_list() {
            Some(list) => CommandView::RenameList { id: list.list.id, name },
            None => CommandView::Nothing,
        }
    }

    /// What is asked of the store to delete the selected list.
    pub open spec fn delete_request(self) -> CommandView {
        match self.selected_list() {
            Some(list) => CommandView::DeleteList { id: list.list.id },
            None => CommandView::Nothing,
        }
    }

    /// What is asked of the store to move the selected list by `amount`
    /// places: a move by as many places as there is room for.
    pub open spec fn move_request(self, amount: nat, direction: Direction) -> CommandView {
        match self.selected_list() {
            Some(list) => CommandView::MoveList {
                id: list.list.id,
                direction,
                amount: self.selection.travel(amount, direction) as usize,
            },
            None => CommandView::Nothing,
        }
    }

    /// Whether `command` is work on the lists themselves.
    pub open spec fn concerns(self, command: CommandView) -> bool {
        match command {
            CommandView::CreateList(_) => true,
            CommandView::RenameList { .. } => true,
            CommandView::DeleteList { .. } => true,
            CommandView::MoveList { .. } => true,
            _ => false,
        }
    }

    /// The state after `command` was carried out and `lists` were read
    /// from the store. The lists are those read. The selection stays on its
    /// index as far as the new number of lists allows; after a move it goes
    /// along with the moved list.
    pub open spec fn completed(self, command: CommandView, lists: Seq<UIListView>) -> ListsView {
        if !self.concerns(command) {
            self
        } else {
            let loaded = self.loaded(lists);
            match command {
                CommandView::MoveList { direction, amount, .. } => loaded.with_selection(
                    loaded.selection.followed(amount as nat, direction),
                ),
                _ => loaded,
            }
        }
    }

    /// The state after `command`, which is work on the items of the
    /// selected list, was carried out and `items` were read from the store.
    pub open spec fn completed_items(self, command: CommandView, items: Seq<TodoItemView>)
        -> ListsView {
        match self.selected_list() {
            Some(list) => self.with_selected_list(list.completed(command, items)),
            None => self,
        }
    }
}

impl ListsView {
    /// Putting the selected list in its own place changes nothing.
    pub proof fn lemma_selected_list_in_place(self)
        ensures
            self.selected_list() matches Some(list) ==> self.with_selected_list(list) == self,
    {
        if let Some(list) = self.selected_list() {
            let i = self.selection.selected->0 as int;
            assert(self.lists.update(i, list) =~= self.lists);
        }
    }
}

impl ListsComponent {
    /// The selection speaks of exactly the lists held and addresses one of
    /// them or none, and the same holds within every list.
    pub open spec fn wf(&self) -> bool {
        self@.wf()
    }

    /// Whether every list in `lists` has a selection that fits its items.
    pub fn all_valid(lists: &Vec<UIList>) -> (valid: bool)
        ensures
            valid == (forall|i: int| 0 <= i < lists.len() ==> (#[trigger] lists[i]).wf()),
    {
        let mut i: usize = 0;
        while i < lists.len()
            invariant
                i <= lists.len(),
                forall|j: int| 0 <= j < i ==> (#[trigger] lists[j]).wf(),
            decreases lists.len() - i,
        {
            if !lists[i].is_valid() {
                return false;
            }
            i += 1;
        }
        true
    }

    /// Whether the selections fit their collections.
    pub fn is_valid(&self) -> (valid: bool)
        ensures
            valid == self.wf(),
    {
        let fits = self.list_state.len == self.lists.len() && match self.list_state.selected {
            Some(i) => i < self.list_state.len,
            None => true,
        };
        let all = ListsComponent::all_valid(&self.lists);
        proof {
            assert forall|i: int| 0 <= i < self.lists.len() implies (#[trigger] self@.lists[i]).wf()
                == self.lists[i].wf() by {
                assert(self@.lists[i] == self.lists[i]@);
            }
            if fits && all {
                assert(self@.wf());
            }
            if self@.wf() {
                assert forall|i: int| 0 <= i < self.lists.len() implies (#[trigger] self.lists[i]).wf() by {
                    assert(self@.lists[i].wf());
                }
            }
        }
        fits && all
    }

    /// No lists, nothing selected.
    pub fn new() -> (component: Self)
        ensures
            component@ == ListsView::empty(),
            component.wf(),
    {
        let component = Self { lists: Vec::new(), list_state: SelectionState::new(0) };
        assert(component@.lists =~= Seq::empty());
        component
    }

    /// Takes in all lists as read from the store and adapts the selection
    /// to their number.
    pub fn load_lists(&mut self, lists: Vec<UIList>)
        requires
            forall|i: int| 0 <= i < lists.len() ==> (#[trigger] lists[i]).wf(),
        ensures
            final(self)@ == old(self)@.loaded(lists_view(lists@)),
            final(self).wf(),
    {
        self.list_state.resize(lists.len());
        self.lists = lists;
    }

    /// Selects the next list, wrapping around at the end.
    pub fn select_next(&mut self)
        requires
            old(self).wf(),
        ensures
            final(self)@ == old(self)@.with_selection(old(self)@.selection.next()),
            final(self).wf(),
    {
        self.list_state.select_next();
    }

    /// Selects the previous list, wrapping around at the start.
    pub fn select_previous(&mut self)
        requires
            old(self).wf(),
        ensures
            final(self)@ == old(self)@.with_selection(old(self)@.selection.previous()),
            final(self).wf(),
    {
        self.list_state.select_previous();
    }

    /// Moves the selection by `amount` lists in `direction`, stopping at
    /// the edge.
    pub fn scroll_by(&mut self, amount: usize, direction: Direction)
        requires
            old(self).wf(),
        ensures
            final(self)@ == old(self)@.with_selection(
                old(self)@.selection.scrolled(amount as nat, direction),
            ),
            final(self).wf(),
    {
        self.list_state.scroll_by(amount, direction);
    }

    /// The index of the selected list.
    pub fn selected(&self) -> (index: Option<usize>)
        ensures
            index == self@.selection.selected,
    {
        self.list_state.selected()
    }

    /// Asks for a new list called `name` after all others.
    pub fn create_list(&self, name: String) -> (command: Command)
        ensures
            command@ == self@.create_request(name@),
    {
        Command::CreateList(NewTodoList { name })
    }

    /// Asks for the selected list to be renamed to `name`.
    pub fn update_list(&self, name: String) -> (command: Command)
        ensures
            command@ == self@.rename_request(name@),
    {
        match self.get_selected_list() {
            Some(list) => Command::RenameList { id: list.list.id, name },
            None => Command::Nothing,
        }
    }

    /// Asks for the selected list to be deleted.
    pub fn delete_selected_list(&self) -> (command: Command)
        ensures
            command@ == self@.delete_request(),
    {
        match self.get_selected_list() {
            Some(list) => Command::DeleteList { id: list.list.id },
            None => Command::Nothing,
        }
    }

    /// Asks for the selected list to be moved one place up.
    pub fn move_selected_list_up(&self) -> (command: Command)
        ensures
            command@ == self@.move_request(1, Direction::Up),
    {
        self.move_selected_list_by(1, Direction::Up)
    }

    /// Asks for the selected list to be moved one place down.
    pub fn move_selected_list_down(&self) -> (command: Command)
        ensures
            command@ == self@.move_request(1, Direction::Down),
    {
        self.move_selected_list_by(1, Direction::Down)
    }

    /// Asks for the selected list to be moved `amount` places in
    /// `direction`, or to the edge where fewer places are left.
    pub fn move_selected_list_by(&self, amount: usize, direction: Direction) -> (command: Command)
        ensures
            command@ == self@.move_request(amount as nat, direction),
    {
        match self.get_selected_list() {
            Some(list) => Command::MoveList {
                id: list.list.id,
                direction,
                amount: self.list_state.travel_by(amount, direction),
            },
            None => Command::Nothing,
        }
    }

    /// The selected list, to be changed in place.
    pub fn get_selected_list_mut(&mut self) -> (selected: Option<&mut UIList>)
        ensures
            match selected {
                Some(list) => {
                    &&& old(self)@.selected_list() == Some(list@)
                    &&& final(self)@ == old(self)@.with_selected_list(final(list)@)
                    &&& old(self).wf() ==> list.wf()
                    &&& old(self).wf() && final(list).wf() ==> final(self).wf()
                },
                None => old(self)@.selected_list() is None && *final(self) == *old(self),
            },
    {
        match self.list_state.selected() {
            Some(i) => {
                if i < self.lists.len() {
                    let ghost before = self.lists@;
                    let list = &mut self.lists[i];
                    proof {
                        let after = before.update(i as int, *final(list));
                        assert(lists_view(after) =~= lists_view(before).update(
                            i as int,
                            final(list)@,
                        ));
                        assert(lists_view(before)[i as int] == before[i as int]@);
                    }
                    Some(list)
                } else {
                    None
                }
            },
            None => None,
        }
    }

    /// The selected list.
    pub fn get_selected_list(&self) -> (selected: Option<&UIList>)
        ensures
            match selected {
                Some(list) => self@.selected_list() == Some(list@) && (self.wf() ==> list.wf()),
                None => self@.selected_list() is None,
            },
    {
        match self.list_state.selected() {
            Some(i) => {
                if i < self.lists.len() {
                    assert(lists_view(self.lists@)[i as int] == self.lists[i as int]@);
                    Some(&self.lists[i])
                } else {
                    None
                }
            },
            None => None,
        }
    }

    /// Takes in the lists read from the store after `command` was carried
    /// out. A command that is not about the lists changes nothing.
    pub fn complete(&mut self, command: &Command, lists: Vec<UIList>)
        requires
            old(self).wf(),
            forall|i: int| 0 <= i < lists.len() ==> (#[trigger] lists[i]).wf(),
        ensures
            final(self)@ == old(self)@.completed(command@, lists_view(lists@)),
            final(self).wf(),
    {
        match command {
            Command::CreateList(_) => {
                self.load_lists(lists);
            },
            Command::RenameList { .. } => {
                self.load_lists(lists);
            },
            Command::DeleteList { .. } => {
                self.load_lists(lists);
            },
            Command::MoveList { direction, amount, .. } => {
                self.load_lists(lists);
                self.list_state.follow(*amount, *direction);
            },
            _ => {},
        }
    }

    /// Takes in the items read from the store after `command`, which is
    /// work on the items of the selected list, was carried out.
    pub fn complete_items(&mut self, command: &Command, items: Vec<TodoItem>)
        requires
            old(self).wf(),
        ensures
            final(self)@ == old(self)@.completed_items(command@, items_view(items@)),
            final(self).wf(),
    {
        if let Some(list) = self.get_selected_list_mut() {
            ItemsComponent::complete(list, command, items);
        }
    }
}

impl Default for ListsComponent {
    fn default() -> (component: Self)
        ensures
            component@ == ListsView::empty(),
    {
        Self::new()
    }
}

/// Deleting the selected list of `n` lists, selected at `i`, leaves nothing
/// selected if `n` is 1 and the selection on `min(i, n - 2)` otherwise,
/// once the `n - 1` lists left were read from the store.
pub proof fn lemma_selection_after_list_delete(shown: ListsView, lists: Seq<UIListView>)
    requires
        shown.wf(),
        shown.selection.selected is Some,
        lists.len() == shown.lists.len() - 1,
    ensures
        shown.delete_request() is DeleteList,
        shown.completed(shown.delete_request(), lists).lists == lists,
        shown.completed(shown.delete_request(), lists).selection.selected == (if shown.lists.len()
            == 1 {
            None
        } else if shown.selection.selected->0 <= shown.lists.len() - 2 {
            Some(shown.selection.selected->0)
        } else {
            Some((shown.lists.len() - 2) as usize)
        }),
{
}

/// Moving the selected list, at index `i` of `n`, by `amount` asks the
/// store for a move by as many places as there is room for, `min(amount,
/// i)` going up and `min(amount, n - 1 - i)` going down, and leaves the
/// selection that many places further in that direction.
pub proof fn lemma_selection_after_list_move(
    shown: ListsView,
    amount: nat,
    direction: Direction,
    lists: Seq<UIListView>,
)
    requires
        shown.wf(),
        shown.selection.selected is Some,
        lists.len() == shown.lists.len(),
    ensures
        ({
            let i = shown.selection.selected->0;
            let room = match direction {
                Direction::Up => i as int,
                Direction::Down => shown.lists.len() - 1 - i,
            };
            let travel = if amount <= room {
                amount as int
            } else {
                room
            };
            let request = shown.move_request(amount, direction);
            &&& request matches CommandView::MoveList { amount: asked, direction: way, .. }
                && asked == travel && way == direction
            &&& shown.completed(request, lists).selection.selected == Some(
                (match direction {
                    Direction::Up => i - travel,
                    Direction::Down => i + travel,
                }) as usize,
            )
            &&& shown.completed(request, lists).selection.wf()
        }),
{
}

} // verus!
