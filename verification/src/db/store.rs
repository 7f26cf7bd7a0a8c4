//! What the interface expects of the store, stated so that the two can be
//! held against each other.
//!
//! Nothing here runs. The store itself lives outside; these definitions say
//! what it is taken to do with the work it is handed, and the laws below say
//! what then holds of the lists that the interface shows.

use crate::db::models::{TodoItemView, TodoListView, UIListView};
use crate::db::ops::CommandView;
use crate::ui::components::lists::ListsView;
use crate::ui::selection::Direction;
use vstd::prelude::*;

verus! {

/// No two lists share an identity.
pub open spec fn distinct_lists(stored: Seq<UIListView>) -> bool {
    forall|i: int, j: int|
        0 <= i < stored.len() && 0 <= j < stored.len() && i != j ==> (#[trigger] stored[i]).list.id
            != (#[trigger] stored[j]).list.id
}

/// Where the list `id` stands among the stored ones.
pub open spec fn index_of_list(stored: Seq<UIListView>, id: i64) -> Option<int> {
    if exists|i: int| 0 <= i < stored.len() && stored[i].list.id == id {
        Some(choose|i: int| 0 <= i < stored.len() && stored[i].list.id == id)
    } else {
        None
    }
}

/// A list under another name.
pub open spec fn renamed_list(list: UIListView, name: Seq<char>) -> UIListView {
    UIListView {
        list: TodoListView { id: list.list.id, name, ordering: list.list.ordering },
        selection: list.selection,
        items: list.items,
    }
}

/// What the store holds after it carried out work on its lists. A new list
/// goes to the end, and `created` is the record that the store makes for
/// it; a renamed list keeps its place; a deleted list leaves; a moved list
/// passes as many of its neighbours as asked, or as many as there are.
pub open spec fn lists_after(stored: Seq<UIListView>, command: CommandView, created: UIListView)
    -> Seq<UIListView> {
    match command {
        CommandView::CreateList(_) => stored.push(created),
        CommandView::RenameList { id, name } => match index_of_list(stored, id) {
            Some(i) => stored.update(i, renamed_list(stored[i], name)),
            None => stored,
        },
        CommandView::DeleteList { id } => match index_of_list(stored, id) {
            Some(i) => stored.remove(i),
            None => stored,
        },
        CommandView::MoveList { id, direction, amount } => match index_of_list(stored, id) {
            Some(i) => {
                let to: int = match direction {
                    Direction::Up => if i - amount <= 0 {
                        0
                    } else {
                        i - amount
                    },
                    Direction::Down => if i + amount >= stored.len() - 1 {
                        stored.len() - 1
                    } else {
                        i + amount
                    },
                };
                stored.remove(i).insert(to, stored[i])
            },
            None => stored,
        },
        _ => stored,
    }
}

/// In a store of distinct lists, a list is found where it stands.
pub proof fn lemma_index_of_list(stored: Seq<UIListView>, i: int)
    requires
        distinct_lists(stored),
        0 <= i < stored.len(),
    ensures
        index_of_list(stored, stored[i].list.id) == Some(i),
{
    let found = choose|j: int| 0 <= j < stored.len() && stored[j].list.id == stored[i].list.id;
    assert(found == i);
}

/// After any work on the lists, the lists shown are the lists stored.
pub proof fn lemma_shown_lists_are_stored(
    shown: ListsView,
    command: CommandView,
    stored: Seq<UIListView>,
)
    requires
        shown.concerns(command),
    ensures
        shown.completed(command, stored).lists == stored,
{
}

/// A list created under one name and then renamed to another reads the new
/// name, in the store and on the screen alike.
///
/// The lists shown mirror the store, whose lists are distinct; `created` is
/// the record that the store makes for the new list, under an identity of
/// its own. The new list is created, selected, and renamed.
pub proof fn lemma_create_then_rename_list(
    shown: ListsView,
    created: UIListView,
    first_name: Seq<char>,
    second_name: Seq<char>,
)
    requires
        shown.wf(),
        distinct_lists(shown.lists.push(created)),
        created.wf(),
        created.list.name == first_name,
        shown.lists.len() < usize::MAX,
    ensures
        ({
            let stored = lists_after(shown.lists, shown.create_request(first_name), created);
            let after_create = shown.completed(shown.create_request(first_name), stored);
            let selected = after_create.with_selection(after_create.selection.last());
            let rename = selected.rename_request(second_name);
            let stored_again = lists_after(stored, rename, created);
            let after_rename = selected.completed(rename, stored_again);
            &&& after_create.lists == stored
            &&& stored.last().list.name == first_name
            &&& rename == (CommandView::RenameList { id: created.list.id, name: second_name })
            &&& after_rename.lists == stored_again
            &&& stored_again.len() == shown.lists.len() + 1
            &&& stored_again.last().list.name == second_name
            &&& after_rename.selected_list() matches Some(list) && list.list.name == second_name
                && list.list.id == created.list.id
            &&& after_rename.wf()
        }),
{
    let stored = shown.lists.push(created);
    lemma_index_of_list(stored, stored.len() - 1);
    let after_create = shown.completed(shown.create_request(first_name), stored);
    let selected = after_create.with_selection(after_create.selection.last());
    assert(selected.selected_list() == Some(created));
}

/// A list created and deleted at once leaves as many lists as there were,
/// in the store and on the screen alike, and they are the lists that were
/// there before.
pub proof fn lemma_create_then_delete_list(shown: ListsView, created: UIListView, name: Seq<char>)
    requires
        shown.wf(),
        distinct_lists(shown.lists.push(created)),
        created.wf(),
        created.list.name == name,
        shown.lists.len() < usize::MAX,
    ensures
        ({
            let stored = lists_after(shown.lists, shown.create_request(name), created);
            let after_create = shown.completed(shown.create_request(name), stored);
            let selected = after_create.with_selection(after_create.selection.last());
            let delete = selected.delete_request();
            let stored_again = lists_after(stored, delete, created);
            let after_delete = selected.completed(delete, stored_again);
            &&& delete == (CommandView::DeleteList { id: created.list.id })
            &&& stored_again == shown.lists
            &&& after_delete.lists == shown.lists
            &&& after_delete.lists.len() == shown.lists.len()
            &&& after_delete.wf()
        }),
{
    let stored = shown.lists.push(created);
    lemma_index_of_list(stored, stored.len() - 1);
    let after_create = shown.completed(shown.create_request(name), stored);
    let selected = after_create.with_selection(after_create.selection.last());
    assert(selected.selected_list() == Some(created));
    assert(stored.remove(stored.len() - 1) =~= shown.lists);
}

/// A list that is moved stays the selected one: after the store moved it
/// and the lists were read again, the selection stands on the same list.
pub proof fn lemma_selection_follows_moved_list(
    shown: ListsView,
    amount: nat,
    direction: Direction,
)
    requires
        shown.wf(),
        distinct_lists(shown.lists),
        shown.selection.selected is Some,
    ensures
        ({
            let request = shown.move_request(amount, direction);
            let stored = lists_after(shown.lists, request, shown.lists[0]);
            let after = shown.completed(request, stored);
            &&& after.lists == stored
            &&& stored.len() == shown.lists.len()
            &&& after.selected_list() == shown.selected_list()
            &&& after.wf()
        }),
{
    let i = shown.selection.selected->0 as int;
    lemma_index_of_list(shown.lists, i);
    let request = shown.move_request(amount, direction);
    let travel = shown.selection.travel(amount, direction) as int;
    let to: int = match direction {
        Direction::Up => i - travel,
        Direction::Down => i + travel,
    };
    let stored = shown.lists.remove(i).insert(to, shown.lists[i]);
    assert(lists_after(shown.lists, request, shown.lists[0]) == stored);
    assert(stored[to] == shown.lists[i]);
    assert forall|k: int| 0 <= k < stored.len() implies (#[trigger] stored[k]).wf() by {
        if k < to {
            assert(stored[k] == shown.lists.remove(i)[k]);
        } else if k > to {
            assert(stored[k] == shown.lists.remove(i)[k - 1]);
        }
    }
}

/// No two items share an identity.
pub open spec fn distinct_items(stored: Seq<TodoItemView>) -> bool {
    forall|i: int, j: int|
        0 <= i < stored.len() && 0 <= j < stored.len() && i != j ==> (#[trigger] stored[i]).id != (
        #[trigger] stored[j]).id
}

/// Where the item `id` stands among the stored ones of its list.
pub open spec fn index_of_item(stored: Seq<TodoItemView>, id: i64) -> Option<int> {
    if exists|i: int| 0 <= i < stored.len() && stored[i].id == id {
        Some(choose|i: int| 0 <= i < stored.len() && stored[i].id == id)
    } else {
        None
    }
}

/// An item under another name.
pub open spec fn renamed_item(item: TodoItemView, name: Seq<char>) -> TodoItemView {
    TodoItemView { name, ..item }
}

/// An item ticked off if it was not, and the other way round.
pub open spec fn toggled_item(item: TodoItemView) -> TodoItemView {
    TodoItemView { is_done: !item.is_done, ..item }
}

/// What the store holds for one list after it carried out work on the
/// items of that list. A new item goes to the end, and `created` is the
/// record that the store makes for it; a renamed or ticked item keeps its
/// place; a deleted item leaves; a moved item passes as many of its
/// neighbours as asked, or as many as there are.
pub open spec fn items_after(stored: Seq<TodoItemView>, command: CommandView, created: TodoItemView)
    -> Seq<TodoItemView> {
    match command {
        CommandView::CreateItem(_) => stored.push(created),
        CommandView::RenameItem { id, name, .. } => match index_of_item(stored, id) {
            Some(i) => stored.update(i, renamed_item(stored[i], name)),
            None => stored,
        },
        CommandView::ToggleItem { id, .. } => match index_of_item(stored, id) {
            Some(i) => stored.update(i, toggled_item(stored[i])),
            None => stored,
        },
        CommandView::DeleteItem { id, .. } => match index_of_item(stored, id) {
            Some(i) => stored.remove(i),
            None => stored,
        },
        CommandView::MoveItem { id, direction, amount, .. } => match index_of_item(stored, id) {
            Some(i) => {
                let to: int = match direction {
                    Direction::Up => if i - amount <= 0 {
                        0
                    } else {
                        i - amount
                    },
                    Direction::Down => if i + amount >= stored.len() - 1 {
                        stored.len() - 1
                    } else {
                        i + amount
                    },
                };
                stored.remove(i).insert(to, stored[i])
            },
            None => stored,
        },
        _ => stored,
    }
}

/// Among distinct items, an item is found where it stands.
pub proof fn lemma_index_of_item(stored: Seq<TodoItemView>, i: int)
    requires
        distinct_items(stored),
        0 <= i < stored.len(),
    ensures
        index_of_item(stored, stored[i].id) == Some(i),
{
    let found = choose|j: int| 0 <= j < stored.len() && stored[j].id == stored[i].id;
    assert(found == i);
}

/// An item created under one name and then renamed to another reads the
/// new name, in the store and on the screen alike.
///
/// The items shown mirror the store, whose items are distinct; `created`
/// is the record that the store makes for the new item, under an identity
/// of its own. The new item is created, selected, and renamed.
pub proof fn lemma_create_then_rename_item(
    shown: UIListView,
    created: TodoItemView,
    first_name: Seq<char>,
    second_name: Seq<char>,
)
    requires
        shown.wf(),
        distinct_items(shown.items.push(created)),
        created.name == first_name,
        shown.items.len() < usize::MAX,
    ensures
        ({
            let stored = items_after(shown.items, shown.create_request(first_name), created);
            let after_create = shown.completed(shown.create_request(first_name), stored);
            let selected = after_create.with_selection(after_create.selection.last());
            let rename = selected.rename_request(second_name);
            let stored_again = items_after(stored, rename, created);
            let after_rename = selected.completed(rename, stored_again);
            &&& after_create.items == stored
            &&& stored.last().name == first_name
            &&& rename == (CommandView::RenameItem {
                list_id: shown.list.id,
                id: created.id,
                name: second_name,
            })
            &&& after_rename.items == stored_again
            &&& stored_again.len() == shown.items.len() + 1
            &&& stored_again.last().name == second_name
            &&& after_rename.selected_item() matches Some(item) && item.name == second_name
                && item.id == created.id
            &&& after_rename.wf()
        }),
{
    let stored = shown.items.push(created);
    lemma_index_of_item(stored, stored.len() - 1);
    let after_create = shown.completed(shown.create_request(first_name), stored);
    let selected = after_create.with_selection(after_create.selection.last());
    assert(selected.selected_item() == Some(created));
}

/// An item created and deleted at once leaves as many items as there were,
/// in the store and on the screen alike, and they are the items that were
/// there before.
pub proof fn lemma_create_then_delete_item(shown: UIListView, created: TodoItemView, name: Seq<char>)
    requires
        shown.wf(),
        distinct_items(shown.items.push(created)),
        created.name == name,
        shown.items.len() < usize::MAX,
    ensures
        ({
            let stored = items_after(shown.items, shown.create_request(name), created);
            let after_create = shown.completed(shown.create_request(name), stored);
            let selected = after_create.with_selection(after_create.selection.last());
            let delete = selected.delete_request();
            let stored_again = items_after(stored, delete, created);
            let after_delete = selected.completed(delete, stored_again);
            &&& delete == (CommandView::DeleteItem { list_id: shown.list.id, id: created.id })
            &&& stored_again == shown.items
            &&& after_delete.items == shown.items
            &&& after_delete.items.len() == shown.items.len()
            &&& after_delete.wf()
        }),
{
    let stored = shown.items.push(created);
    lemma_index_of_item(stored, stored.len() - 1);
    let after_create = shown.completed(shown.create_request(name), stored);
    let selected = after_create.with_selection(after_create.selection.last());
    assert(selected.selected_item() == Some(created));
    assert(stored.remove(stored.len() - 1) =~= shown.items);
}

/// An item that is moved stays the selected one: after the store moved it
/// and the items were read again, the selection stands on the same item.
pub proof fn lemma_selection_follows_moved_item(
    shown: UIListView,
    amount: nat,
    direction: Direction,
)
    requires
        shown.wf(),
        distinct_items(shown.items),
        shown.selection.selected is Some,
    ensures
        ({
            let request = shown.move_request(amount, direction);
            let stored = items_after(shown.items, request, shown.items[0]);
            let after = shown.completed(request, stored);
            &&& after.items == stored
            &&& stored.len() == shown.items.len()
            &&& after.selected_item() == shown.selected_item()
            &&& after.wf()
        }),
{
    let i = shown.selection.selected->0 as int;
    lemma_index_of_item(shown.items, i);
    let request = shown.move_request(amount, direction);
    let travel = shown.selection.travel(amount, direction) as int;
    let to: int = match direction {
        Direction::Up => i - travel,
        Direction::Down => i + travel,
    };
    let stored = shown.items.remove(i).insert(to, shown.items[i]);
    assert(items_after(shown.items, request, shown.items[0]) == stored);
    assert(stored[to] == shown.items[i]);
}

} // verus!
