//! The records of the to-do store and their in-memory companions.

use crate::ui::selection::SelectionState;
use vstd::prelude::*;

verus! {

/// How urgent an item is.
#[derive(Debug, Clone, Copy, PartialEq, Eq, Structural)]
pub enum Priority {
    High,
    Medium,
    Low,
}

/// A stored list.
#[derive(Debug)]
pub struct TodoList {
    /// Identity of the list; it never changes.
    pub id: i64,
    /// Name shown to the user.
    pub name: String,
    /// Position among all lists.
    pub ordering: i64,
}

/// A stored item.
#[derive(Debug)]
pub struct TodoItem {
    /// Identity of the item; it never changes.
    pub id: i64,
    /// The list the item belongs to.
    pub list_id: i64,
    /// Name shown to the user.
    pub name: String,
    /// Whether the item is ticked off.
    pub is_done: bool,
    /// Urgency, carried along untouched.
    pub priority: Option<Priority>,
    /// Due date in microseconds since the Unix epoch, carried along untouched.
    pub due_date: Option<i64>,
    /// Position among the items of its list.
    pub ordering: i64,
}

/// What the store needs to create a list.
#[derive(Debug)]
pub struct NewTodoList {
    pub name: String,
}

/// What the store needs to create an item.
#[derive(Debug)]
pub struct NewTodoItem {
    pub list_id: i64,
    pub name: String,
    pub priority: Option<Priority>,
    pub due_date: Option<i64>,
}

/// An item as the interface holds it.
#[derive(Debug)]
pub struct UIItem {
    pub item: TodoItem,
}

/// A list as the interface holds it: the record, the items last read from
/// the store, and which of them is selected.
#[derive(Debug)]
pub struct UIList {
    pub list: TodoList,
    pub item_state: SelectionState,
    pub items: Vec<UIItem>,
}

/// A [`TodoList`] as a mathematical value.
pub struct TodoListView {
    pub id: i64,
    pub name: Seq<char>,
    pub ordering: i64,
}

/// A [`TodoItem`] as a mathematical value.
pub struct TodoItemView {
    pub id: i64,
    pub list_id: i64,
    pub name: Seq<char>,
    pub is_done: bool,
    pub priority: Option<Priority>,
    pub due_date: Option<i64>,
    pub ordering: i64,
}

/// A [`NewTodoItem`] as a mathematical value.
pub struct NewTodoItemView {
    pub list_id: i64,
    pub name: Seq<char>,
    pub priority: Option<Priority>,
    pub due_date: Option<i64>,
}

/// A [`UIList`] as a mathematical value.
pub struct UIListView {
    pub list: TodoListView,
    pub selection: SelectionState,
    pub items: Seq<TodoItemView>,
}

impl View for TodoList {
    type V = TodoListView;

    open spec fn view(&self) -> TodoListView {
        TodoListView { id: self.id, name: self.name@, ordering: self.ordering }
    }
}

impl View for TodoItem {
    type V = TodoItemView;

    open spec fn view(&self) -> TodoItemView {
        TodoItemView {
            id: self.id,
            list_id: self.list_id,
            name: self.name@,
            is_done: self.is_done,
            priority: self.priority,
            due_date: self.due_date,
            ordering: self.ordering,
        }
    }
}

impl View for NewTodoList {
    type V = Seq<char>;

    open spec fn view(&self) -> Seq<char> {
        self.name@
    }
}

impl View for NewTodoItem {
    type V = NewTodoItemView;

    open spec fn view(&self) -> NewTodoItemView {
        NewTodoItemView {
            list_id: self.list_id,
            name: self.name@,
            priority: self.priority,
            due_date: self.due_date,
        }
    }
}

impl View for UIItem {
    type V = TodoItemView;

    open spec fn view(&self) -> TodoItemView {
        self.item@
    }
}

impl View for UIList {
    type V = UIListView;

    open spec fn view(&self) -> UIListView {
        UIListView {
            list: self.list@,
            selection: self.item_state,
            items: self.items@.map_values(|i: UIItem| i@),
        }
    }
}

/// The records of a sequence of items.
pub open spec fn items_view(items: Seq<TodoItem>) -> Seq<TodoItemView> {
    items.map_values(|i: TodoItem| i@)
}

/// The values of a sequence of lists.
pub open spec fn lists_view(lists: Seq<UIList>) -> Seq<UIListView> {
    lists.map_values(|l: UIList| l@)
}

impl UIListView {
    /// The selection speaks of exactly the items held, and addresses one of
    /// them or none.
    pub open spec fn wf(self) -> bool {
        &&& self.selection.len == self.items.len()
        &&& self.selection.wf()
    }

    /// The selected item, if any.
    pub open spec fn selected_item(self) -> Option<TodoItemView> {
        match self.selection.selected {
            Some(j) if j < self.items.len() => Some(self.items[j as int]),
            _ => None,
        }
    }

    /// The same list with another selection.
    pub open spec fn with_selection(self, selection: SelectionState) -> UIListView {
        UIListView { list: self.list, selection, items: self.items }
    }

    /// The list after its items were read from the store again: the items
    /// are the ones read; the selection stays where it was unless the list
    /// became too short for it, in which case it moves to the last item, or
    /// goes away with the last item.
    pub open spec fn reloaded(self, items: Seq<TodoItemView>) -> UIListView {
        UIListView {
            list: self.list,
            selection: self.selection.resized(items.len() as usize),
            items,
        }
    }
}

impl Clone for TodoList {
    fn clone(&self) -> (copy: Self)
        ensures
            copy@ == self@,
    {
        TodoList { id: self.id, name: self.name.clone(), ordering: self.ordering }
    }
}

impl Clone for TodoItem {
    fn clone(&self) -> (copy: Self)
        ensures
            copy@ == self@,
    {
        TodoItem {
            id: self.id,
            list_id: self.list_id,
            name: self.name.clone(),
            is_done: self.is_done,
            priority: self.priority,
            due_date: self.due_date,
            ordering: self.ordering,
        }
    }
}

impl UIList {
    /// The selection speaks of exactly the items held, and addresses one of
    /// them or none.
    pub open spec fn wf(&self) -> bool {
        self@.wf()
    }

    /// Whether the selection fits the items held.
    pub fn is_valid(&self) -> (valid: bool)
        ensures
            valid == self.wf(),
    {
        self.item_state.len == self.items.len() && match self.item_state.selected {
            Some(j) => j < self.item_state.len,
            None => true,
        }
    }

    /// Puts a list and the items read for it together, nothing selected.
    pub fn new(list: TodoList, items: Vec<TodoItem>) -> (ui_list: UIList)
        ensures
            ui_list@ == (UIListView {
                list: list@,
                selection: SelectionState { selected: None, len: items.len() },
                items: items_view(items@),
            }),
            ui_list.wf(),
    {
        let len = items.len();
        let items = UIList::wrap(items);
        UIList { list, item_state: SelectionState::new(len), items }
    }

    /// Replaces the items by those read from the store again and adapts
    /// the selection to their number.
    pub fn update_items(&mut self, items: Vec<TodoItem>)
        ensures
            final(self)@ == old(self)@.reloaded(items_view(items@)),
            final(self).wf(),
    {
        self.item_state.resize(items.len());
        self.items = UIList::wrap(items);
    }

    fn wrap(items: Vec<TodoItem>) -> (wrapped: Vec<UIItem>)
        ensures
            wrapped@.map_values(|i: UIItem| i@) == items_view(items@),
            wrapped.len() == items.len(),
    {
        let mut wrapped: Vec<UIItem> = Vec::new();
        for item in it: items
            invariant
                wrapped.len() == it.index(),
                forall|j: int| 0 <= j < wrapped.len() ==> wrapped[j].item == it.seq()[j],
        {
            wrapped.push(UIItem { item });
        }
        wrapped
    }
}

} // verus!
