//! The work that is asked of the world outside, and what comes back.
//!
//! The interface never touches the store, the settings file or a database
//! file itself. Where a key press calls for such work it hands out a
//! [`Command`]; whoever runs the interface carries it out and reports the
//! [`Outcome`].

use crate::db::config::{Config, ConfigView, DBConfig, DBConfigView};
use crate::db::models::{
    lists_view, items_view, NewTodoItem, NewTodoItemView, NewTodoList, TodoItem, TodoItemView,
    UIList, UIListView,
};
use crate::ui::components::lists::ListsComponent;
use crate::ui::selection::Direction;
use vstd::prelude::*;

verus! {

/// What is to happen on the database screen once the settings are written.
#[derive(Debug, Clone, Copy, PartialEq, Eq, Structural)]
pub enum AfterSave {
    /// The highlight stays where it is.
    Keep,
    /// The database added last is highlighted and the entry screen closed.
    Reveal,
    /// The open database is highlighted.
    Resync,
    /// The entry screen is closed.
    Close,
}

/// One piece of outside work.
#[derive(Debug)]
pub enum Command {
    /// Nothing to do.
    Nothing,
    /// Append a new list, then read all lists.
    CreateList(NewTodoList),
    /// Rename the list `id`, then read all lists.
    RenameList { id: i64, name: String },
    /// Delete the list `id` with its items, then read all lists.
    DeleteList { id: i64 },
    /// Move the list `id` past `amount` of its neighbours, then read all
    /// lists.
    MoveList { id: i64, direction: Direction, amount: usize },
    /// Append a new item to its list, then read the items of that list.
    CreateItem(NewTodoItem),
    /// Rename the item `id`, then read the items of the list `list_id`.
    RenameItem { list_id: i64, id: i64, name: String },
    /// Tick the item `id` off or on, then read the items of the list
    /// `list_id`.
    ToggleItem { list_id: i64, id: i64 },
    /// Delete the item `id`, then read the items of the list `list_id`.
    DeleteItem { list_id: i64, id: i64 },
    /// Move the item `id` past `amount` of its neighbours in the list
    /// `list_id`, then read the items of that list.
    MoveItem { list_id: i64, id: i64, direction: Direction, amount: usize },
    /// Connect to the database `db` and read all its lists.
    OpenDatabase { db: DBConfig, make_default: bool },
    /// Create a database called `name` and report where it is kept.
    CreateDatabase { name: String },
    /// Write the settings `config` to their file.
    SaveConfig { config: Config, after: AfterSave },
}

/// What came of a [`Command`].
#[derive(Debug)]
pub enum Outcome {
    /// The work could not be done.
    Failed,
    /// The work was done and there is nothing to hand back.
    Done,
    /// The work was done; these are all lists as the store now has them.
    Lists(Vec<UIList>),
    /// The work was done; these are the items of the list in question as
    /// the store now has them.
    Items(Vec<TodoItem>),
    /// The database was created; this is its entry for the settings.
    Database(DBConfig),
}

/// A [`Command`] as a mathematical value.
pub enum CommandView {
    Nothing,
    CreateList(Seq<char>),
    RenameList { id: i64, name: Seq<char> },
    DeleteList { id: i64 },
    MoveList { id: i64, direction: Direction, amount: usize },
    CreateItem(NewTodoItemView),
    RenameItem { list_id: i64, id: i64, name: Seq<char> },
    ToggleItem { list_id: i64, id: i64 },
    DeleteItem { list_id: i64, id: i64 },
    MoveItem { list_id: i64, id: i64, direction: Direction, amount: usize },
    OpenDatabase { db: DBConfigView, make_default: bool },
    CreateDatabase { name: Seq<char> },
    SaveConfig { config: ConfigView, after: AfterSave },
}

/// An [`Outcome`] as a mathematical value.
pub enum OutcomeView {
    Failed,
    Done,
    Lists(Seq<UIListView>),
    Items(Seq<TodoItemView>),
    Database(DBConfigView),
}

impl View for Command {
    type V = CommandView;

    open spec fn view(&self) -> CommandView {
        match self {
            Command::Nothing => CommandView::Nothing,
            Command::CreateList(new_list) => CommandView::CreateList(new_list@),
            Command::RenameList { id, name } => CommandView::RenameList { id: *id, name: name@ },
            Command::DeleteList { id } => CommandView::DeleteList { id: *id },
            Command::MoveList { id, direction, amount } => CommandView::MoveList {
                id: *id,
                direction: *direction,
                amount: *amount,
            },
            Command::CreateItem(new_item) => CommandView::CreateItem(new_item@),
            Command::RenameItem { list_id, id, name } => CommandView::RenameItem {
                list_id: *list_id,
                id: *id,
                name: name@,
            },
            Command::ToggleItem { list_id, id } => CommandView::ToggleItem {
                list_id: *list_id,
                id: *id,
            },
            Command::DeleteItem { list_id, id } => CommandView::DeleteItem {
                list_id: *list_id,
                id: *id,
            },
            Command::MoveItem { list_id, id, direction, amount } => CommandView::MoveItem {
                list_id: *list_id,
                id: *id,
                direction: *direction,
                amount: *amount,
            },
            Command::OpenDatabase { db, make_default } => CommandView::OpenDatabase {
                db: db@,
                make_default: *make_default,
            },
            Command::CreateDatabase { name } => CommandView::CreateDatabase { name: name@ },
            Command::SaveConfig { config, after } => CommandView::SaveConfig {
                config: config@,
                after: *after,
            },
        }
    }
}

impl View for Outcome {
    type V = OutcomeView;

    open spec fn view(&self) -> OutcomeView {
        match self {
            Outcome::Failed => OutcomeView::Failed,
            Outcome::Done => OutcomeView::Done,
            Outcome::Lists(lists) => OutcomeView::Lists(lists_view(lists@)),
            Outcome::Items(items) => OutcomeView::Items(items_view(items@)),
            Outcome::Database(db) => OutcomeView::Database(db@),
        }
    }
}

impl Command {
    /// Whether there is nothing to do.
    pub fn is_nothing(&self) -> (nothing: bool)
        ensures
            nothing == (self@ is Nothing),
    {
        match self {
            Command::Nothing => true,
            _ => false,
        }
    }
}

impl Outcome {
    /// Every list handed back has a selection that fits its items.
    pub open spec fn wf(&self) -> bool {
        self matches Outcome::Lists(lists) ==> forall|i: int|
            0 <= i < lists.len() ==> (#[trigger] lists[i]).wf()
    }

    /// Whether every list handed back has a selection that fits its items.
    pub fn is_valid(&self) -> (valid: bool)
        ensures
            valid == self.wf(),
    {
        match self {
            Outcome::Lists(lists) => ListsComponent::all_valid(lists),
            _ => true,
        }
    }
}

} // verus!
