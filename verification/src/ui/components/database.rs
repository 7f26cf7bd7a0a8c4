//! The pane that shows the known databases.

use crate::db::config::DBConfig;
use crate::ui::selection::SelectionState;
use vstd::prelude::*;

verus! {

/// Which of the known databases is highlighted.
#[derive(Debug)]
pub struct DatabaseComponent {
    pub list_state: SelectionState,
}

impl DatabaseComponent {
    /// Nothing highlighted, no databases known.
    pub fn new() -> (component: Self)
        ensures
            component.list_state == (SelectionState { selected: None, len: 0 }),
    {
        Self { list_state: SelectionState::new(0) }
    }

    /// Highlights the database after the highlighted one among `dbs`,
    /// wrapping around at the end; the first one where none is highlighted.
    pub fn select_next(&mut self, dbs: &[DBConfig])
        ensures
            final(self).list_state == old(self).list_state.resized(dbs@.len() as usize).next(),
            final(self).list_state.wf(),
    {
        self.list_state.resize(dbs.len());
        self.list_state.select_next();
    }

    /// Highlights the database before the highlighted one among `dbs`,
    /// wrapping around at the start; the last one where none is
    /// highlighted.
    pub fn select_previous(&mut self, dbs: &[DBConfig])
        ensures
            final(self).list_state == old(self).list_state.resized(dbs@.len() as usize).previous(),
            final(self).list_state.wf(),
    {
        self.list_state.resize(dbs.len());
        self.list_state.select_previous();
    }

    /// Highlights the database at `active` among `len` databases.
    pub fn show(&mut self, active: Option<usize>, len: usize)
        ensures
            final(self).list_state == old(self).list_state.resized(len).with_selected(active),
            final(self).list_state.wf(),
    {
        self.list_state.resize(len);
        self.list_state.select(active);
    }
}

} // verus!
