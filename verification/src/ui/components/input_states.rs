//! Buffers that take the user's typing.

use crate::ui::cursor::{CursorState, CursorText};
use vstd::prelude::*;

verus! {

/// What the user has typed into the open entry field.
#[derive(Debug)]
pub struct InputState {
    /// The text typed so far.
    pub current_input: String,
    /// Position of the cursor, in characters.
    pub cursor_pos: usize,
    /// Whether the text replaces the name of an existing entry instead of
    /// naming a new one.
    pub is_modifying: bool,
    /// The entry whose name is being replaced, where it has an identity.
    pub id: Option<i64>,
}

/// An [`InputState`] as a mathematical value.
pub struct InputView {
    /// The text and the cursor in it.
    pub line: CursorText,
    /// Whether an existing entry is being renamed.
    pub is_modifying: bool,
    /// The entry being renamed.
    pub id: Option<i64>,
}

impl InputView {
    /// The cursor stands within the text.
    pub open spec fn wf(self) -> bool {
        self.line.wf()
    }

    /// The field as it is when nothing has been typed and nothing is being
    /// renamed.
    pub open spec fn empty() -> InputView {
        InputView { line: CursorText::empty(), is_modifying: false, id: None }
    }

    /// The field opened on the existing `name` of the entry `id`, with the
    /// cursor at the start.
    pub open spec fn modifying(name: Seq<char>, id: Option<i64>) -> InputView {
        InputView { line: CursorText { text: name, cursor: 0 }, is_modifying: true, id }
    }

    /// The same field with another line of text in it.
    pub open spec fn with_line(self, line: CursorText) -> InputView {
        InputView { line, is_modifying: self.is_modifying, id: self.id }
    }
}

impl View for InputState {
    type V = InputView;

    open spec fn view(&self) -> InputView {
        InputView {
            line: CursorText { text: self.current_input@, cursor: self.cursor_pos as nat },
            is_modifying: self.is_modifying,
            id: self.id,
        }
    }
}

impl Clone for InputState {
    fn clone(&self) -> (copy: Self)
        ensures
            copy@ == self@,
    {
        InputState {
            current_input: self.current_input.clone(),
            cursor_pos: self.cursor_pos,
            is_modifying: self.is_modifying,
            id: self.id,
        }
    }
}

impl Default for InputState {
    fn default() -> (state: Self)
        ensures
            state@ == InputView::empty(),
    {
        Self::new()
    }
}

impl InputState {
    /// The cursor stands within the text.
    pub open spec fn wf(&self) -> bool {
        self@.wf()
    }

    /// An empty field for naming a new entry.
    pub fn new() -> (state: Self)
        ensures
            state@ == InputView::empty(),
            state.wf(),
    {
        Self { current_input: String::new(), cursor_pos: 0, is_modifying: false, id: None }
    }

    /// A field opened on the existing `name` of the entry `id`, with the
    /// cursor at the start.
    pub fn modifying(name: String, id: Option<i64>) -> (state: Self)
        ensures
            state@ == InputView::modifying(name@, id),
            state.wf(),
    {
        Self { current_input: name, cursor_pos: 0, is_modifying: true, id }
    }
}

impl CursorState for InputState {
    type Owner = (bool, Option<i64>);

    open spec fn line(&self) -> CursorText {
        self@.line
    }

    open spec fn owner(&self) -> (bool, Option<i64>) {
        (self.is_modifying, self.id)
    }

    fn get_text(&self) -> (text: &str) {
        self.current_input.as_str()
    }

    fn get_text_mut(&mut self) -> (text: &mut String) {
        &mut self.current_input
    }

    fn get_cursor_pos(&self) -> (pos: usize) {
        self.cursor_pos
    }

    fn set_cursor_pos(&mut self, pos: usize) {
        self.cursor_pos = pos;
    }
}

/// The entry field of the list-naming dialog: a bare line of text.
#[derive(Debug)]
pub struct NewListState {
    /// The name typed so far.
    pub current_new_list_name: String,
    /// Position of the cursor, in characters.
    pub cursor_pos: usize,
}

impl View for NewListState {
    type V = CursorText;

    open spec fn view(&self) -> CursorText {
        CursorText { text: self.current_new_list_name@, cursor: self.cursor_pos as nat }
    }
}

impl NewListState {
    /// An empty field.
    pub fn new() -> (state: Self)
        ensures
            state@ == CursorText::empty(),
    {
        Self { current_new_list_name: String::new(), cursor_pos: 0 }
    }
}

impl CursorState for NewListState {
    type Owner = ();

    open spec fn line(&self) -> CursorText {
        self@
    }

    open spec fn owner(&self) -> () {
        ()
    }

    fn get_text(&self) -> (text: &str) {
        self.current_new_list_name.as_str()
    }

    fn get_text_mut(&mut self) -> (text: &mut String) {
        &mut self.current_new_list_name
    }

    fn get_cursor_pos(&self) -> (pos: usize) {
        self.cursor_pos
    }

    fn set_cursor_pos(&mut self, pos: usize) {
        self.cursor_pos = pos;
    }
}

} // verus!
