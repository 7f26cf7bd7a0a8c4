//! Cursor-addressed editing of a single line of text.
//!
//! Positions count characters, never bytes, so a character of several
//! bytes is one step of the cursor like any other.

use vstd::prelude::*;
use vstd::string::*;

verus! {

/// A line of text with a cursor in it, as a mathematical value.
pub struct CursorText {
    /// The characters of the line.
    pub text: Seq<char>,
    /// How many characters stand before the cursor.
    pub cursor: nat,
}

/// One editing step.
pub enum EditOp {
    /// Put a character at the cursor and step over it.
    Insert(char),
    /// Remove the character before the cursor.
    DeleteBefore,
    /// Remove the character at the cursor.
    DeleteAfter,
    /// Step one character towards the start.
    MoveLeft,
    /// Step one character towards the end.
    MoveRight,
    /// Empty the line.
    Clear,
}

impl CursorText {
    /// The cursor stands inside the text or right after it.
    pub open spec fn wf(self) -> bool {
        self.cursor <= self.text.len()
    }

    /// The empty line.
    pub open spec fn empty() -> CursorText {
        CursorText { text: Seq::empty(), cursor: 0 }
    }

    /// `c` inserted at the cursor, the cursor after it.
    pub open spec fn insert(self, c: char) -> CursorText {
        CursorText { text: self.text.insert(self.cursor as int, c), cursor: self.cursor + 1 }
    }

    /// The character before the cursor removed; nothing at the start.
    pub open spec fn delete_before(self) -> CursorText {
        if self.cursor > 0 {
            CursorText {
                text: self.text.remove(self.cursor - 1),
                cursor: (self.cursor - 1) as nat,
            }
        } else {
            self
        }
    }

    /// The character at the cursor removed; nothing at the end.
    pub open spec fn delete_after(self) -> CursorText {
        if self.cursor < self.text.len() {
            CursorText { text: self.text.remove(self.cursor as int), cursor: self.cursor }
        } else {
            self
        }
    }

    /// The cursor one character to the left, unless at the start.
    pub open spec fn left(self) -> CursorText {
        if self.cursor > 0 {
            CursorText { text: self.text, cursor: (self.cursor - 1) as nat }
        } else {
            self
        }
    }

    /// The cursor one character to the right, unless at the end.
    pub open spec fn right(self) -> CursorText {
        if self.cursor < self.text.len() {
            CursorText { text: self.text, cursor: self.cursor + 1 }
        } else {
            self
        }
    }

    /// The line after one editing step.
    pub open spec fn apply(self, op: EditOp) -> CursorText {
        match op {
            EditOp::Insert(c) => self.insert(c),
            EditOp::DeleteBefore => self.delete_before(),
            EditOp::DeleteAfter => self.delete_after(),
            EditOp::MoveLeft => self.left(),
            EditOp::MoveRight => self.right(),
            EditOp::Clear => CursorText::empty(),
        }
    }

    /// The line after a sequence of editing steps, first step first.
    pub open spec fn apply_all(self, ops: Seq<EditOp>) -> CursorText
        decreases ops.len(),
    {
        if ops.len() == 0 {
            self
        } else {
            self.apply(ops[0]).apply_all(ops.drop_first())
        }
    }

    /// Where the cursor is drawn: its position, or the end of the text when
    /// it lies beyond.
    pub open spec fn drawn_cursor(self) -> int {
        if self.cursor <= self.text.len() {
            self.cursor as int
        } else {
            self.text.len() as int
        }
    }

    /// The text before the drawn cursor.
    pub open spec fn before_cursor(self) -> Seq<char> {
        self.text.subrange(0, self.drawn_cursor())
    }

    /// The character under the drawn cursor, or a block where the cursor
    /// stands after the text.
    pub open spec fn at_cursor(self) -> Seq<char> {
        if self.drawn_cursor() < self.text.len() {
            seq![self.text[self.drawn_cursor()]]
        } else {
            seq![BLOCK]
        }
    }

    /// The text after the character under the drawn cursor.
    pub open spec fn after_cursor(self) -> Seq<char> {
        if self.drawn_cursor() < self.text.len() {
            self.text.subrange(self.drawn_cursor() + 1, self.text.len() as int)
        } else {
            Seq::empty()
        }
    }
}

/// No editing step moves the cursor out of the text: from a line whose
/// cursor is within `0..=len`, every sequence of insertions, deletions,
/// moves and clears ends in such a line.
pub proof fn lemma_edits_keep_cursor_in_text(line: CursorText, ops: Seq<EditOp>)
    requires
        line.wf(),
    ensures
        line.apply_all(ops).wf(),
        0 <= line.apply_all(ops).cursor <= line.apply_all(ops).text.len(),
    decreases ops.len(),
{
    if ops.len() > 0 {
        lemma_edits_keep_cursor_in_text(line.apply(ops[0]), ops.drop_first());
    }
}

/// The glyph drawn where the cursor stands after the end of the text.
pub const BLOCK: char = '\u{2588}';

/// The three pieces a line is drawn in.
pub struct CursorSpans {
    /// The text before the cursor.
    pub before: String,
    /// The character under the cursor, or the block glyph.
    pub at_cursor: String,
    /// The text after the character under the cursor.
    pub after: String,
}

/// `String::push` of std: the character is appended, nothing else changes.
pub assume_specification[ String::push ](s: &mut String, c: char)
    ensures
        final(s)@ == old(s)@.push(c),
;

/// Whether a character has Unicode's `White_Space` property: the blank,
/// the control characters from tab to carriage return, next line, the
/// no-break blanks, the Ogham space mark, the blanks of fixed width, the
/// line and paragraph separators, the mathematical and the ideographic
/// blank.
pub open spec fn is_white_space(c: char) -> bool {
    ||| '\u{9}' <= c <= '\u{d}'
    ||| c == ' '
    ||| c == '\u{85}'
    ||| c == '\u{a0}'
    ||| c == '\u{1680}'
    ||| '\u{2000}' <= c <= '\u{200a}'
    ||| c == '\u{2028}'
    ||| c == '\u{2029}'
    ||| c == '\u{202f}'
    ||| c == '\u{205f}'
    ||| c == '\u{3000}'
}

/// `char::is_whitespace` of std: whether the character has Unicode's
/// `White_Space` property.
pub assume_specification[ char::is_whitespace ](c: char) -> (b: bool)
    ensures
        b == is_white_space(c),
;

/// A text with nothing but white space in it, the empty text included.
pub open spec fn blank(text: Seq<char>) -> bool {
    forall|i: int| 0 <= i < text.len() ==> is_white_space(#[trigger] text[i])
}

/// Whether `text` would be empty once white space is trimmed off its ends.
pub fn is_blank(text: &str) -> (b: bool)
    ensures
        b == blank(text@),
{
    let len = text.unicode_len();
    let mut i: usize = 0;
    while i < len
        invariant
            len == text@.len(),
            i <= len,
            forall|j: int| 0 <= j < i ==> is_white_space(#[trigger] text@[j]),
        decreases len - i,
    {
        if !text.get_char(i).is_whitespace() {
            return false;
        }
        i += 1;
    }
    true
}

/// A text buffer with a cursor, and the editing every such buffer shares.
///
/// An implementor says where its text and its cursor are; the editing
/// operations are written once, here.
pub trait CursorState: Sized {
    /// What the implementor holds besides the line itself.
    type Owner;

    /// The line being edited.
    spec fn line(&self) -> CursorText;

    /// Everything else in the buffer, which no editing step may touch.
    spec fn owner(&self) -> Self::Owner;

    /// The text.
    fn get_text(&self) -> (text: &str)
        ensures
            text@ == self.line().text,
    ;

    /// The cursor position, in characters.
    fn get_cursor_pos(&self) -> (pos: usize)
        ensures
            pos == self.line().cursor,
    ;

    /// Puts the cursor at `pos`.
    fn set_cursor_pos(&mut self, pos: usize)
        ensures
            final(self).line() == (CursorText { text: old(self).line().text, cursor: pos as nat }),
            final(self).owner() == old(self).owner(),
    ;

    /// The text, to be changed in place.
    fn get_text_mut(&mut self) -> (text: &mut String)
        ensures
            text@ == old(self).line().text,
            final(self).line() == (CursorText {
                text: final(text)@,
                cursor: old(self).line().cursor,
            }),
            final(self).owner() == old(self).owner(),
    ;

    /// Inserts `c` at the cursor and moves the cursor past it.
    fn add_char(&mut self, c: char)
        requires
            old(self).line().wf(),
        ensures
            final(self).line() == old(self).line().insert(c),
            final(self).line().wf(),
            final(self).owner() == old(self).owner(),
    {
        let pos = self.get_cursor_pos();
        let mut edited = String::new();
        {
            let text = self.get_text();
            let len = text.unicode_len();
            edited.append(text.substring_char(0, pos));
            edited.push(c);
            edited.append(text.substring_char(pos, len));
        }
        // The edited text is a string, so its length fits a `usize`, and the
        // position after the new character is at most that length.
        let edited_len = edited.as_str().unicode_len();
        assert(pos < edited_len);
        let text = self.get_text_mut();
        *text = edited;
        self.set_cursor_pos(pos + 1);
    }

    /// Removes the character before the cursor (backspace). Does nothing at
    /// the start of the text.
    fn remove_char_before_cursor(&mut self)
        requires
            old(self).line().wf(),
        ensures
            final(self).line() == old(self).line().delete_before(),
            final(self).line().wf(),
            final(self).owner() == old(self).owner(),
    {
        let pos = self.get_cursor_pos();
        if pos > 0 {
            let mut edited = String::new();
            {
                let text = self.get_text();
                let len = text.unicode_len();
                edited.append(text.substring_char(0, pos - 1));
                edited.append(text.substring_char(pos, len));
            }
            let text = self.get_text_mut();
            *text = edited;
            self.set_cursor_pos(pos - 1);
        }
    }

    /// Removes the character at the cursor (forward delete). Does nothing at
    /// the end of the text.
    fn delete_char_after_cursor(&mut self)
        ensures
            final(self).line() == old(self).line().delete_after(),
            old(self).line().wf() ==> final(self).line().wf(),
            final(self).owner() == old(self).owner(),
    {
        let pos = self.get_cursor_pos();
        let len = self.get_text().unicode_len();
        if pos < len {
            let mut edited = String::new();
            {
                let text = self.get_text();
                edited.append(text.substring_char(0, pos));
                edited.append(text.substring_char(pos + 1, len));
            }
            let text = self.get_text_mut();
            *text = edited;
        }
    }

    /// Moves the cursor one character to the left, unless it is at the start.
    fn move_cursor_left(&mut self)
        ensures
            final(self).line() == old(self).line().left(),
            old(self).line().wf() ==> final(self).line().wf(),
            final(self).owner() == old(self).owner(),
    {
        let pos = self.get_cursor_pos();
        if pos > 0 {
            self.set_cursor_pos(pos - 1);
        }
    }

    /// Moves the cursor one character to the right, unless it is at the end.
    fn move_cursor_right(&mut self)
        ensures
            final(self).line() == old(self).line().right(),
            old(self).line().wf() ==> final(self).line().wf(),
            final(self).owner() == old(self).owner(),
    {
        let pos = self.get_cursor_pos();
        let len = self.get_text().unicode_len();
        if pos < len {
            self.set_cursor_pos(pos + 1);
        }
    }

    /// Empties the text and puts the cursor at the start.
    fn clear(&mut self)
        ensures
            final(self).line() == CursorText::empty(),
            final(self).owner() == old(self).owner(),
    {
        let text = self.get_text_mut();
        *text = String::new();
        self.set_cursor_pos(0);
    }

    /// Splits the text for drawing: what stands before the cursor, the
    /// character under it, and what follows. A cursor beyond the text is
    /// drawn at its end, and a cursor at the end is drawn as a block.
    fn create_cursor_text_spans(&self) -> (spans: CursorSpans)
        ensures
            spans.before@ == self.line().before_cursor(),
            spans.at_cursor@ == self.line().at_cursor(),
            spans.after@ == self.line().after_cursor(),
    {
        let text = self.get_text();
        let len = text.unicode_len();
        let pos = self.get_cursor_pos();
        let drawn = if pos <= len {
            pos
        } else {
            len
        };
        let before = String::from_str(text.substring_char(0, drawn));
        let mut at_cursor = String::new();
        let mut after = String::new();
        if drawn < len {
            at_cursor.push(text.get_char(drawn));
            after.append(text.substring_char(drawn + 1, len));
        } else {
            at_cursor.push(BLOCK);
        }
        CursorSpans { before, at_cursor, after }
    }
}

} // verus!
