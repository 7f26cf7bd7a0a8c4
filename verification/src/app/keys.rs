//! Key presses as the interface sees them.

use vstd::prelude::*;
use vstd::string::*;

verus! {

/// The key that was pressed.
#[derive(Debug, Clone, Copy, PartialEq, Eq, Structural)]
pub enum KeyCode {
    /// A key that produces a character.
    Char(char),
    Up,
    Down,
    Left,
    Right,
    Tab,
    /// Tab with shift held.
    BackTab,
    Enter,
    Esc,
    Backspace,
    Delete,
    /// Any key the interface has no use for.
    Other,
}

/// The modifier keys held while a key was pressed.
#[derive(Debug, Clone, Copy, PartialEq, Eq, Structural)]
pub struct KeyModifiers {
    pub shift: bool,
    pub control: bool,
}

/// One key press.
#[derive(Debug, Clone, Copy, PartialEq, Eq, Structural)]
pub struct KeyEvent {
    pub code: KeyCode,
    pub modifiers: KeyModifiers,
}

impl KeyModifiers {
    /// No modifier held.
    pub fn none() -> (modifiers: Self)
        ensures
            modifiers == (KeyModifiers { shift: false, control: false }),
    {
        KeyModifiers { shift: false, control: false }
    }

    /// Shift held.
    pub fn shift() -> (modifiers: Self)
        ensures
            modifiers == (KeyModifiers { shift: true, control: false }),
    {
        KeyModifiers { shift: true, control: false }
    }

    /// Control held.
    pub fn control() -> (modifiers: Self)
        ensures
            modifiers == (KeyModifiers { shift: false, control: true }),
    {
        KeyModifiers { shift: false, control: true }
    }
}

impl KeyEvent {
    /// The press of `code` with `modifiers` held.
    pub fn new(code: KeyCode, modifiers: KeyModifiers) -> (key: Self)
        ensures
            key == (KeyEvent { code, modifiers }),
    {
        KeyEvent { code, modifiers }
    }

    /// The press of `code` with no modifier held.
    pub fn plain(code: KeyCode) -> (key: Self)
        ensures
            key == (KeyEvent { code, modifiers: KeyModifiers { shift: false, control: false } }),
    {
        KeyEvent { code, modifiers: KeyModifiers::none() }
    }

    /// Whether the key is the control-modified key that opens the help.
    pub open spec fn is_help(self) -> bool {
        self.modifiers.control && self.code == KeyCode::Char('h')
    }

    /// The digit a key stands for, where it is one of `0` to `9`.
    pub open spec fn digit(self) -> Option<usize> {
        match self.code {
            KeyCode::Char(c) if '0' <= c <= '9' => Some((c as int - '0' as int) as usize),
            _ => None,
        }
    }

    /// The text by which the key is shown among the recent keys.
    pub open spec fn label(self) -> Seq<char> {
        if self.is_help() {
            "Ctrl + h"@
        } else {
            match self.code {
                KeyCode::Char(' ') => seq!['\u{2423}'],
                KeyCode::Char(c) => seq![c],
                KeyCode::Up => seq!['\u{2191}'],
                KeyCode::Down => seq!['\u{2193}'],
                KeyCode::Left => seq!['\u{2190}'],
                KeyCode::Right => seq!['\u{2192}'],
                KeyCode::Tab => "Tab"@,
                KeyCode::BackTab => "Shift + Tab"@,
                KeyCode::Enter => "Enter"@,
                KeyCode::Esc => "Esc"@,
                _ => Seq::empty(),
            }
        }
    }

    /// Whether the key is one of those that are shown by a label of their
    /// own: every key with a label but the digits.
    pub open spec fn is_named(self) -> bool {
        if self.is_help() {
            true
        } else {
            match self.code {
                KeyCode::Char(_) => self.digit() is None,
                KeyCode::Up => true,
                KeyCode::Down => true,
                KeyCode::Left => true,
                KeyCode::Right => true,
                KeyCode::Tab => true,
                KeyCode::BackTab => true,
                KeyCode::Enter => true,
                KeyCode::Esc => true,
                _ => false,
            }
        }
    }

    /// The digit the key stands for, where it is one of `0` to `9`.
    pub fn as_digit(&self) -> (digit: Option<usize>)
        ensures
            digit == self.digit(),
            digit matches Some(d) ==> d <= 9,
    {
        match self.code {
            KeyCode::Char(c) => if c >= '0' && c <= '9' {
                Some((c as u32 - '0' as u32) as usize)
            } else {
                None
            },
            _ => None,
        }
    }
}

/// The text that is one character long and holds `c`.
pub fn char_label(c: char) -> (label: String)
    ensures
        label@ == seq![c],
{
    let mut label = String::new();
    label.push(c);
    label
}

} // verus!
