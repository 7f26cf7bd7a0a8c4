//! The colours of the interface.

use vstd::prelude::*;
use vstd::string::*;

verus! {

/// The colours of the interface, each one as a hexadecimal colour code.
#[derive(Debug)]
pub struct Theme {
    pub background: String,
    pub foreground: String,
    pub accent: String,
    pub border: String,
    pub highlight_bg: String,
    pub highlight_fg: String,
    pub border_accent: String,
    pub highlight_not_focused_fg: String,
    pub highlight_not_focused_bg: String,
    pub highlight_line_number_fg: String,
}

/// A [`Theme`] as a mathematical value.
pub struct ThemeView {
    pub background: Seq<char>,
    pub foreground: Seq<char>,
    pub accent: Seq<char>,
    pub border: Seq<char>,
    pub highlight_bg: Seq<char>,
    pub highlight_fg: Seq<char>,
    pub border_accent: Seq<char>,
    pub highlight_not_focused_fg: Seq<char>,
    pub highlight_not_focused_bg: Seq<char>,
    pub highlight_line_number_fg: Seq<char>,
}

impl View for Theme {
    type V = ThemeView;

    open spec fn view(&self) -> ThemeView {
        ThemeView {
            background: self.background@,
            foreground: self.foreground@,
            accent: self.accent@,
            border: self.border@,
            highlight_bg: self.highlight_bg@,
            highlight_fg: self.highlight_fg@,
            border_accent: self.border_accent@,
            highlight_not_focused_fg: self.highlight_not_focused_fg@,
            highlight_not_focused_bg: self.highlight_not_focused_bg@,
            highlight_line_number_fg: self.highlight_line_number_fg@,
        }
    }
}

impl ThemeView {
    /// The built-in colours: cream on dark green, with a salmon accent.
    pub open spec fn standard() -> ThemeView {
        ThemeView {
            background: "#002626"@,
            foreground: "#FCF1D5"@,
            accent: "#FFA69E"@,
            border: "#FCF1D5"@,
            highlight_bg: "#FCF1D5"@,
            highlight_fg: "#002626"@,
            border_accent: "#FFA69E"@,
            highlight_not_focused_fg: "#002626"@,
            highlight_not_focused_bg: "#FCF1D5"@,
            highlight_line_number_fg: "#002626"@,
        }
    }

    /// The colours of a highlighted row, text first and background second,
    /// in a pane that has the focus or in one that has not.
    pub open spec fn highlight(self, focused: bool) -> (Seq<char>, Seq<char>) {
        if focused {
            (self.highlight_fg, self.highlight_bg)
        } else {
            (self.highlight_not_focused_fg, self.highlight_not_focused_bg)
        }
    }
}

impl Clone for Theme {
    fn clone(&self) -> (copy: Self)
        ensures
            copy@ == self@,
    {
        Theme {
            background: self.background.clone(),
            foreground: self.foreground.clone(),
            accent: self.accent.clone(),
            border: self.border.clone(),
            highlight_bg: self.highlight_bg.clone(),
            highlight_fg: self.highlight_fg.clone(),
            border_accent: self.border_accent.clone(),
            highlight_not_focused_fg: self.highlight_not_focused_fg.clone(),
            highlight_not_focused_bg: self.highlight_not_focused_bg.clone(),
            highlight_line_number_fg: self.highlight_line_number_fg.clone(),
        }
    }
}

impl Theme {
    /// The built-in colours.
    pub fn default() -> (theme: Theme)
        ensures
            theme@ == ThemeView::standard(),
    {
        Theme {
            background: String::from_str("#002626"),
            foreground: String::from_str("#FCF1D5"),
            accent: String::from_str("#FFA69E"),
            border: String::from_str("#FCF1D5"),
            highlight_bg: String::from_str("#FCF1D5"),
            highlight_fg: String::from_str("#002626"),
            border_accent: String::from_str("#FFA69E"),
            highlight_not_focused_fg: String::from_str("#002626"),
            highlight_not_focused_bg: String::from_str("#FCF1D5"),
            highlight_line_number_fg: String::from_str("#002626"),
        }
    }

    /// The colour codes of a highlighted row, text first and background
    /// second: one pair for the pane that has the focus, another for the
    /// panes that have not.
    pub fn highlight(&self, focused: bool) -> (colours: (&str, &str))
        ensures
            (colours.0@, colours.1@) == self@.highlight(focused),
    {
        if focused {
            (self.highlight_fg.as_str(), self.highlight_bg.as_str())
        } else {
            (self.highlight_not_focused_fg.as_str(), self.highlight_not_focused_bg.as_str())
        }
    }

    /// The colour code of the number shown beside the selected row.
    pub fn line_number(&self) -> (colour: &str)
        ensures
            colour@ == self@.highlight_line_number_fg,
    {
        self.highlight_line_number_fg.as_str()
    }
}

} // verus!
