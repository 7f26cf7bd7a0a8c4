//! The dialogs and where each one is drawn.

use crate::ui::layout::{share, Area};
use vstd::prelude::*;

verus! {

/// The dialog for naming a new list.
pub struct AddListPopUp;

/// The dialog for renaming a list.
pub struct ModifyListPopUp;

/// The dialog for naming a new item.
pub struct AddItemPopUp;

/// The dialog for renaming an item.
pub struct ModifyItemPopUp;

/// The dialog for naming a new database.
pub struct AddDBPopUp;

/// The dialog for renaming a database.
pub struct ModifyDBPopUp;

/// The help.
pub struct HelpPopUp;

/// The menu that the leader key opens.
pub struct LeaderHelpPopUp;

/// The question whether a list shall be deleted.
pub struct DeleteListConfirmationPopUp;

/// The question whether a database shall be deleted.
pub struct DeleteDatabaseConfirmationPopUp;

/// Rows that the frame and the padding of a dialog take.
pub const FRAME_ROWS: u16 = 4;

/// Rows of an entry dialog: the frame and one line of text.
pub const ENTRY_ROWS: u16 = 4;

/// Lines of text in the help.
pub const HELP_LINES: u16 = 19;

/// Lines of text in the leader menu.
pub const LEADER_LINES: u16 = 3;

/// Columns of the leader menu.
pub const LEADER_COLUMNS: u16 = 35;

/// Lines of text in a question.
pub const QUESTION_LINES: u16 = 1;

/// Where an entry dialog is drawn within the pane it belongs to: in the
/// middle, three quarters of the pane wide.
pub open spec fn entry_area(pane: Area) -> Area {
    pane.centered(share(pane.width, 3, 4), ENTRY_ROWS)
}

/// Where a question is drawn within the pane it belongs to: in the middle,
/// two thirds of the pane wide.
pub open spec fn question_area(pane: Area) -> Area {
    pane.centered(share(pane.width, 2, 3), (QUESTION_LINES + FRAME_ROWS) as u16)
}

/// Where an entry dialog is drawn within `pane`.
pub fn render_list_popup_kernel(pane: Area) -> (area: Area)
    ensures
        area == entry_area(pane),
{
    pane.center(pane.three_quarters(), ENTRY_ROWS)
}

/// Where an entry dialog for an item is drawn within `pane`.
pub fn render_item_popup_kernel(pane: Area) -> (area: Area)
    ensures
        area == entry_area(pane),
{
    pane.center(pane.three_quarters(), ENTRY_ROWS)
}

impl AddListPopUp {
    /// The title.
    pub fn title() -> (title: &'static str)
        ensures
            title@ == "Add List"@,
    {
        "Add List"
    }

    /// Where the dialog is drawn within the pane of the lists.
    pub fn area(pane: Area) -> (area: Area)
        ensures
            area == entry_area(pane),
    {
        render_list_popup_kernel(pane)
    }
}

impl ModifyListPopUp {
    /// The title.
    pub fn title() -> (title: &'static str)
        ensures
            title@ == "Modify List"@,
    {
        "Modify List"
    }

    /// Where the dialog is drawn within the pane of the lists.
    pub fn area(pane: Area) -> (area: Area)
        ensures
            area == entry_area(pane),
    {
        render_list_popup_kernel(pane)
    }
}

impl AddItemPopUp {
    /// The title.
    pub fn title() -> (title: &'static str)
        ensures
            title@ == "Add Item"@,
    {
        "Add Item"
    }

    /// Where the dialog is drawn within the pane of the items.
    pub fn area(pane: Area) -> (area: Area)
        ensures
            area == entry_area(pane),
    {
        render_item_popup_kernel(pane)
    }
}

impl ModifyItemPopUp {
    /// The title.
    pub fn title() -> (title: &'static str)
        ensures
            title@ == "Modify Item"@,
    {
        "Modify Item"
    }

    /// Where the dialog is drawn within the pane of the items.
    pub fn area(pane: Area) -> (area: Area)
        ensures
            area == entry_area(pane),
    {
        render_item_popup_kernel(pane)
    }
}

impl AddDBPopUp {
    /// The title.
    pub fn title() -> (title: &'static str)
        ensures
            title@ == "Add Database"@,
    {
        "Add Database"
    }

    /// Where the dialog is drawn: it fills the pane of the databases.
    pub fn area(pane: Area) -> (area: Area)
        ensures
            area == pane,
    {
        pane
    }
}

impl ModifyDBPopUp {
    /// The title.
    pub fn title() -> (title: &'static str)
        ensures
            title@ == "Modify Database"@,
    {
        "Modify Database"
    }

    /// Where the dialog is drawn: it fills the pane of the databases.
    pub fn area(pane: Area) -> (area: Area)
        ensures
            area == pane,
    {
        pane
    }
}

impl HelpPopUp {
    /// Where the help is drawn on the screen: in the middle, two thirds of
    /// the screen wide, as tall as its text and frame.
    pub fn area(screen: Area) -> (area: Area)
        ensures
            area == screen.centered(share(screen.width, 2, 3), (HELP_LINES + FRAME_ROWS) as u16),
    {
        screen.center(screen.two_thirds(), HELP_LINES + FRAME_ROWS)
    }
}

impl LeaderHelpPopUp {
    /// Where the menu is drawn on the screen: off the lower right corner.
    pub fn area(screen: Area) -> (area: Area)
        ensures
            area == screen.cornered(LEADER_COLUMNS, (LEADER_LINES + FRAME_ROWS) as u16),
    {
        screen.corner(LEADER_COLUMNS, LEADER_LINES + FRAME_ROWS)
    }
}

impl DeleteListConfirmationPopUp {
    /// Where the question is drawn within the pane of the lists.
    pub fn area(pane: Area) -> (area: Area)
        ensures
            area == question_area(pane),
    {
        pane.center(pane.two_thirds(), QUESTION_LINES + FRAME_ROWS)
    }
}

impl DeleteDatabaseConfirmationPopUp {
    /// Where the question is drawn within the pane of the databases.
    pub fn area(pane: Area) -> (area: Area)
        ensures
            area == question_area(pane),
    {
        pane.center(pane.two_thirds(), QUESTION_LINES + FRAME_ROWS)
    }
}

} // verus!
