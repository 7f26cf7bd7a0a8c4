//! The parts of the interface and the state each one keeps.

pub mod database;
pub mod input_states;
pub mod item_lines;
pub mod items;
pub mod lists;
pub mod popups;

pub use database::DatabaseComponent;
pub use input_states::{InputState, NewListState};
pub use items::ItemsComponent;
pub use lists::ListsComponent;
pub use popups::{
    AddDBPopUp, AddItemPopUp, AddListPopUp, DeleteDatabaseConfirmationPopUp,
    DeleteListConfirmationPopUp, HelpPopUp, LeaderHelpPopUp, ModifyDBPopUp, ModifyItemPopUp,
    ModifyListPopUp,
};
