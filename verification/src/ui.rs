//! State behind the visible parts of the interface.

pub mod components;
pub mod cursor;
pub mod layout;
pub mod selection;
pub mod theme;
