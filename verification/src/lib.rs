//! Interaction engine of a keyboard-driven terminal to-do manager.

pub mod app;
pub mod db;
pub mod ui;
