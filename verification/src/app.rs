//! The state of the running interface and what each key does to it.

pub mod events;
pub mod keys;
pub mod state;
