//! Records kept by the storage and the settings that locate it.

pub mod config;
pub mod models;
pub mod ops;
pub mod store;
