//! Hotkey bindings for a key-remapping engine: the table of bindings, the
//! editor that changes it, the cache of discovered applications, and the
//! compiler that turns the table into the engine's rules.

pub mod app;
pub mod app_discovery;
pub mod config;
pub mod editor;
pub mod input;
pub mod karabiner;
pub mod keycodes;
pub mod sorting;
pub mod suggest;
pub mod text;
pub mod validation;
