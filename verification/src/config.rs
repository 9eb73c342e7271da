//! The persisted data: settings, the table of bindings, the cached applications.

pub mod model;
pub mod persistence;
