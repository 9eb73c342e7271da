//! The remapping engine's side: the rules compiled from the bindings, and the
//! engine's document that holds them.

pub mod backup;
pub mod document;
pub mod generator;
