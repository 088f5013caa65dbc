//! The interactive editor: one state machine per field, and the list that holds them.

pub mod buffer;
pub mod field;
pub mod menu;
