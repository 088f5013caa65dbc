//! Project scaffolding: a typed option model, the editor state machines that
//! change it, and the decisions of the template application engine.

pub mod errors;
pub mod text;
pub mod float_literal;
pub mod decimal;
pub mod pattern;
pub mod option;
pub mod option_set;
pub mod config;
pub mod editor;
pub mod template;
