//! The state of the interpreter and the dispatcher that drives it.

pub mod completion;
pub mod config;
pub mod dispatcher;
pub mod types;
pub mod variables;
