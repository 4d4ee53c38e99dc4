//! The pipeline dispatch engine of an interactive command interpreter.
//!
//! A line of text is split into pipeline stages, `{name}` references in its
//! arguments are replaced from a variable store, every stage is looked up in
//! a registry of commands and run in order, and the structured payload of one
//! stage is handed to the next. The first stage that fails ends the
//! pipeline.
//!
//! The library does no input or output. A command that needs the file
//! system or the clock hands a request to the caller, the host, and the
//! dispatcher takes the pipeline up again with the result.
//!
//! - [`parser`]: the tokenizer, the splitting into stages, and the variable
//!   resolver.
//! - [`engine`]: the variable store, the configuration, the results, and the
//!   dispatcher.
//! - [`commands`]: the commands and their registry.
//! - [`storage`]: the text in which the variable store is saved.
//! - [`json`]: the payloads, and what is taken on trust about `serde_json`.
//! - [`text`] and [`assoc`]: helpers on strings and on lists of pairs.
//!
//! Every function states what it returns over a mathematical model of its
//! arguments, and the verifier proves that it does. The few calls into other
//! crates and into parts of the standard library that the verifier does not
//! know are marked as trusted where they stand.

pub mod assoc;
pub mod commands;
pub mod engine;
pub mod json;
pub mod parser;
pub mod storage;
pub mod text;
