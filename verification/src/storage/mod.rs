//! The text in which the variable store is kept on disk.
//!
//! The store is written as one JSON object with a string for every
//! binding. Reading and writing the file is left to the caller.

use crate::assoc::to_map;
use crate::engine::types::VariableStore;
use crate::engine::variables::VariableManager;
use crate::json::{json_parse_strings, json_pretty_strings, parse_strings, pretty_strings};
use vstd::prelude::*;

verus! {

/// Turns a snapshot of the variable store into text and back.
#[derive(Debug, Clone, Copy)]
pub struct MemoryStorage;

/// The model of a text that was written, or of the message of a failure.
pub open spec fn text_view(written: Result<String, String>) -> Result<Seq<char>, Seq<char>> {
    match written {
        Ok(text) => Ok(text@),
        Err(message) => Err(message@),
    }
}

/// The model of a snapshot that was read, or of the message of a failure.
pub open spec fn snapshot_view(read: Result<VariableStore, String>) -> Result<
    Seq<(Seq<char>, Seq<char>)>,
    Seq<char>,
> {
    match read {
        Ok(store) => Ok(store.deep_view()),
        Err(message) => Err(message@),
    }
}

impl MemoryStorage {
    /// The text for the bindings of `store`. It depends on the map that the
    /// snapshot describes, not on the order of its pairs.
    pub fn encode(store: &VariableStore) -> (written: Result<String, String>)
        ensures
            text_view(written) == json_pretty_strings(to_map(store.deep_view())),
    {
        let bindings = VariableManager::from_snapshot(store).get_all();
        pretty_strings(&bindings)
    }

    /// The bindings that `text` holds, or the reason why it holds none.
    pub fn decode(text: &str) -> (read: Result<VariableStore, String>)
        ensures
            snapshot_view(read) == json_parse_strings(text@),
    {
        parse_strings(text)
    }
}

} // verus!
