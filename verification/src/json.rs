//! Structured payloads.
//!
//! A payload is a JSON value of `serde_json`. Verified code cannot look
//! inside such a value, so this module gives it a mathematical model,
//! [`JsonData`], and states every call into `serde_json` over that model.
//! Nothing in this module is proved: each item says what it takes on trust.

use crate::assoc::{distinct_keys, to_map};
use vstd::prelude::*;

verus! {

/// The number inside a JSON value, as `serde_json` holds it: a non-negative
/// integer, a negative integer, or a double given by its bits.
pub enum JsonNumber {
    Unsigned(u64),
    Negative(i64),
    Double(u64),
}

/// The model of a JSON value.
pub enum JsonData {
    Null,
    Bool(bool),
    Number(JsonNumber),
    Text(Seq<char>),
    Array(Seq<JsonData>),
    Object(Map<Seq<char>, JsonData>),
}

/// Trusted: makes the type `serde_json::Value` known to the verifier, as an
/// opaque value.
#[verifier::external_type_specification]
#[verifier::external_body]
pub struct ExValue(serde_json::Value);

/// What a `serde_json::Value` holds: its variant and, recursively, its
/// contents. The keys of an object are unique, so an object is a map.
pub uninterp spec fn json_model(value: serde_json::Value) -> JsonData;

/// The compact JSON text that `serde_json` writes for a value, as
/// `Value::to_string` returns it. An object is written in the order of its
/// keys, so the text depends on the model alone.
pub uninterp spec fn json_text(data: JsonData) -> Seq<char>;

/// What `serde_json::from_str` makes of a text that is to be read as a
/// `Value`: the value's model, or the message of the error.
pub uninterp spec fn json_parse(text: Seq<char>) -> Result<JsonData, Seq<char>>;

/// What `serde_json::to_string_pretty` writes for a map from strings to
/// strings (indented, the keys in order), or the message of its error.
pub uninterp spec fn json_pretty_strings(entries: Map<Seq<char>, Seq<char>>) -> Result<
    Seq<char>,
    Seq<char>,
>;

/// What `serde_json::from_str` makes of a text that is to be read as a map
/// from strings to strings: the pairs in the order of their keys, or the
/// message of the error.
pub uninterp spec fn json_parse_strings(text: Seq<char>) -> Result<
    Seq<(Seq<char>, Seq<char>)>,
    Seq<char>,
>;

/// The fields of an object as pairs of a name and the model of a value.
pub open spec fn field_pairs(fields: Seq<(String, serde_json::Value)>) -> Seq<
    (Seq<char>, JsonData),
> {
    Seq::new(fields.len(), |i: int| (fields[i].0@, json_model(fields[i].1)))
}

/// The number of items of an array; nothing for any other value.
pub open spec fn array_length(data: JsonData) -> Option<nat> {
    match data {
        JsonData::Array(items) => Some(items.len()),
        _ => None,
    }
}

/// The JSON string with the characters of `s`.
///
/// Trusted: `Value::from` for a `&str` builds `Value::String` from a copy of
/// the text.
#[verifier::external_body]
pub(crate) fn text_value(s: &str) -> (value: serde_json::Value)
    ensures
        json_model(value) == JsonData::Text(s@),
{
    serde_json::Value::from(s)
}

/// The JSON number `n`.
///
/// Trusted: `Value::from` for a `u64` builds `Value::Number` with the
/// non-negative integer `n`.
#[verifier::external_body]
pub(crate) fn number_value(n: u64) -> (value: serde_json::Value)
    ensures
        json_model(value) == JsonData::Number(JsonNumber::Unsigned(n)),
{
    serde_json::Value::from(n)
}

/// The JSON object with the given fields.
///
/// Trusted: `Value::from_iter` over pairs of a key and a value builds
/// `Value::Object` with one entry for each pair. The names must differ, as
/// the documentation leaves open which of two equal keys stays.
#[verifier::external_body]
pub(crate) fn object_value(fields: Vec<(String, serde_json::Value)>) -> (value: serde_json::Value)
    requires
        distinct_keys(field_pairs(fields@)),
    ensures
        json_model(value) == JsonData::Object(to_map(field_pairs(fields@))),
{
    fields.into_iter().collect()
}

/// The number of items of `value` where it is an array.
///
/// Trusted: `Value::as_array` returns the vector of items of a
/// `Value::Array` and nothing for the other variants; the length is that of
/// the vector.
#[verifier::external_body]
pub(crate) fn array_len(value: &serde_json::Value) -> (len: Option<usize>)
    ensures
        match len {
            Some(n) => array_length(json_model(*value)) == Some(n as nat),
            None => array_length(json_model(*value)) is None,
        },
{
    match value.as_array() {
        Some(items) => Some(items.len()),
        None => None,
    }
}

/// The compact JSON text of `value`.
///
/// Trusted: `Value::to_string` writes the value as compact JSON. Its result
/// is not described here but named, by `json_text`.
#[verifier::external_body]
pub(crate) fn to_text(value: &serde_json::Value) -> (text: String)
    ensures
        text@ == json_text(json_model(*value)),
{
    value.to_string()
}

/// Reads `text` as a JSON value.
///
/// Trusted: `serde_json::from_str` returns the value that the text
/// describes, or an error whose message is handed back as a string. Which
/// texts are accepted is not described here but named, by `json_parse`.
#[verifier::external_body]
pub(crate) fn parse(text: &str) -> (parsed: Result<serde_json::Value, String>)
    ensures
        match parsed {
            Ok(value) => json_parse(text@) == Ok::<JsonData, Seq<char>>(json_model(value)),
            Err(message) => json_parse(text@) == Err::<JsonData, Seq<char>>(message@),
        },
{
    serde_json::from_str::<serde_json::Value>(text).map_err(|e| e.to_string())
}

/// Writes a list of pairs of strings as an indented JSON object.
///
/// Trusted: `serde_json::to_string_pretty` writes a map from strings to
/// strings as a JSON object. The pairs are handed over as an ordered map
/// with one entry for each; their names must differ. The result is named,
/// by `json_pretty_strings`.
#[verifier::external_body]
pub(crate) fn pretty_strings(pairs: &Vec<(String, String)>) -> (written: Result<String, String>)
    requires
        distinct_keys(pairs.deep_view()),
    ensures
        match written {
            Ok(text) => json_pretty_strings(to_map(pairs.deep_view())) == Ok::<
                Seq<char>,
                Seq<char>,
            >(text@),
            Err(message) => json_pretty_strings(to_map(pairs.deep_view())) == Err::<
                Seq<char>,
                Seq<char>,
            >(message@),
        },
{
    let mut map: std::collections::BTreeMap<&str, &str> = std::collections::BTreeMap::new();
    for pair in pairs.iter() {
        map.insert(pair.0.as_str(), pair.1.as_str());
    }
    serde_json::to_string_pretty(&map).map_err(|e| e.to_string())
}

/// Reads `text` as a JSON object whose values are strings.
///
/// Trusted: `serde_json::from_str` returns the map that the text describes,
/// or an error whose message is handed back as a string. The map is an
/// ordered one and is handed back as the list of its pairs. The result is
/// named, by `json_parse_strings`.
#[verifier::external_body]
pub(crate) fn parse_strings(text: &str) -> (parsed: Result<Vec<(String, String)>, String>)
    ensures
        match parsed {
            Ok(pairs) => json_parse_strings(text@) == Ok::<
                Seq<(Seq<char>, Seq<char>)>,
                Seq<char>,
            >(pairs.deep_view()),
            Err(message) => json_parse_strings(text@) == Err::<
                Seq<(Seq<char>, Seq<char>)>,
                Seq<char>,
            >(message@),
        },
{
    match serde_json::from_str::<std::collections::BTreeMap<String, String>>(text) {
        Ok(map) => Ok(map.into_iter().collect()),
        Err(e) => Err(e.to_string()),
    }
}

} // verus!
