//! The payloads that the commands of this library hand on: JSON objects
//! with a few named fields.

use crate::assoc::{distinct_keys, to_map};
use crate::json::{field_pairs, json_model, number_value, object_value, text_value, JsonData, JsonNumber};
use vstd::prelude::*;

verus! {

/// The model of an object with one field that holds a text.
pub open spec fn text_object(key: Seq<char>, text: Seq<char>) -> JsonData {
    JsonData::Object(to_map(seq![(key, JsonData::Text(text))]))
}

/// The model of an object with two fields that hold a text each.
pub open spec fn two_text_object(
    first_key: Seq<char>,
    first_text: Seq<char>,
    second_key: Seq<char>,
    second_text: Seq<char>,
) -> JsonData {
    JsonData::Object(
        to_map(
            seq![(first_key, JsonData::Text(first_text)), (second_key, JsonData::Text(second_text))],
        ),
    )
}

/// The model of an object with one field that holds a number.
pub open spec fn number_object(key: Seq<char>, n: u64) -> JsonData {
    JsonData::Object(to_map(seq![(key, JsonData::Number(JsonNumber::Unsigned(n)))]))
}

/// The object `{key: text}`.
pub fn single_text(key: &str, text: &str) -> (value: serde_json::Value)
    ensures
        json_model(value) == text_object(key@, text@),
{
    let mut fields: Vec<(String, serde_json::Value)> = Vec::new();
    fields.push((key.to_owned(), text_value(text)));
    assert(field_pairs(fields@) =~= seq![(key@, JsonData::Text(text@))]);
    object_value(fields)
}

/// The object `{first_key: first_text, second_key: second_text}`.
pub fn two_texts(first_key: &str, first_text: &str, second_key: &str, second_text: &str) -> (value:
    serde_json::Value)
    requires
        first_key@ != second_key@,
    ensures
        json_model(value) == two_text_object(first_key@, first_text@, second_key@, second_text@),
{
    let mut fields: Vec<(String, serde_json::Value)> = Vec::new();
    fields.push((first_key.to_owned(), text_value(first_text)));
    fields.push((second_key.to_owned(), text_value(second_text)));
    assert(field_pairs(fields@) =~= seq![
        (first_key@, JsonData::Text(first_text@)),
        (second_key@, JsonData::Text(second_text@)),
    ]);
    object_value(fields)
}

/// The object `{key: n}`.
pub fn single_number(key: &str, n: u64) -> (value: serde_json::Value)
    ensures
        json_model(value) == number_object(key@, n),
{
    let mut fields: Vec<(String, serde_json::Value)> = Vec::new();
    fields.push((key.to_owned(), number_value(n)));
    assert(field_pairs(fields@) =~= seq![(key@, JsonData::Number(JsonNumber::Unsigned(n)))]);
    object_value(fields)
}

} // verus!
