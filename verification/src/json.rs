//! JSON documents: what a `serde_json::Value` holds, and how it is read.

use serde_json::Value;
use vstd::prelude::*;

verus! {

/// What a `serde_json::Value` holds.
///
/// A number is told apart as `serde_json` tells it apart: an integer that fits `u64`, a
/// negative integer that fits `i64`, or a float, which stands here as its decimal text.
/// The entries of an object come in the order in which they were put in, each key once.
pub enum Json {
    Null,
    Bool(bool),
    Unsigned(u64),
    Negative(i64),
    Float(Seq<char>),
    Text(Seq<char>),
    Array(Seq<Json>),
    Object(Seq<(Seq<char>, Json)>),
}

/// `serde_json::Value`, carried as it is; `json_of` says what is in one.
#[verifier::external_type_specification]
#[verifier::external_body]
pub struct ExValue(serde_json::Value);

/// The document that a `serde_json::Value` holds.
pub uninterp spec fn json_of(value: serde_json::Value) -> Json;

/// The value of `key` among the entries of an object.
pub open spec fn entry(entries: Seq<(Seq<char>, Json)>, key: Seq<char>) -> Option<Json>
    decreases entries.len(),
{
    if entries.len() == 0 {
        None
    } else if entries.last().0 == key {
        Some(entries.last().1)
    } else {
        entry(entries.drop_last(), key)
    }
}

/// The value of `key` in a document: none where the document is no object.
pub open spec fn field(doc: Json, key: Seq<char>) -> Option<Json> {
    match doc {
        Json::Object(entries) => entry(entries, key),
        _ => None,
    }
}

/// The text under `key`, where there is one and it is a string.
pub open spec fn text_field(doc: Json, key: Seq<char>) -> Option<Seq<char>> {
    match field(doc, key) {
        Some(Json::Text(text)) => Some(text),
        _ => None,
    }
}

/// The flag under `key`, or `default` where there is no boolean.
pub open spec fn bool_field(doc: Json, key: Seq<char>, default: bool) -> bool {
    match field(doc, key) {
        Some(Json::Bool(flag)) => flag,
        _ => default,
    }
}

/// The number under `key`, or `default` where there is no integer that fits `u64`.
pub open spec fn u64_field(doc: Json, key: Seq<char>, default: u64) -> u64 {
    match field(doc, key) {
        Some(Json::Unsigned(number)) => number,
        _ => default,
    }
}

/// `Value::get` with a string key: the value stored under that key, none where the key is
/// not there or the value is no object.
#[verifier::external_body]
fn get_field<'a>(value: &'a Value, key: &str) -> (found: Option<&'a Value>)
    ensures
        match found {
            Some(inner) => field(json_of(*value), key@) == Some(json_of(*inner)),
            None => field(json_of(*value), key@) is None,
        },
{
    value.get(key)
}

/// `Value::as_str`: the text of a string, none of any other value.
pub assume_specification[ Value::as_str ](value: &Value) -> (text: Option<&str>)
    ensures
        match text {
            Some(text) => json_of(*value) == Json::Text(text@),
            None => !(json_of(*value) is Text),
        },
;

/// `Value::as_bool`: the flag of a boolean, none of any other value.
pub assume_specification[ Value::as_bool ](value: &Value) -> (flag: Option<bool>)
    ensures
        match flag {
            Some(flag) => json_of(*value) == Json::Bool(flag),
            None => !(json_of(*value) is Bool),
        },
;

/// `Value::as_u64`: the number, where the value is an integer that fits `u64`.
pub assume_specification[ Value::as_u64 ](value: &Value) -> (number: Option<u64>)
    ensures
        match number {
            Some(number) => json_of(*value) == Json::Unsigned(number),
            None => !(json_of(*value) is Unsigned),
        },
;

/// The text under `key`, where there is one and it is a string.
pub fn optional_str<'a>(input: &'a Value, key: &str) -> (text: Option<&'a str>)
    ensures
        match text {
            Some(text) => text_field(json_of(*input), key@) == Some(text@),
            None => text_field(json_of(*input), key@) is None,
        },
{
    match get_field(input, key) {
        Some(value) => value.as_str(),
        None => None,
    }
}

/// A copy of the value under `key`, where there is one.
pub fn optional_json(input: &Value, key: &str) -> (found: Option<Value>)
    ensures
        match found {
            Some(value) => field(json_of(*input), key@) == Some(json_of(value)),
            None => field(json_of(*input), key@) is None,
        },
{
    match get_field(input, key) {
        Some(value) => Some(value.clone()),
        None => None,
    }
}

/// The flag under `key`, or `default` where there is no boolean.
pub fn optional_bool(input: &Value, key: &str, default: bool) -> (flag: bool)
    ensures
        flag == bool_field(json_of(*input), key@, default),
{
    match get_field(input, key) {
        Some(value) => match value.as_bool() {
            Some(flag) => flag,
            None => default,
        },
        None => default,
    }
}

/// The number under `key`, or `default` where there is no integer that fits `u64`.
pub fn optional_u64(input: &Value, key: &str, default: u64) -> (number: u64)
    ensures
        number == u64_field(json_of(*input), key@, default),
{
    match get_field(input, key) {
        Some(value) => match value.as_u64() {
            Some(number) => number,
            None => default,
        },
        None => default,
    }
}

} // verus!
