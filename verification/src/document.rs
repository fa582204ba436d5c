//! Putting JSON documents together, and their text.

use crate::error::ToolError;
use crate::json::{json_of, Json};
use crate::text::{text_opt, texts};
use serde_json::Value;
use vstd::prelude::*;

verus! {

/// The entries that a list of keys and values makes.
pub open spec fn entries_of(list: Seq<(String, Value)>) -> Seq<(Seq<char>, Json)> {
    list.map_values(|item: (String, Value)| (item.0@, json_of(item.1)))
}

/// Whether `key` is the key of one of the entries.
pub open spec fn has_key(entries: Seq<(Seq<char>, Json)>, key: Seq<char>) -> bool {
    exists|i: int| 0 <= i < entries.len() && #[trigger] entries[i].0 == key
}

/// Whether no two entries have the same key.
pub open spec fn distinct_keys(entries: Seq<(Seq<char>, Json)>) -> bool {
    forall|i: int, j: int|
        0 <= i < j < entries.len() ==> #[trigger] entries[i].0 != #[trigger] entries[j].0
}

/// The documents of a list of values.
pub open spec fn items_of(list: Seq<Value>) -> Seq<Json> {
    list.map_values(|item: Value| json_of(item))
}

/// A list of texts as a JSON array.
pub open spec fn text_array(list: Seq<Seq<char>>) -> Json {
    Json::Array(list.map_values(|text: Seq<char>| Json::Text(text)))
}

/// A text that may be missing: a missing one is `null`.
pub open spec fn text_or_null(text: Option<Seq<char>>) -> Json {
    match text {
        Some(text) => Json::Text(text),
        None => Json::Null,
    }
}

/// A number that may be missing: a missing one is `null`.
pub open spec fn number_or_null(number: Option<u64>) -> Json {
    match number {
        Some(number) => Json::Unsigned(number),
        None => Json::Null,
    }
}

/// A document that may be missing: a missing one is `null`.
pub open spec fn json_or_null(doc: Option<Json>) -> Json {
    match doc {
        Some(doc) => doc,
        None => Json::Null,
    }
}

/// What a `serde_json::Value` that may be missing holds.
pub open spec fn json_opt(value: Option<Value>) -> Option<Json> {
    match value {
        Some(value) => Some(json_of(value)),
        None => None,
    }
}

/// The text in which `serde_json::to_string_pretty` writes a document down.
pub uninterp spec fn pretty_text(doc: Json) -> Seq<char>;

/// `serde_json::Error`, carried to where its text is taken.
#[verifier::external_type_specification]
#[verifier::external_body]
pub struct ExJsonError(serde_json::Error);

/// `serde_json::to_string_pretty` of a value: its text, `pretty_text`. The writing of a
/// `Value` meets none of the reasons for which writing can fail: its keys are strings, its
/// numbers are finite, and the text goes to memory.
#[verifier::external_body]
fn write_pretty(value: &Value) -> (text: Result<String, serde_json::Error>)
    ensures
        text matches Ok(text) && text@ == pretty_text(json_of(*value)),
{
    serde_json::to_string_pretty(value)
}

/// `Value::clone`: a value that holds the same document.
pub assume_specification[ <Value as Clone>::clone ](value: &Value) -> (copy: Value)
    ensures
        json_of(copy) == json_of(*value),
;

/// `Value::Null`: the document `null`.
#[verifier::external_body]
pub(crate) fn null_value() -> (value: Value)
    ensures
        json_of(value) == Json::Null,
{
    Value::Null
}

/// `Value::Bool`: the flag as a document.
#[verifier::external_body]
pub(crate) fn bool_value(flag: bool) -> (value: Value)
    ensures
        json_of(value) == Json::Bool(flag),
{
    Value::Bool(flag)
}

/// `Value::from` of a `u64`: the number as a document.
#[verifier::external_body]
pub(crate) fn u64_value(number: u64) -> (value: Value)
    ensures
        json_of(value) == Json::Unsigned(number),
{
    Value::from(number)
}

/// `Value::String`: the text as a document.
#[verifier::external_body]
fn string_value(text: String) -> (value: Value)
    ensures
        json_of(value) == Json::Text(text@),
{
    Value::String(text)
}

/// `Value::Array`: the values, in their order, as one document.
#[verifier::external_body]
pub(crate) fn array_value(items: Vec<Value>) -> (value: Value)
    ensures
        json_of(value) == Json::Array(items_of(items@)),
{
    Value::Array(items)
}

/// `serde_json::Map::from_iter`, as `Value::Object`: the entries, in their order, as one
/// document. Which of two entries with one key would stay is left out.
#[verifier::external_body]
fn object_value(list: Vec<(String, Value)>) -> (value: Value)
    requires
        distinct_keys(entries_of(list@)),
    ensures
        json_of(value) == Json::Object(entries_of(list@)),
{
    Value::Object(serde_json::Map::from_iter(list))
}

/// A text as a document.
pub(crate) fn text_value(text: &str) -> (value: Value)
    ensures
        json_of(value) == Json::Text(text@),
{
    string_value(text.to_owned())
}

/// A text that may be missing, as a document.
pub(crate) fn text_or_null_value(text: &Option<String>) -> (value: Value)
    ensures
        json_of(value) == text_or_null(text_opt(*text)),
{
    match text {
        Some(text) => text_value(text),
        None => null_value(),
    }
}

/// A number that may be missing, as a document.
pub(crate) fn number_or_null_value(number: Option<u64>) -> (value: Value)
    ensures
        json_of(value) == number_or_null(number),
{
    match number {
        Some(number) => u64_value(number),
        None => null_value(),
    }
}

/// A document that may be missing, as a document.
pub(crate) fn json_or_null_value(value: &Option<Value>) -> (doc: Value)
    ensures
        json_of(doc) == json_or_null(json_opt(*value)),
{
    match value {
        Some(value) => value.clone(),
        None => null_value(),
    }
}

/// A list of texts as a document.
pub(crate) fn text_array_value(list: &Vec<String>) -> (value: Value)
    ensures
        json_of(value) == text_array(texts(list@)),
{
    let mut items: Vec<Value> = Vec::new();
    let mut i: usize = 0;
    while i < list.len()
        invariant
            i <= list.len(),
            items.len() == i,
            forall|j: int| 0 <= j < i ==> json_of(#[trigger] items[j]) == Json::Text(list[j]@),
        decreases list.len() - i,
    {
        items.push(text_value(&list[i]));
        i += 1;
    }
    assert(items_of(items@) =~= texts(list@).map_values(|text: Seq<char>| Json::Text(text)));
    array_value(items)
}

/// The entries of an object that is being put together.
pub(crate) struct Fields {
    list: Vec<(String, Value)>,
}

impl View for Fields {
    type V = Seq<(Seq<char>, Json)>;

    closed spec fn view(&self) -> Seq<(Seq<char>, Json)> {
        entries_of(self.list@)
    }
}

impl Fields {
    /// The keys of the entries.
    pub(crate) closed spec fn keys(&self) -> Set<Seq<char>> {
        Set::new(|key: Seq<char>| has_key(self@, key))
    }

    /// No two entries have the same key.
    pub(crate) closed spec fn wf(&self) -> bool {
        distinct_keys(self@)
    }

    pub(crate) fn new() -> (fields: Fields)
        ensures
            fields.wf(),
            fields@ == Seq::<(Seq<char>, Json)>::empty(),
            fields.keys() == Set::<Seq<char>>::empty(),
    {
        let fields = Fields { list: Vec::new() };
        assert(fields@ =~= Seq::<(Seq<char>, Json)>::empty());
        assert(fields.keys() =~= Set::<Seq<char>>::empty());
        fields
    }

    /// The entries with one more at the end.
    pub(crate) fn with(self, key: &str, value: Value) -> (fields: Fields)
        requires
            self.wf(),
            !self.keys().contains(key@),
        ensures
            fields.wf(),
            fields@ == self@.push((key@, json_of(value))),
            fields.keys() == self.keys().insert(key@),
    {
        let mut list = self.list;
        list.push((key.to_owned(), value));
        let fields = Fields { list };
        assert(fields@ =~= self@.push((key@, json_of(value))));
        proof {
            assert forall|other: Seq<char>| #[trigger]
                fields.keys().contains(other) <==> self.keys().insert(key@).contains(other) by {
                if has_key(self@, other) {
                    let i = choose|i: int| 0 <= i < self@.len() && #[trigger] self@[i].0 == other;
                    assert(fields@[i].0 == other);
                }
                if other == key@ {
                    assert(fields@[self@.len() as int].0 == other);
                }
                if has_key(fields@, other) {
                    let i = choose|i: int|
                        0 <= i < fields@.len() && #[trigger] fields@[i].0 == other;
                    if i < self@.len() {
                        assert(self@[i].0 == other);
                    }
                }
            }
            assert(fields.keys() =~= self.keys().insert(key@));
            assert forall|i: int, j: int| 0 <= i < j < fields@.len() implies #[trigger] fields@[i].0
                != #[trigger] fields@[j].0 by {
                assert(self@[i].0 == fields@[i].0);
                assert(has_key(self@, self@[i].0));
            }
        }
        fields
    }

    /// The object with these entries.
    pub(crate) fn object(self) -> (value: Value)
        requires
            self.wf(),
        ensures
            json_of(value) == Json::Object(self@),
    {
        object_value(self.list)
    }
}

/// What the tool answers with: a text, and a document about it for whoever called.
#[derive(Debug)]
pub struct ToolResult {
    pub content: String,
    pub metadata: Option<Value>,
}

impl ToolResult {
    /// The answer whose content is the text of `doc`.
    pub fn json(doc: &Value) -> (result: Result<ToolResult, ToolError>)
        ensures
            result matches Ok(answer) && answer.content@ == pretty_text(json_of(*doc))
                && answer.metadata is None,
    {
        match write_pretty(doc) {
            Ok(content) => Ok(ToolResult { content, metadata: None }),
            Err(error) => Err(ToolError::execution_failed(error.to_string())),
        }
    }
}

} // verus!
