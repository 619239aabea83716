//! JSON documents, as `serde_json` reads and writes them.
//!
//! Parsing and rendering are `serde_json`'s work. This module gives its
//! `Value` a mathematical model, [`Doc`], and states what each call does in
//! terms of that model. Those statements are taken on trust.

use vstd::prelude::*;

verus! {

/// A JSON document. Object members keep the order in which they were written.
pub enum Doc {
    Null,
    Bool(bool),
    /// A number, by the text that stands for it.
    Number(Seq<char>),
    Text(Seq<char>),
    List(Seq<Doc>),
    Object(Seq<(Seq<char>, Doc)>),
}

#[verifier::external_type_specification]
#[verifier::external_body]
pub struct ExValue(serde_json::Value);

#[verifier::external_type_specification]
#[verifier::external_body]
pub struct ExError(serde_json::Error);

/// The document that a `serde_json::Value` holds.
pub uninterp spec fn doc_of(value: serde_json::Value) -> Doc;

/// The document that `serde_json` reads from a text, if it reads one.
pub uninterp spec fn parsed(text: Seq<char>) -> Option<Doc>;

/// The compact JSON text of a document.
pub uninterp spec fn rendered(doc: Doc) -> Seq<char>;

impl Doc {
    /// The member of an object with the given key, if there is one.
    pub open spec fn member(self, key: Seq<char>) -> Option<Doc> {
        match self {
            Doc::Object(fields) => find_member(fields, key),
            _ => None,
        }
    }

    /// The text of a string document.
    pub open spec fn text(self) -> Option<Seq<char>> {
        match self {
            Doc::Text(s) => Some(s),
            _ => None,
        }
    }

    /// The items of an array document.
    pub open spec fn items(self) -> Option<Seq<Doc>> {
        match self {
            Doc::List(items) => Some(items),
            _ => None,
        }
    }
}

/// The value of the first field with the given key.
pub open spec fn find_member(fields: Seq<(Seq<char>, Doc)>, key: Seq<char>) -> Option<Doc>
    decreases fields.len(),
{
    if fields.len() == 0 {
        None
    } else if fields[0].0 == key {
        Some(fields[0].1)
    } else {
        find_member(fields.subrange(1, fields.len() as int), key)
    }
}

/// Whether no two fields share a key.
pub open spec fn distinct_keys(fields: Seq<(Seq<char>, Doc)>) -> bool {
    forall|i: int, j: int|
        0 <= i < j < fields.len() ==> (#[trigger] fields[i]).0 != (#[trigger] fields[j]).0
}

/// `serde_json::from_str` at `Value`: whether a text is read depends on the
/// text alone, and the value then holds the document that was read.
#[verifier::external_body]
pub(crate) fn parse(text: &str) -> (r: Result<serde_json::Value, serde_json::Error>)
    ensures
        match r {
            Ok(value) => parsed(text@) == Some(doc_of(value)),
            Err(_) => parsed(text@) is None,
        },
{
    serde_json::from_str::<serde_json::Value>(text)
}

/// `Value::get` with a string key: the member of that name when the value is
/// an object that has one, and nothing otherwise.
#[verifier::external_body]
pub(crate) fn member<'a>(value: &'a serde_json::Value, key: &str) -> (r: Option<&'a serde_json::Value>)
    ensures
        match r {
            Some(m) => doc_of(*value).member(key@) == Some(doc_of(*m)),
            None => doc_of(*value).member(key@) is None,
        },
{
    value.get(key)
}

/// `Value::as_str`: the text when the value is a string, nothing otherwise.
#[verifier::external_body]
pub(crate) fn as_text<'a>(value: &'a serde_json::Value) -> (r: Option<&'a str>)
    ensures
        match r {
            Some(s) => doc_of(*value).text() == Some(s@),
            None => doc_of(*value).text() is None,
        },
{
    value.as_str()
}

/// `Value::as_array`: the items when the value is an array, nothing otherwise.
#[verifier::external_body]
pub(crate) fn as_items<'a>(value: &'a serde_json::Value) -> (r: Option<&'a Vec<serde_json::Value>>)
    ensures
        match r {
            Some(items) => doc_of(*value).items() == Some(items@.map_values(|v: serde_json::Value| doc_of(v))),
            None => doc_of(*value).items() is None,
        },
{
    value.as_array()
}

/// `Value::String`: the string value of a text.
#[verifier::external_body]
pub(crate) fn text_value(text: String) -> (r: serde_json::Value)
    ensures
        doc_of(r) == Doc::Text(text@),
{
    serde_json::Value::String(text)
}

/// `Value::Array`: the array value of the given items, in their order.
#[verifier::external_body]
pub(crate) fn list_value(items: Vec<serde_json::Value>) -> (r: serde_json::Value)
    ensures
        doc_of(r) == Doc::List(items@.map_values(|v: serde_json::Value| doc_of(v))),
{
    serde_json::Value::Array(items)
}

/// `Value::Object` over a `Map` collected from the fields: with keys that
/// differ, the object holds the fields in the order given. This rests on
/// `serde_json` being built to keep the order of insertion.
#[verifier::external_body]
pub(crate) fn object_value(fields: Vec<(String, serde_json::Value)>) -> (r: serde_json::Value)
    requires
        distinct_keys(fields@.map_values(|f: (String, serde_json::Value)| (f.0@, doc_of(f.1)))),
    ensures
        doc_of(r) == Doc::Object(
            fields@.map_values(|f: (String, serde_json::Value)| (f.0@, doc_of(f.1))),
        ),
{
    serde_json::Value::Object(fields.into_iter().collect())
}

/// `Value`'s `Display`, through `to_string`: the compact JSON text of the
/// document that the value holds.
#[verifier::external_body]
pub(crate) fn render(value: &serde_json::Value) -> (r: String)
    ensures
        r@ == rendered(doc_of(*value)),
{
    value.to_string()
}

} // verus!
