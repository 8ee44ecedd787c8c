//! JSON documents, read one level at a time.
use serde_json::Value;
use vstd::prelude::*;

use crate::text::str_equal;

verus! {

/// One JSON value. The items of an array and the member values of an object
/// are kept as their own JSON text, to be read in turn where needed.
pub enum Json {
    Null,
    Bool(bool),
    Number(String),
    Str(String),
    Array(Vec<String>),
    Object(Vec<(String, String)>),
}

/// The value that a JSON text denotes, or `None` where the text is not JSON.
pub uninterp spec fn json_of(text: Seq<char>) -> Option<Json>;

/// Relies on serde_json::from_str, which parses the text into a
/// serde_json::Value, and on its Display impl, which writes each nested value
/// back as compact JSON text that from_str reads as the same value. Object
/// members come in the order of serde_json's map.
#[verifier::external_body]
pub(crate) fn parse_json(text: &str) -> (r: Option<Json>)
    ensures
        r == json_of(text@),
{
    serde_json::from_str::<Value>(text).ok().map(|v| match v {
        Value::Null => Json::Null,
        Value::Bool(b) => Json::Bool(b),
        Value::Number(n) => Json::Number(n.to_string()),
        Value::String(s) => Json::Str(s),
        Value::Array(a) => Json::Array(a.iter().map(Value::to_string).collect()),
        Value::Object(m) => Json::Object(m.iter().map(|(k, v)| (k.clone(), v.to_string())).collect()),
    })
}

/// The value text of the first member named `key`.
pub open spec fn lookup(fields: Seq<(String, String)>, key: Seq<char>) -> Option<Seq<char>>
    decreases fields.len(),
{
    if fields.len() == 0 {
        None
    } else if fields[0].0@ == key {
        Some(fields[0].1@)
    } else {
        lookup(fields.drop_first(), key)
    }
}

/// The text of member `key`, where the document is an object that has it.
pub open spec fn member(doc: Option<Json>, key: Seq<char>) -> Option<Seq<char>> {
    match doc {
        Some(Json::Object(fields)) => lookup(fields@, key),
        _ => None,
    }
}

/// The string that a JSON text denotes, where it denotes one.
pub open spec fn json_string(text: Seq<char>) -> Option<Seq<char>> {
    match json_of(text) {
        Some(Json::Str(s)) => Some(s@),
        _ => None,
    }
}

/// The string that a JSON text denotes, or the empty string.
pub open spec fn string_or_empty(text: Seq<char>) -> Seq<char> {
    match json_string(text) {
        Some(s) => s,
        None => Seq::empty(),
    }
}

/// The value text of member `key` of a document.
pub fn get_member(doc: &Option<Json>, key: &str) -> (r: Option<String>)
    ensures
        r matches Some(t) ==> member(*doc, key@) == Some(t@),
        r is None ==> member(*doc, key@) is None,
{
    match doc {
        Some(Json::Object(fields)) => {
            let mut i: usize = 0;
            assert(fields@.subrange(0, fields@.len() as int) =~= fields@);
            while i < fields.len()
                invariant
                    i <= fields@.len(),
                    member(*doc, key@) == lookup(fields@, key@),
                    lookup(fields@, key@) == lookup(fields@.subrange(i as int, fields@.len() as int), key@),
                decreases fields.len() - i,
            {
                let ghost rest = fields@.subrange(i as int, fields@.len() as int);
                assert(rest.drop_first() =~= fields@.subrange(i + 1, fields@.len() as int));
                assert(rest[0] == fields@[i as int]);
                if str_equal(fields[i].0.as_str(), key) {
                    return Some(fields[i].1.clone());
                }
                i = i + 1;
            }
            None
        },
        _ => None,
    }
}

/// The string that a JSON text denotes, where it denotes one.
pub fn read_string(text: &str) -> (r: Option<String>)
    ensures
        r matches Some(s) ==> json_string(text@) == Some(s@),
        r is None ==> json_string(text@) is None,
{
    match parse_json(text) {
        Some(Json::Str(s)) => Some(s),
        _ => None,
    }
}

} // verus!
