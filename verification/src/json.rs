//! JSON documents as plain values, and reading fields out of them.
//!
//! Text is parsed by `serde_json` and turned into a [`JsonValue`] tree, one
//! node for each node of the parsed document, objects keeping their members
//! in the order of `serde_json`'s map (sorted by key).

use vstd::prelude::*;
use crate::text::{copy_str, str_eq};

verus! {

/// A JSON value.
#[derive(Debug)]
pub enum JsonValue {
    Null,
    Bool(bool),
    /// A number: its value when it is an integer that fits an `i64`, and its
    /// text.
    Number(Option<i64>, String),
    Str(String),
    Array(Vec<JsonValue>),
    Object(Vec<(String, JsonValue)>),
}

/// The value of the first member named `key`.
pub open spec fn member(entries: Seq<(String, JsonValue)>, key: Seq<char>) -> Option<JsonValue>
    decreases entries.len(),
{
    if entries.len() == 0 {
        None
    } else if entries[0].0@ == key {
        Some(entries[0].1)
    } else {
        member(entries.skip(1), key)
    }
}

/// The member `key` of an object; `None` for any other value.
pub open spec fn json_get(v: JsonValue, key: Seq<char>) -> Option<JsonValue> {
    match v {
        JsonValue::Object(entries) => member(entries@, key),
        _ => None,
    }
}

/// The text of a string value.
pub open spec fn json_str(v: Option<JsonValue>) -> Option<Seq<char>> {
    match v {
        Some(JsonValue::Str(s)) => Some(s@),
        _ => None,
    }
}

/// The value of an integer that fits an `i64`.
pub open spec fn json_i64(v: Option<JsonValue>) -> Option<i64> {
    match v {
        Some(JsonValue::Number(Some(n), _)) => Some(n),
        _ => None,
    }
}

/// The text of a number.
pub open spec fn json_number_text(v: Option<JsonValue>) -> Option<Seq<char>> {
    match v {
        Some(JsonValue::Number(_, t)) => Some(t@),
        _ => None,
    }
}

/// The member `key` of a value that is an object.
pub fn get<'a>(v: &'a JsonValue, key: &str) -> (r: Option<&'a JsonValue>)
    ensures
        match r {
            Some(x) => json_get(*v, key@) == Some(*x),
            None => json_get(*v, key@) is None,
        },
{
    match v {
        JsonValue::Object(entries) => {
            let mut i: usize = 0;
            assert(entries@.skip(0) =~= entries@);
            while i < entries.len()
                invariant
                    i <= entries.len(),
                    json_get(*v, key@) == member(entries@, key@),
                    member(entries@, key@) == member(entries@.skip(i as int), key@),
                decreases entries.len() - i,
            {
                proof {
                    assert(entries@.skip(i as int)[0] == entries@[i as int]);
                    assert(entries@.skip(i as int).skip(1) =~= entries@.skip(i + 1));
                }
                if str_eq(entries[i].0.as_str(), key) {
                    return Some(&entries[i].1);
                }
                i = i + 1;
            }
            None
        },
        _ => None,
    }
}

/// The text of a string value.
pub fn str_of(v: Option<&JsonValue>) -> (r: Option<String>)
    ensures
        r matches Some(s) ==> json_str(match v {
            Some(x) => Some(*x),
            None => None,
        }) == Some(s@),
        r is None ==> json_str(match v {
            Some(x) => Some(*x),
            None => None,
        }) is None,
{
    match v {
        Some(JsonValue::Str(s)) => Some(copy_str(s.as_str())),
        _ => None,
    }
}

/// The text of the string member `key`.
pub fn get_str(v: &JsonValue, key: &str) -> (r: Option<String>)
    ensures
        r matches Some(s) ==> json_str(json_get(*v, key@)) == Some(s@),
        r is None ==> json_str(json_get(*v, key@)) is None,
{
    str_of(get(v, key))
}

/// The value of the integer member `key`.
pub fn get_i64(v: &JsonValue, key: &str) -> (r: Option<i64>)
    ensures
        r == json_i64(json_get(*v, key@)),
{
    match get(v, key) {
        Some(JsonValue::Number(Some(n), _)) => Some(*n),
        _ => None,
    }
}

/// The text of the number member `key`.
pub fn get_number_text(v: &JsonValue, key: &str) -> (r: Option<String>)
    ensures
        r matches Some(s) ==> json_number_text(json_get(*v, key@)) == Some(s@),
        r is None ==> json_number_text(json_get(*v, key@)) is None,
{
    match get(v, key) {
        Some(JsonValue::Number(_, t)) => Some(copy_str(t.as_str())),
        _ => None,
    }
}


#[verifier::external_type_specification]
#[verifier::external_body]
pub struct ExJsonDocument(serde_json::Value);

/// What `serde_json::from_str::<serde_json::Value>` gives for a text, as a
/// tree: `None` where the text is not one JSON document.
pub uninterp spec fn json_parsed(text: Seq<char>) -> Option<JsonValue>;

/// The parsed `serde_json` value as a tree, node for node: a number keeps
/// `as_i64` and its text, an object its members in its map's order.
#[verifier::external_body]
fn tree_of(v: &serde_json::Value) -> JsonValue {
    match v {
        serde_json::Value::Null => JsonValue::Null,
        serde_json::Value::Bool(b) => JsonValue::Bool(*b),
        serde_json::Value::Number(n) => JsonValue::Number(n.as_i64(), n.to_string()),
        serde_json::Value::String(t) => JsonValue::Str(t.clone()),
        serde_json::Value::Array(a) => JsonValue::Array(a.iter().map(tree_of).collect()),
        serde_json::Value::Object(m) => JsonValue::Object(m.iter().map(|(k, x)| (k.clone(), tree_of(x))).collect()),
    }
}

/// `serde_json::from_str::<serde_json::Value>`, the value turned into a tree.
/// Trusted: the result is `json_parsed(text)`; it depends on the text alone.
#[verifier::external_body]
pub(crate) fn parse_json_text(text: &str) -> (r: Option<JsonValue>)
    ensures
        r == json_parsed(text@),
{
    serde_json::from_str::<serde_json::Value>(text).ok().map(|v| tree_of(&v))
}

} // verus!
