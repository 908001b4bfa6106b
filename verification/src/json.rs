//! A plain model of the JSON documents that the timetable service answers with, and the
//! read-only accessors the bot uses on them.
//!
//! Accessors take and give `Option`s: `None` stands for a value that is absent or null,
//! which is how the lenient indexing of a JSON document behaves (`doc["a"]["b"]` is null
//! as soon as one step is missing).
use vstd::prelude::*;

verus! {

/// A JSON value.
pub enum Json {
    Null,
    Bool(bool),
    /// A number, with its value where it is a non-negative integer that fits in `u64`.
    Number(Option<u64>),
    Str(String),
    Array(Vec<Json>),
    /// The members of an object, keys unique.
    Object(Vec<(String, Json)>),
}

/// The value stored under `key` among `entries` (the first such entry).
pub open spec fn lookup(entries: Seq<(String, Json)>, key: Seq<char>) -> Option<Json>
    decreases entries.len(),
{
    if entries.len() == 0 {
        None
    } else if entries[0].0@ == key {
        Some(entries[0].1)
    } else {
        lookup(entries.drop_first(), key)
    }
}

/// A reference read as the value it points to.
pub open spec fn deref_json(v: Option<&Json>) -> Option<Json> {
    match v {
        Some(j) => Some(*j),
        None => None,
    }
}

/// `v[key]`: the member `key` of an object; absent for anything else.
pub open spec fn member(v: Option<Json>, key: Seq<char>) -> Option<Json> {
    match v {
        Some(Json::Object(entries)) => lookup(entries@, key),
        _ => None,
    }
}

/// `v[i]`: the element at position `i` of an array; absent for anything else.
pub open spec fn element(v: Option<Json>, i: int) -> Option<Json> {
    match v {
        Some(Json::Array(items)) => if 0 <= i < items@.len() {
            Some(items@[i])
        } else {
            None
        },
        _ => None,
    }
}

/// `v.as_str()`.
pub open spec fn text_of(v: Option<Json>) -> Option<Seq<char>> {
    match v {
        Some(Json::Str(s)) => Some(s@),
        _ => None,
    }
}

/// `v.as_str().unwrap_or("")`.
pub open spec fn text_or_empty(v: Option<Json>) -> Seq<char> {
    match text_of(v) {
        Some(s) => s,
        None => Seq::empty(),
    }
}

/// `v.as_bool()`.
pub open spec fn flag_of(v: Option<Json>) -> Option<bool> {
    match v {
        Some(Json::Bool(b)) => Some(b),
        _ => None,
    }
}

/// `v.as_array()`.
pub open spec fn items_of(v: Option<Json>) -> Option<Seq<Json>> {
    match v {
        Some(Json::Array(items)) => Some(items@),
        _ => None,
    }
}

/// `v.as_object().is_some()`.
pub open spec fn is_object(v: Option<Json>) -> bool {
    v matches Some(Json::Object(_))
}

/// `v == n`: `v` is a number whose integer value is `n`.
pub open spec fn equals_u64(v: Option<Json>, n: u64) -> bool {
    v matches Some(Json::Number(Some(k))) && k == n
}

/// The member `key` of `v`.
pub fn get<'a>(v: Option<&'a Json>, key: &str) -> (r: Option<&'a Json>)
    ensures
        deref_json(r) == member(deref_json(v), key@),
{
    match v {
        Some(Json::Object(entries)) => {
            let wanted = String::from_str(key);
            let mut i: usize = 0;
            assert(entries@.skip(0) =~= entries@);
            while i < entries.len()
                invariant
                    i <= entries@.len(),
                    member(deref_json(v), key@) == lookup(entries@, key@),
                    wanted@ == key@,
                    lookup(entries@, key@) == lookup(entries@.skip(i as int), key@),
                decreases entries@.len() - i,
            {
                assert(entries@.skip(i as int).drop_first() =~= entries@.skip(i + 1));
                assert(entries@.skip(i as int)[0] == entries@[i as int]);
                if entries[i].0.eq(&wanted) {
                    return Some(&entries[i].1);
                }
                i = i + 1;
            }
            None
        },
        _ => None,
    }
}

/// The element at position `i` of `v`.
pub fn at<'a>(v: Option<&'a Json>, i: usize) -> (r: Option<&'a Json>)
    ensures
        deref_json(r) == element(deref_json(v), i as int),
{
    match v {
        Some(Json::Array(items)) => if i < items.len() {
            Some(&items[i])
        } else {
            None
        },
        _ => None,
    }
}

/// The text of `v`, if it is a string.
pub fn as_text<'a>(v: Option<&'a Json>) -> (r: Option<&'a str>)
    ensures
        match r {
            Some(s) => text_of(deref_json(v)) == Some(s@),
            None => text_of(deref_json(v)) is None,
        },
{
    match v {
        Some(Json::Str(s)) => Some(s.as_str()),
        _ => None,
    }
}

/// The truth value of `v`, if it is a boolean.
pub fn as_flag(v: Option<&Json>) -> (r: Option<bool>)
    ensures
        r == flag_of(deref_json(v)),
{
    match v {
        Some(Json::Bool(b)) => Some(*b),
        _ => None,
    }
}

/// The elements of `v`, if it is an array.
pub fn as_items<'a>(v: Option<&'a Json>) -> (r: Option<&'a Vec<Json>>)
    ensures
        match r {
            Some(items) => items_of(deref_json(v)) == Some(items@),
            None => items_of(deref_json(v)) is None,
        },
{
    match v {
        Some(Json::Array(items)) => Some(items),
        _ => None,
    }
}

/// Whether `v` is an object.
pub fn is_obj(v: Option<&Json>) -> (r: bool)
    ensures
        r == is_object(deref_json(v)),
{
    match v {
        Some(Json::Object(_)) => true,
        _ => false,
    }
}

/// Whether `v` is the number `n`.
pub fn equals_number(v: Option<&Json>, n: u64) -> (r: bool)
    ensures
        r == equals_u64(deref_json(v), n),
{
    match v {
        Some(Json::Number(Some(k))) => *k == n,
        _ => false,
    }
}

/// The document that `serde_json::from_str` reads from `text`, as a [`Json`]; none where
/// `text` is not JSON.
pub uninterp spec fn json_parse_result(text: Seq<char>) -> Option<Json>;

#[verifier::external_type_specification]
#[verifier::external_body]
pub struct ExJsonValue(serde_json::Value);

/// Converts a `serde_json::Value` value for value into a [`Json`]; a number keeps the
/// value `Number::as_u64` gives it.
#[verifier::external_body]
fn from_value(v: serde_json::Value) -> Json {
    match v {
        serde_json::Value::Null => Json::Null,
        serde_json::Value::Bool(b) => Json::Bool(b),
        serde_json::Value::Number(n) => Json::Number(n.as_u64()),
        serde_json::Value::String(s) => Json::Str(s),
        serde_json::Value::Array(items) => Json::Array(items.into_iter().map(from_value).collect()),
        serde_json::Value::Object(map) => Json::Object(map.into_iter().map(|(k, v)| (k, from_value(v))).collect()),
    }
}

/// Calls `serde_json::from_str::<serde_json::Value>` on `text` and converts the document.
/// Claimed: the result is [`json_parse_result`] of the text; nothing is said of which texts
/// serde_json accepts or what document it reads from them.
#[verifier::external_body]
pub(crate) fn parse_json(text: &str) -> (r: Option<Json>)
    ensures
        r == json_parse_result(text@),
{
    match serde_json::from_str::<serde_json::Value>(text) {
        Ok(v) => Some(from_value(v)),
        Err(_) => None,
    }
}

} // verus!
