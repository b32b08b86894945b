//! JSON documents as `serde_json` holds them, and what Verus is told of them.
//!
//! A `serde_json::Value` is opaque to verification. Its content is named by
//! [`json_of`], a tree of type [`Json`]; every contract of this library that
//! speaks of a document speaks of that tree. The items of this module that
//! have no verified body state what `serde_json` does, and are believed.

use serde_json::Value;
use vstd::prelude::*;

verus! {

#[verifier::external_type_specification]
#[verifier::external_body]
pub struct ExValue(serde_json::Value);

#[verifier::external_type_specification]
#[verifier::external_body]
pub struct ExNumber(serde_json::Number);

#[verifier::external_type_specification]
#[verifier::external_body]
pub struct ExError(serde_json::Error);

/// The content of a JSON document.
///
/// Numbers are carried as `serde_json` holds them; nothing in this library
/// looks inside one.
pub enum Json {
    Null,
    Bool(bool),
    Number(serde_json::Number),
    String(Seq<char>),
    Array(Seq<Json>),
    Object(Map<Seq<char>, Json>),
}

/// The content of the document `v`.
pub uninterp spec fn json_of(v: Value) -> Json;

/// The document that `serde_json::from_slice` reads from `bytes` when asked
/// for a `Value`, or `None` where it reports an error.
pub uninterp spec fn parsed(bytes: Seq<u8>) -> Option<Json>;

/// The member `key` of an object; `None` for a missing key and for a
/// document that is no object.
pub open spec fn member(j: Json, key: Seq<char>) -> Option<Json> {
    match j {
        Json::Object(m) => if m.contains_key(key) {
            Some(m[key])
        } else {
            None
        },
        _ => None,
    }
}

/// The contents of a list of documents, in order.
pub open spec fn contents(items: Seq<Value>) -> Seq<Json> {
    Seq::new(items.len(), |i: int| json_of(items[i]))
}

/// No two of the pairs share a key.
pub open spec fn distinct_keys(entries: Seq<(String, Value)>) -> bool {
    forall|i: int, j: int| 0 <= i < j < entries.len() ==> entries[i].0@ != entries[j].0@
}

/// The members that a list of `(key, document)` pairs spells out.
pub open spec fn members_of(entries: Seq<(String, Value)>) -> Map<Seq<char>, Json>
    decreases entries.len(),
{
    if entries.len() == 0 {
        Map::empty()
    } else {
        members_of(entries.drop_last()).insert(entries.last().0@, json_of(entries.last().1))
    }
}

/// `serde_json::from_slice::<Value>`: reads one JSON document from `bytes`.
/// The contract only names the outcome: it is `parsed(bytes)`.
#[verifier::external_body]
pub(crate) fn parse(bytes: &[u8]) -> (r: Result<Value, serde_json::Error>)
    ensures
        match r {
            Ok(v) => parsed(bytes@) == Some(json_of(v)),
            Err(_) => parsed(bytes@) is None,
        },
{
    serde_json::from_slice::<Value>(bytes)
}

/// `Value::get` with a string index: the member of an object under `key`,
/// and `None` where `v` is no object or has no such member.
#[verifier::external_body]
pub(crate) fn field<'a>(v: &'a Value, key: &str) -> (r: Option<&'a Value>)
    ensures
        match r {
            Some(c) => member(json_of(*v), key@) == Some(json_of(*c)),
            None => member(json_of(*v), key@) is None,
        },
{
    v.get(key)
}

/// `Value::from(&str)`: the JSON string with the text of `s`.
#[verifier::external_body]
pub(crate) fn json_string(s: &str) -> (r: Value)
    ensures
        json_of(r) == Json::String(s@),
{
    Value::from(s)
}

/// Collects the pairs into a `serde_json::Map` and wraps it as
/// `Value::Object`. With pairwise distinct keys the object has exactly the
/// members that the pairs spell out.
#[verifier::external_body]
pub(crate) fn json_object(entries: Vec<(String, Value)>) -> (r: Value)
    requires
        distinct_keys(entries@),
    ensures
        json_of(r) == Json::Object(members_of(entries@)),
{
    Value::Object(entries.into_iter().collect())
}

/// `Value::as_str`: the text of a JSON string, `None` for any other document.
pub assume_specification<'a>[ serde_json::Value::as_str ](v: &'a Value) -> (r: Option<&'a str>)
    ensures
        match r {
            Some(s) => json_of(*v) == Json::String(s@),
            None => !(json_of(*v) is String),
        },
;

/// `Value::as_bool`: the value of a JSON boolean, `None` for any other
/// document.
pub assume_specification[ serde_json::Value::as_bool ](v: &Value) -> (r: Option<bool>)
    ensures
        match r {
            Some(b) => json_of(*v) == Json::Bool(b),
            None => !(json_of(*v) is Bool),
        },
;

/// `Value::as_array`: the elements of a JSON array, `None` for any other
/// document.
pub assume_specification<'a>[ serde_json::Value::as_array ](v: &'a Value) -> (r: Option<
    &'a Vec<Value>,
>)
    ensures
        match r {
            Some(items) => json_of(*v) == Json::Array(contents(items@)),
            None => !(json_of(*v) is Array),
        },
;

/// `Value::is_null`: whether the document is JSON `null`.
pub assume_specification[ serde_json::Value::is_null ](v: &Value) -> (r: bool)
    ensures
        r == (json_of(*v) is Null),
;

/// `Value::clone`: a document with the same content.
pub assume_specification[ <serde_json::Value as Clone>::clone ](v: &Value) -> (r: Value)
    ensures
        json_of(r) == json_of(*v),
;

} // verus!
