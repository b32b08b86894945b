//! Reading records out of JSON documents.
//!
//! A record is a JSON object read by field name. A field is required, or
//! falls back to a default when the object has no such member; members that
//! a record does not name are never looked at. [`Record::of_json`] says, for
//! each record, which documents have its shape and what they hold.

use crate::error::DecodeError;
use crate::json::{field, json_of, member, parse, parsed, Json};
use serde_json::Value;
use vstd::prelude::*;

verus! {

/// A required string: the member must be there and be a JSON string.
pub open spec fn text(x: Option<Json>) -> Option<Seq<char>> {
    match x {
        Some(Json::String(s)) => Some(s),
        _ => None,
    }
}

/// A string that is empty when the member is missing. A member that is
/// there must be a JSON string.
pub open spec fn text_or_empty(x: Option<Json>) -> Option<Seq<char>> {
    match x {
        None => Some(Seq::empty()),
        Some(Json::String(s)) => Some(s),
        _ => None,
    }
}

/// A flag that is `false` when the member is missing. A member that is there
/// must be a JSON boolean.
pub open spec fn flag_or_false(x: Option<Json>) -> Option<bool> {
    match x {
        None => Some(false),
        Some(Json::Bool(b)) => Some(b),
        _ => None,
    }
}

/// An optional document of any shape: nothing when the member is missing or
/// `null`.
pub open spec fn blob(x: Option<Json>) -> Option<Json> {
    match x {
        None => None,
        Some(Json::Null) => None,
        Some(j) => Some(j),
    }
}

/// The content of an optional document.
pub open spec fn blob_of(x: Option<Value>) -> Option<Json> {
    match x {
        Some(v) => Some(json_of(v)),
        None => None,
    }
}

/// The views of a list of values, in order.
pub open spec fn views<T: View>(items: Seq<T>) -> Seq<T::V> {
    Seq::new(items.len(), |i: int| items[i]@)
}

/// A type that is read from a JSON document.
pub trait Record: View + Sized {
    /// The record that the document `j` holds, or `None` where `j` does not
    /// have the record's shape.
    spec fn of_json(j: Json) -> Option<Self::V>;

    /// Reads the record out of `v`.
    fn from_value(v: &Value) -> (r: Result<Self, DecodeError>)
        ensures
            match r {
                Ok(x) => Self::of_json(json_of(*v)) == Some(x@),
                Err(e) => e is Mismatch && Self::of_json(json_of(*v)) is None,
            },
    ;
}

/// The records that the document `j` lists: `j` must be an array, and each
/// element a record.
pub open spec fn list_of_json<T: Record>(j: Json) -> Option<Seq<T::V>> {
    match j {
        Json::Array(items) => if forall|i: int|
            0 <= i < items.len() ==> (#[trigger] T::of_json(items[i])) is Some {
            Some(Seq::new(items.len(), |i: int| T::of_json(items[i])->0))
        } else {
            None
        },
        _ => None,
    }
}

/// A required list of records under a member.
pub open spec fn list<T: Record>(x: Option<Json>) -> Option<Seq<T::V>> {
    match x {
        Some(j) => list_of_json::<T>(j),
        None => None,
    }
}

/// The record that a reply body holds: the body must be a JSON document,
/// and the document a record.
pub open spec fn record_in<T: Record>(body: Seq<u8>) -> Option<T::V> {
    match parsed(body) {
        Some(j) => T::of_json(j),
        None => None,
    }
}

/// The records that a reply body lists.
pub open spec fn list_in<T: Record>(body: Seq<u8>) -> Option<Seq<T::V>> {
    match parsed(body) {
        Some(j) => list_of_json::<T>(j),
        None => None,
    }
}

/// Reads the required string `key` of `v`.
pub fn read_text(v: &Value, key: &str) -> (r: Result<String, DecodeError>)
    ensures
        match r {
            Ok(s) => text(member(json_of(*v), key@)) == Some(s@),
            Err(e) => e is Mismatch && text(member(json_of(*v), key@)) is None,
        },
{
    match field(v, key) {
        Some(c) => match c.as_str() {
            Some(s) => Ok(s.to_owned()),
            None => Err(DecodeError::Mismatch),
        },
        None => Err(DecodeError::Mismatch),
    }
}

/// Reads the string `key` of `v`, empty when `v` has no such member.
pub fn read_text_or_empty(v: &Value, key: &str) -> (r: Result<String, DecodeError>)
    ensures
        match r {
            Ok(s) => text_or_empty(member(json_of(*v), key@)) == Some(s@),
            Err(e) => e is Mismatch && text_or_empty(member(json_of(*v), key@)) is None,
        },
{
    match field(v, key) {
        Some(c) => match c.as_str() {
            Some(s) => Ok(s.to_owned()),
            None => Err(DecodeError::Mismatch),
        },
        None => Ok(String::new()),
    }
}

/// Reads the flag `key` of `v`, `false` when `v` has no such member.
pub fn read_flag_or_false(v: &Value, key: &str) -> (r: Result<bool, DecodeError>)
    ensures
        match r {
            Ok(b) => flag_or_false(member(json_of(*v), key@)) == Some(b),
            Err(e) => e is Mismatch && flag_or_false(member(json_of(*v), key@)) is None,
        },
{
    match field(v, key) {
        Some(c) => match c.as_bool() {
            Some(b) => Ok(b),
            None => Err(DecodeError::Mismatch),
        },
        None => Ok(false),
    }
}

/// Reads the optional document `key` of `v`.
pub fn read_blob(v: &Value, key: &str) -> (r: Option<Value>)
    ensures
        blob_of(r) == blob(member(json_of(*v), key@)),
{
    match field(v, key) {
        Some(c) => if c.is_null() {
            None
        } else {
            Some(c.clone())
        },
        None => None,
    }
}

/// Reads the required document `key` of `v`, of any shape, `null` included.
pub fn read_document(v: &Value, key: &str) -> (r: Result<Value, DecodeError>)
    ensures
        match r {
            Ok(d) => member(json_of(*v), key@) == Some(json_of(d)),
            Err(e) => e is Mismatch && member(json_of(*v), key@) is None,
        },
{
    match field(v, key) {
        Some(c) => Ok(c.clone()),
        None => Err(DecodeError::Mismatch),
    }
}

/// Reads a list of records out of `v`: every element, in order. One element
/// that is no record fails the whole list.
pub fn list_from_value<T: Record>(v: &Value) -> (r: Result<Vec<T>, DecodeError>)
    ensures
        match r {
            Ok(records) => list_of_json::<T>(json_of(*v)) == Some(views(records@)),
            Err(e) => e is Mismatch && list_of_json::<T>(json_of(*v)) is None,
        },
{
    match v.as_array() {
        None => Err(DecodeError::Mismatch),
        Some(items) => {
            let ghost docs = crate::json::contents(items@);
            let mut records: Vec<T> = Vec::new();
            let mut i: usize = 0;
            while i < items.len()
                invariant
                    i <= items.len(),
                    records.len() == i,
                    docs == crate::json::contents(items@),
                    json_of(*v) == Json::Array(docs),
                    forall|k: int|
                        0 <= k < i ==> (#[trigger] T::of_json(docs[k])) == Some(records[k]@),
                decreases items.len() - i,
            {
                match T::from_value(&items[i]) {
                    Ok(x) => {
                        records.push(x);
                    },
                    Err(e) => {
                        assert(T::of_json(docs[i as int]) is None);
                        return Err(e);
                    },
                }
                i += 1;
            }
            assert(views(records@) =~= Seq::new(docs.len(), |k: int| T::of_json(docs[k])->0));
            Ok(records)
        },
    }
}

/// Reads the required list of records `key` of `v`.
pub fn read_list<T: Record>(v: &Value, key: &str) -> (r: Result<Vec<T>, DecodeError>)
    ensures
        match r {
            Ok(records) => list::<T>(member(json_of(*v), key@)) == Some(views(records@)),
            Err(e) => e is Mismatch && list::<T>(member(json_of(*v), key@)) is None,
        },
{
    match field(v, key) {
        Some(c) => list_from_value::<T>(c),
        None => Err(DecodeError::Mismatch),
    }
}

/// Decodes a reply body as one record.
///
/// `Malformed` comes exactly when the body is no JSON document, `Mismatch`
/// exactly when it is one and the document is not the record.
pub fn decode<T: Record>(body: &[u8]) -> (r: Result<T, DecodeError>)
    ensures
        match r {
            Ok(x) => record_in::<T>(body@) == Some(x@),
            Err(DecodeError::Malformed(_)) => parsed(body@) is None,
            Err(DecodeError::Mismatch) => parsed(body@) is Some && record_in::<T>(body@) is None,
        },
{
    match parse(body) {
        Ok(v) => T::from_value(&v),
        Err(e) => Err(DecodeError::Malformed(e)),
    }
}

/// Decodes a reply body as a list of records, of any length.
pub fn decode_list<T: Record>(body: &[u8]) -> (r: Result<Vec<T>, DecodeError>)
    ensures
        match r {
            Ok(records) => list_in::<T>(body@) == Some(views(records@)),
            Err(DecodeError::Malformed(_)) => parsed(body@) is None,
            Err(DecodeError::Mismatch) => parsed(body@) is Some && list_in::<T>(body@) is None,
        },
{
    match parse(body) {
        Ok(v) => list_from_value::<T>(&v),
        Err(e) => Err(DecodeError::Malformed(e)),
    }
}

} // verus!
