//! A structural model of the JSON wire form.
//!
//! Envelopes cross the wire as JSON objects in which an absent optional
//! field is omitted entirely, never emitted as `null`. This tree is the
//! library's own picture of that wire form: the codec builds and reads it,
//! and the surrounding application renders it to text.

use vstd::prelude::*;

verus! {

/// One `key: value` member of a JSON object.
#[derive(Debug, PartialEq, Eq)]
pub struct Member {
    /// The member's key.
    pub key: String,

    /// The member's value.
    pub value: Json,
}

/// A JSON document.
#[derive(Debug, PartialEq, Eq)]
pub enum Json {
    /// The JSON `null`.
    Null,
    /// A JSON boolean.
    Bool(bool),
    /// A non-negative JSON integer.
    UInt(u64),
    /// A JSON string.
    Str(String),
    /// A JSON array.
    Arr(Vec<Json>),
    /// A JSON object, its members in order.
    Obj(Vec<Member>),
}

} // verus!
