//! Decoding JSON text into a payload. The decoding itself is done by
//! `serde_json`; this module holds the two calls into it and what the
//! library assumes of them.

use vstd::prelude::*;
use crate::error::Error;
use crate::mapping::{modeled, optional};
use crate::tree::{Payload, Tree};

verus! {

/// The tree type of `serde_json`, carried from its decoder to `lift` and
/// never looked into.
#[verifier::external_type_specification]
#[verifier::external_body]
pub struct ExJsonValue(serde_json::Value);

/// The tree that `text` decodes to as one JSON document, each number given
/// as the decimal text that `serde_json` prints it with; `None` where
/// `text` is no well-formed JSON document.
pub uninterp spec fn json_tree(text: Seq<char>) -> Option<Tree>;

/// Rebuilds a tree of `serde_json` as a `Payload`, variant for variant: null,
/// booleans, strings, arrays and objects keep their contents and order
/// (`serde_json` hands the fields of an object out sorted by name), and a
/// number becomes the text of `serde_json::Number`'s `Display`. Nothing is
/// claimed of the result here; `decode` names it.
#[verifier::external_body]
fn lift(node: serde_json::Value) -> Payload {
    match node {
        serde_json::Value::Null => Payload::Null,
        serde_json::Value::Bool(b) => Payload::Bool(b),
        serde_json::Value::Number(n) => Payload::Number(n.to_string()),
        serde_json::Value::String(s) => Payload::Text(s),
        serde_json::Value::Array(items) => Payload::List(items.into_iter().map(lift).collect()),
        serde_json::Value::Object(fields) => Payload::Record(
            fields.into_iter().map(|(name, value)| (name, lift(value))).collect(),
        ),
    }
}

/// Calls `serde_json::from_str` for a `serde_json::Value`. The contract
/// claims that the outcome depends on `text` alone: it is `json_tree` of
/// it, which is `None` exactly when `serde_json` reports an error.
#[verifier::external_body]
fn decode(text: &str) -> (r: Option<Payload>)
    ensures
        optional(r) == json_tree(text@),
{
    match serde_json::from_str::<serde_json::Value>(text) {
        Ok(node) => Some(lift(node)),
        Err(_) => None,
    }
}

/// What decoding `text` as JSON gives: its tree, or `PayloadDecodeError`.
pub open spec fn decoded(text: Seq<char>) -> Result<Tree, Error> {
    match json_tree(text) {
        Some(t) => Ok(t),
        None => Err(Error::PayloadDecodeError),
    }
}

/// Decodes `text` as one JSON document. It fails with `PayloadDecodeError`
/// exactly when the text is not well-formed JSON.
pub fn parse(text: &str) -> (r: Result<Payload, Error>)
    ensures
        modeled(r) == decoded(text@),
{
    match decode(text) {
        Some(v) => Ok(v),
        None => Err(Error::PayloadDecodeError),
    }
}

} // verus!
