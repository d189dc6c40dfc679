//! Reading JSON text.
//!
//! What is JSON and what a text spells is left to `serde_json`. This module
//! calls it and copies what it built into a [`Json`]. Nothing here is
//! proved of `serde_json`: what its calls return is given a name, and the
//! rest of the library is proved for whatever those names stand for.

use crate::json::{Json, JsonValue, Member};
use vstd::prelude::*;

verus! {

/// `serde_json::Value`, of which nothing is known here but what
/// [`json_of_value`] names.
#[verifier::external_type_specification]
#[verifier::external_body]
pub struct ExValue(serde_json::Value);

/// `serde_json::Error`, which is passed over unread.
#[verifier::external_type_specification]
#[verifier::external_body]
pub struct ExError(serde_json::Error);

/// The value that `serde_json::from_slice` reads from `text`, or `None`
/// where it reports an error.
pub uninterp spec fn value_of_text(text: Seq<u8>) -> Option<serde_json::Value>;

/// The document that a `serde_json::Value` holds: its variants one for
/// one, the entries of an object in the order in which the value yields
/// them, and of a number what `serde_json::Number::as_i64` returns.
pub uninterp spec fn json_of_value(value: serde_json::Value) -> JsonValue;

/// Calls `serde_json::from_slice` for a `serde_json::Value`. The contract
/// claims that what it returns depends on `text` alone.
#[verifier::external_body]
fn read_value(text: &[u8]) -> (r: Result<serde_json::Value, serde_json::Error>)
    ensures
        r.ok() == value_of_text(text@),
{
    serde_json::from_slice::<serde_json::Value>(text)
}

/// Copies a `serde_json::Value` into a [`Json`]: each variant becomes the
/// variant of the same kind, and a number keeps what
/// `serde_json::Number::as_i64` returns for it. The contract claims that
/// the copy depends on the value alone.
#[verifier::external_body]
fn copy_value(value: &serde_json::Value) -> (r: Json)
    ensures
        r@ == json_of_value(*value),
{
    match value {
        serde_json::Value::Null => Json::Null,
        serde_json::Value::Bool(b) => Json::Bool(*b),
        serde_json::Value::Number(n) => Json::Number(n.as_i64()),
        serde_json::Value::String(s) => Json::Text(s.clone()),
        serde_json::Value::Array(a) => Json::Array(a.iter().map(copy_value).collect()),
        serde_json::Value::Object(m) => Json::Object(
            m.iter().map(|(k, v)| Member { name: k.clone(), value: copy_value(v) }).collect(),
        ),
    }
}

/// The document that `text` spells, or `None` where it is not JSON.
pub open spec fn parsed(text: Seq<u8>) -> Option<JsonValue> {
    match value_of_text(text) {
        Some(value) => Some(json_of_value(value)),
        None => None,
    }
}

/// Reads `text` as one JSON document; `None` where it is not one.
pub fn parse(text: &[u8]) -> (r: Option<Json>)
    ensures
        r is Some <==> parsed(text@) is Some,
        r matches Some(json) ==> parsed(text@) == Some(json@),
{
    match read_value(text) {
        Ok(value) => Some(copy_value(&value)),
        Err(_) => None,
    }
}

} // verus!
