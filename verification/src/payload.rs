//! The payload node holds the object as JSON text.

use serde_json::Value;
use vstd::prelude::*;

verus! {

/// The error of a JSON text that cannot be read.
#[verifier::external_type_specification]
#[verifier::external_body]
pub struct ExJsonError(serde_json::Error);

/// The JSON value that `text` holds, or `None` if it is not one JSON text.
pub uninterp spec fn json_value(text: Seq<u8>) -> Option<Value>;

/// Calls `serde_json::from_slice` for a `serde_json::Value`. Trusted: whether it succeeds,
/// and with which value, depends on the bytes alone. How JSON is written is not stated.
#[verifier::external_body]
fn value_from_slice(text: &[u8]) -> (r: Result<Value, serde_json::Error>)
    ensures
        r is Ok <==> json_value(text@) is Some,
        r matches Ok(v) ==> json_value(text@) == Some(v),
{
    serde_json::from_slice(text)
}

/// The payload is not JSON.
#[derive(Clone, Copy, Debug, PartialEq, Eq, Structural)]
pub struct BadPayload;

/// Why a payload cannot become the local object.
#[derive(Clone, Copy, Debug, PartialEq, Eq, Structural)]
pub enum PullError {
    /// The payload is not JSON.
    NotJson,
    /// The payload is JSON, but no object.
    NoObject,
}

/// The JSON value that a payload holds.
pub fn parse_payload(text: &[u8]) -> (r: Result<Value, BadPayload>)
    ensures
        r is Ok <==> json_value(text@) is Some,
        r matches Ok(v) ==> json_value(text@) == Some(v),
{
    match value_from_slice(text) {
        Ok(value) => Ok(value),
        Err(_) => Err(BadPayload),
    }
}

} // verus!
