//! The JSON encoding and decoding that bodies go through.
use vstd::prelude::*;

verus! {

/// The error of encoding or decoding JSON.
#[verifier::external_type_specification]
#[verifier::external_body]
pub struct ExJsonError(serde_json::Error);

/// Relies on `serde_json::to_vec`: the JSON text of `value`, or the error that
/// its `Serialize` impl (or a map with non-string keys) produced.
#[verifier::external_body]
pub(crate) fn encode_json<T: serde::Serialize>(value: &T) -> Result<Vec<u8>, serde_json::Error> {
    serde_json::to_vec(value)
}

/// Relies on `serde_json::from_slice`: the value that `bytes` holds as JSON, or
/// the error of malformed or mismatched input.
#[verifier::external_body]
pub(crate) fn decode_json<'a, T: serde::Deserialize<'a>>(bytes: &'a [u8]) -> Result<T, serde_json::Error> {
    serde_json::from_slice(bytes)
}

} // verus!
