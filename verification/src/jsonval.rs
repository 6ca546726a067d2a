//! Trusted surface over serde_json's dynamic `Value` type.
//!
//! A `Value` is opaque here: nothing is assumed about what a parsed document
//! holds, so these wrappers carry no postconditions. The verified reader in
//! `reply` works on whatever they hand back and is proved for every outcome.

use vstd::prelude::*;

verus! {

/// serde_json's dynamic JSON document type, declared so it can cross the
/// verified code's signatures. Opaque: nothing inside it is visible here.
#[verifier::external_type_specification]
#[verifier::external_body]
pub struct ExValue(serde_json::Value);

/// Relies on serde_json's `from_str::<Value>`: parses a JSON document,
/// `None` when the text is not valid JSON.
#[verifier::external_body]
pub(crate) fn parse_json(s: &str) -> Option<serde_json::Value> {
    serde_json::from_str(s).ok()
}

/// Relies on serde_json's `Value::get` with a string index: the member of a
/// JSON object under that key, `None` when `v` is not an object or has no
/// such member.
#[verifier::external_body]
pub(crate) fn json_member<'a>(v: &'a serde_json::Value, key: &str) -> Option<
    &'a serde_json::Value,
> {
    v.get(key)
}

/// Relies on serde_json's `Value::as_array`: the elements when `v` is a JSON
/// array, `None` otherwise.
#[verifier::external_body]
pub(crate) fn json_as_array(v: &serde_json::Value) -> Option<&Vec<serde_json::Value>> {
    v.as_array()
}

/// Relies on serde_json's `Value::as_str`: the string when `v` is a JSON
/// string, `None` otherwise.
#[verifier::external_body]
pub(crate) fn json_as_str(v: &serde_json::Value) -> Option<&str> {
    v.as_str()
}

/// Relies on serde_json's `Value::as_u64`: the number when `v` is a JSON
/// number representable as a `u64`, `None` otherwise.
#[verifier::external_body]
pub(crate) fn json_as_u64(v: &serde_json::Value) -> Option<u64> {
    v.as_u64()
}

} // verus!
