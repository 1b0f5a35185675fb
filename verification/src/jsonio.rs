//! Access to serde_json's value tree.
//!
//! A parsed JSON value is opaque to the verifier; these declarations and
//! wrappers only carry values through. Everything this crate concludes from
//! a JSON message is computed by verified functions from the plain values
//! the wrappers hand out.

use vstd::prelude::*;

verus! {

#[verifier::external_type_specification]
#[verifier::external_body]
pub struct ExValue(serde_json::Value);

pub uninterp spec fn json_ok(s: Seq<char>) -> bool;

/// Relies on serde_json::from_str: deterministic in the text, it succeeds
/// exactly on a syntactically valid JSON document (that condition is named
/// `json_ok`) and then returns its value tree.
#[verifier::external_body]
pub fn parse_json(s: &str) -> (r: Option<serde_json::Value>)
    ensures
        r is Some <==> json_ok(s@),
{
    serde_json::from_str::<serde_json::Value>(s).ok()
}

/// Relies on serde_json::Value::get: the member of an object under `key`.
#[verifier::external_body]
pub fn json_get<'a>(v: &'a serde_json::Value, key: &str) -> (r: Option<&'a serde_json::Value>) {
    v.get(key)
}

/// Relies on serde_json::Value::as_u64: the value of an unsigned integer
/// member.
#[verifier::external_body]
pub fn json_as_u64(v: &serde_json::Value) -> (r: Option<u64>) {
    v.as_u64()
}

/// Relies on serde_json::Value::as_i64: the value of a signed integer
/// member.
#[verifier::external_body]
pub fn json_as_i64(v: &serde_json::Value) -> (r: Option<i64>) {
    v.as_i64()
}

/// Relies on serde_json::Value::as_str: the text of a string member.
#[verifier::external_body]
pub fn json_as_str(v: &serde_json::Value) -> (r: Option<String>) {
    v.as_str().map(|s| s.to_string())
}

/// Relies on serde_json::Value::as_array: the elements of an array member.
#[verifier::external_body]
pub fn json_as_array<'a>(v: &'a serde_json::Value) -> (r: Option<&'a Vec<serde_json::Value>>) {
    v.as_array()
}

/// Relies on serde_json::Value::is_object.
#[verifier::external_body]
pub fn json_is_object(v: &serde_json::Value) -> (r: bool) {
    v.is_object()
}

/// Relies on serde_json::Value::as_number and Number's Display: the decimal
/// text of a number member, exactly as serde_json prints it.
#[verifier::external_body]
pub fn json_number_text(v: &serde_json::Value) -> (r: Option<String>) {
    v.as_number().map(|n| n.to_string())
}

} // verus!
