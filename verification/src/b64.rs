//! Base64 text for telemetry payloads, through the base64 crate.
//!
//! What the encoding returns is named rather than written out: `b64_of` is
//! the standard-alphabet padded encoding of a byte sequence, `b64_bytes_of`
//! the bytes a given text decodes to.

use vstd::prelude::*;

verus! {

pub uninterp spec fn b64_of(bytes: Seq<u8>) -> Seq<char>;

pub uninterp spec fn b64_bytes_of(text: Seq<char>) -> Seq<u8>;

pub uninterp spec fn b64_ok(text: Seq<char>) -> bool;

/// Relies on base64::encode: the standard-alphabet padded encoding of the
/// bytes, four output characters for every three input bytes begun.
#[verifier::external_body]
pub fn b64_encode(bytes: &Vec<u8>) -> (r: String)
    ensures
        r@ == b64_of(bytes@),
        r@.len() == 4 * ((bytes@.len() + 2) / 3),
{
    base64::encode(bytes)
}

/// Relies on base64::decode: deterministic in the text, it succeeds exactly
/// on valid standard-alphabet base64 (that condition is named `b64_ok`) and
/// then returns the bytes the text encodes.
#[verifier::external_body]
pub fn b64_decode(text: &str) -> (r: Option<Vec<u8>>)
    ensures
        r is Some <==> b64_ok(text@),
        match r {
            Some(b) => b@ == b64_bytes_of(text@),
            None => true,
        },
{
    base64::decode(text).ok()
}

} // verus!
