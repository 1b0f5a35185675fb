//! Classification and decoding of one raw telemetry message.
//!
//! A message is either a JSON document (one telemetry object, or a batch
//! wrapper holding an array of them), or base64-encoded binary frame bytes,
//! optionally behind a "PROTO:" prefix. A message that is neither valid
//! JSON nor decodable base64 yields no records. The JSON value tree is
//! opaque to the verifier; the walk over it only carries plain values out
//! (`extract_json_signal`, `extract_signals`), and everything concluded from
//! them is computed by verified functions (`records_of_signals`,
//! `records_of_binary`) with exact contracts.

use vstd::prelude::*;
use crate::b64::{b64_bytes_of, b64_decode, b64_ok};
use crate::frame::{decode_frame, spec_decode_frame};
use crate::jsonio::{
    json_as_array, json_as_i64, json_as_str, json_as_u64, json_get, json_is_object, json_ok,
    json_number_text, parse_json,
};
use crate::record::{
    record_of_frame, record_of_json, spec_record_of_frame, spec_record_of_json, JsonPayload,
    JsonSignal, TelemetryRecord,
};
use crate::text::str_eq;

verus! {

/// Reads the plain values of one JSON telemetry object. What the values
/// mean is fixed by `spec_record_of_json`; this function only carries them
/// out of the opaque value tree.
pub fn extract_json_signal(v: &serde_json::Value) -> JsonSignal {
    let timestamp_ms = match json_get(v, "timestamp_ms") {
        Some(t) => json_as_u64(t),
        None => None,
    };
    let module = match json_get(v, "module") {
        Some(m) => json_as_i64(m),
        None => None,
    };
    let frequency_text = match json_get(v, "frequency_mhz") {
        Some(f) => json_number_text(f),
        None => None,
    };
    let rssi = match json_get(v, "rssi") {
        Some(r) => json_as_i64(r),
        None => None,
    };
    let payload = match json_get(v, "payload") {
        Some(p) => match json_as_str(p) {
            Some(s) => JsonPayload::Text(s),
            None => match json_as_array(p) {
                Some(arr) => {
                    let mut bytes: Vec<u8> = Vec::new();
                    let mut i: usize = 0;
                    while i < arr.len()
                        decreases arr.len() - i,
                    {
                        match json_as_u64(&arr[i]) {
                            Some(n) => {
                                bytes.push(#[verifier::truncate] (n as u8));
                            },
                            None => {},
                        }
                        i = i + 1;
                    }
                    JsonPayload::Bytes(bytes)
                },
                None => JsonPayload::Absent,
            },
        },
        None => JsonPayload::Absent,
    };
    let extra = match json_get(v, "extra") {
        Some(e) => json_as_str(e),
        None => None,
    };
    JsonSignal { timestamp_ms, module, frequency_text, rssi, payload, extra }
}

/// The telemetry objects of one parsed JSON message, as plain values:
/// nothing for a non-object; the elements of the "signals" array, in array
/// order, for a "radio-batch" wrapper; the object itself otherwise.
pub fn extract_signals(v: &serde_json::Value) -> Vec<JsonSignal> {
    let mut sigs: Vec<JsonSignal> = Vec::new();
    if !json_is_object(v) {
        return sigs;
    }
    let is_batch = match json_get(v, "type") {
        Some(t) => match json_as_str(t) {
            Some(s) => str_eq(s.as_str(), "radio-batch"),
            None => false,
        },
        None => false,
    };
    if is_batch {
        match json_get(v, "signals") {
            Some(s) => match json_as_array(s) {
                Some(arr) => {
                    let mut i: usize = 0;
                    while i < arr.len()
                        decreases arr.len() - i,
                    {
                        sigs.push(extract_json_signal(&arr[i]));
                        i = i + 1;
                    }
                },
                None => {},
            },
            None => {},
        }
    } else {
        sigs.push(extract_json_signal(v));
    }
    sigs
}

/// Normalizes a batch of extracted signals: exactly one record per signal,
/// in input order.
pub fn records_of_signals(sigs: &Vec<JsonSignal>, now_ms: u64) -> (r: Vec<TelemetryRecord>)
    ensures
        r@.len() == sigs@.len(),
        forall|i: int|
            0 <= i < sigs@.len() ==> (#[trigger] r@[i])@ == spec_record_of_json(
                sigs@[i]@,
                now_ms,
            ),
{
    let mut r: Vec<TelemetryRecord> = Vec::new();
    let n = sigs.len();
    let mut i: usize = 0;
    while i < n
        invariant
            i <= n,
            n == sigs@.len(),
            r@.len() == i,
            forall|j: int|
                0 <= j < i ==> (#[trigger] r@[j])@ == spec_record_of_json(sigs@[j]@, now_ms),
        decreases n - i,
    {
        r.push(record_of_json(&sigs[i], now_ms));
        i = i + 1;
    }
    r
}

/// The records of one parsed JSON message: the signals the message carries
/// (see `extract_signals`), each normalized per `spec_record_of_json`.
pub fn records_of_json_value(v: &serde_json::Value, now_ms: u64) -> Vec<TelemetryRecord> {
    let sigs = extract_signals(v);
    records_of_signals(&sigs, now_ms)
}

/// A message carrying base64 frame bytes behind the "PROTO:" prefix.
pub open spec fn spec_has_proto_prefix(s: Seq<char>) -> bool {
    s.len() >= 6 && s.subrange(0, 6) == "PROTO:"@
}

fn has_proto_prefix(msg: &str) -> (r: bool)
    ensures
        r == spec_has_proto_prefix(msg@),
{
    proof {
        reveal_strlit("PROTO:");
    }
    let n = msg.unicode_len();
    if n < 6 {
        return false;
    }
    let r = msg.get_char(0) == 'P' && msg.get_char(1) == 'R' && msg.get_char(2) == 'O'
        && msg.get_char(3) == 'T' && msg.get_char(4) == 'O' && msg.get_char(5) == ':';
    proof {
        let s = msg@.subrange(0, 6);
        assert(s[0] == msg@[0] && s[1] == msg@[1] && s[2] == msg@[2] && s[3] == msg@[3] && s[4]
            == msg@[4] && s[5] == msg@[5]);
        assert("PROTO:"@[0] == 'P' && "PROTO:"@[1] == 'R' && "PROTO:"@[2] == 'O' && "PROTO:"@[3]
            == 'T' && "PROTO:"@[4] == 'O' && "PROTO:"@[5] == ':');
        if r {
            assert(s =~= "PROTO:"@);
        }
    }
    r
}

/// The base64 text of a non-JSON message: the message itself, or what
/// follows the "PROTO:" prefix.
pub open spec fn spec_b64_text(msg: Seq<char>) -> Seq<char> {
    if spec_has_proto_prefix(msg) {
        msg.subrange(6, msg.len() as int)
    } else {
        msg
    }
}

/// The single record of one raw binary frame message.
pub fn records_of_binary(bytes: &Vec<u8>, now_ms: u64) -> (r: Vec<TelemetryRecord>)
    ensures
        r@.len() == 1,
        r@[0]@ == spec_record_of_frame(spec_decode_frame(bytes@), now_ms),
{
    let f = decode_frame(bytes);
    let rec = record_of_frame(&f, now_ms);
    let mut out: Vec<TelemetryRecord> = Vec::new();
    out.push(rec);
    out
}

/// Decodes one raw message into its normalized records. `now_ms` is the
/// ingestion-time clock, used when a signal carries no timestamp. JSON is
/// tried first; a non-JSON message is read as base64 frame bytes, with the
/// "PROTO:" prefix stripped when present; a message that is neither yields
/// no records. For the non-JSON side the contract is exact; what a JSON
/// message yields is fixed by `extract_signals` and `records_of_signals`.
pub fn decode_message(msg: &str, now_ms: u64) -> (r: Vec<TelemetryRecord>)
    ensures
        !json_ok(msg@) ==> ({
            let text = spec_b64_text(msg@);
            &&& (b64_ok(text) ==> r@.len() == 1 && r@[0]@ == spec_record_of_frame(
                spec_decode_frame(b64_bytes_of(text)),
                now_ms,
            ))
            &&& (!b64_ok(text) ==> r@.len() == 0)
        }),
{
    match parse_json(msg) {
        Some(v) => records_of_json_value(&v, now_ms),
        None => {
            let text: &str = if has_proto_prefix(msg) {
                msg.substring_char(6, msg.unicode_len())
            } else {
                msg
            };
            proof {
                assert(text@ == spec_b64_text(msg@));
            }
            match b64_decode(text) {
                Some(bytes) => records_of_binary(&bytes, now_ms),
                None => Vec::new(),
            }
        },
    }
}

} // verus!
