//! The binary telemetry frame decoder.
//!
//! A frame is a sequence of fields. Each field starts with an unsigned
//! variable-length integer ("varint": seven data bits per byte, high bit set
//! on every byte but the last) encoding `tag = (field_number << 3) |
//! wire_type`. Wire type 0 carries a varint value (field 1: timestamp,
//! field 2: module, field 4: RSSI, ZigZag-encoded); wire type 5 carries four
//! little-endian bytes (field 3: the frequency as single-precision bits);
//! wire type 2 carries a length varint and that many bytes (field 5: the
//! payload, field 6: UTF-8 annotation text, dropped silently when invalid).
//! Any other wire type, or a varint or length that runs past the buffer end,
//! terminates parsing immediately; the fields decoded before that point are
//! kept. Unknown field numbers with recognized wire types are consumed but
//! produce nothing. A later occurrence of a field overwrites an earlier one.
//! Varint data beyond the 64th bit of a value is discarded (the value is the
//! sum of the shifted data bits modulo 2^64).

use vstd::prelude::*;
use vstd::utf8::{decode_utf8, valid_utf8};
use crate::text::utf8_from_bytes;

verus! {

/// The decoded fields of one frame, as mathematical values.
pub struct FrameFieldsSpec {
    pub timestamp_ms: Option<u64>,
    pub module: Option<i64>,
    pub frequency_bits: Option<u32>,
    pub rssi: Option<i64>,
    pub payload: Option<Seq<u8>>,
    pub extra: Option<Seq<char>>,
}

/// The decoded fields of one frame. Every field is optional: a frame carries
/// any subset.
pub struct FrameFields {
    pub timestamp_ms: Option<u64>,
    pub module: Option<i64>,
    pub frequency_bits: Option<u32>,
    pub rssi: Option<i64>,
    pub payload: Option<Vec<u8>>,
    pub extra: Option<String>,
}

impl View for FrameFields {
    type V = FrameFieldsSpec;

    open spec fn view(&self) -> FrameFieldsSpec {
        FrameFieldsSpec {
            timestamp_ms: self.timestamp_ms,
            module: self.module,
            frequency_bits: self.frequency_bits,
            rssi: self.rssi,
            payload: match self.payload {
                Some(ref v) => Some(v@),
                None => None,
            },
            extra: match self.extra {
                Some(ref s) => Some(s@),
                None => None,
            },
        }
    }
}

/// No field decoded yet.
pub open spec fn spec_empty_fields() -> FrameFieldsSpec {
    FrameFieldsSpec {
        timestamp_ms: None,
        module: None,
        frequency_bits: None,
        rssi: None,
        payload: None,
        extra: None,
    }
}

/// The varint read starting at `i`, already holding `acc` from `shift / 7`
/// consumed bytes: the value and the position after it, or `None` when the
/// buffer ends before a byte without the continuation bit.
pub open spec fn spec_varint_at(s: Seq<u8>, i: int, shift: nat, acc: u64) -> Option<(u64, int)>
    decreases s.len() - i,
{
    if i < 0 || i >= s.len() {
        None
    } else {
        let data = (s[i] & 0x7f) as u64;
        let acc2: u64 = if shift < 64 {
            acc | (data << (shift as u64))
        } else {
            acc
        };
        if s[i] & 0x80 == 0 {
            Some((acc2, i + 1))
        } else {
            spec_varint_at(s, i + 1, shift + 7, acc2)
        }
    }
}

/// The varint read starting at `i`.
pub open spec fn spec_varint(s: Seq<u8>, i: int) -> Option<(u64, int)> {
    spec_varint_at(s, i, 0, 0)
}

/// A successfully read varint consumes at least one byte and stays in the
/// buffer.
pub proof fn lemma_varint_advances(s: Seq<u8>, i: int, shift: nat, acc: u64)
    ensures
        match spec_varint_at(s, i, shift, acc) {
            Some((v, j)) => i < j <= s.len(),
            None => true,
        },
    decreases s.len() - i,
{
    if 0 <= i < s.len() && s[i] & 0x80 != 0 {
        let data = (s[i] & 0x7f) as u64;
        let acc2: u64 = if shift < 64 {
            acc | (data << (shift as u64))
        } else {
            acc
        };
        lemma_varint_advances(s, i + 1, shift + 7, acc2);
    }
}

/// ZigZag decoding: even values are nonnegative halves, odd values are
/// negative.
pub open spec fn spec_zigzag(v: u64) -> i64 {
    if v % 2 == 0 {
        (v / 2) as i64
    } else {
        (-1 - ((v / 2) as int)) as i64
    }
}

/// Four little-endian bytes starting at `i`, as one 32-bit value.
pub open spec fn spec_le32(s: Seq<u8>, i: int) -> u32
    recommends
        0 <= i,
        i + 4 <= s.len(),
{
    ((s[i] as int) + (s[i + 1] as int) * 0x100 + (s[i + 2] as int) * 0x10000 + (s[i + 3] as int)
        * 0x1000000) as u32
}

/// Applies a wire-type-0 field: 1 is the timestamp, 2 the module (the value
/// reinterpreted as signed), 4 the ZigZag-encoded RSSI; other field numbers
/// are consumed without output.
pub open spec fn spec_apply_varint_field(f: FrameFieldsSpec, field: u64, v: u64) -> FrameFieldsSpec {
    if field == 1 {
        FrameFieldsSpec { timestamp_ms: Some(v), ..f }
    } else if field == 2 {
        FrameFieldsSpec { module: Some(v as i64), ..f }
    } else if field == 4 {
        FrameFieldsSpec { rssi: Some(spec_zigzag(v)), ..f }
    } else {
        f
    }
}

/// Applies a wire-type-2 field: 5 is the payload, 6 the annotation text
/// (kept only when valid UTF-8); other field numbers are consumed without
/// output.
pub open spec fn spec_apply_len_field(f: FrameFieldsSpec, field: u64, bytes: Seq<u8>) -> FrameFieldsSpec {
    if field == 5 {
        FrameFieldsSpec { payload: Some(bytes), ..f }
    } else if field == 6 {
        if valid_utf8(bytes) {
            FrameFieldsSpec { extra: Some(decode_utf8(bytes)), ..f }
        } else {
            f
        }
    } else {
        f
    }
}

/// The fields decoded from `s` starting at `i`, on top of those already in
/// `f`: the frame grammar of this module's documentation.
pub open spec fn spec_parse_frame(s: Seq<u8>, i: int, f: FrameFieldsSpec) -> FrameFieldsSpec
    decreases s.len() - i,
        via spec_parse_frame_decreases
{
    if i < 0 || i >= s.len() {
        f
    } else {
        match spec_varint(s, i) {
            None => f,
            Some((tag, j)) => {
                let field = tag >> 3;
                let wire = tag & 7;
                if wire == 0 {
                    match spec_varint(s, j) {
                        None => f,
                        Some((v, j2)) => spec_parse_frame(
                            s,
                            j2,
                            spec_apply_varint_field(f, field, v),
                        ),
                    }
                } else if wire == 5 {
                    if j + 4 <= s.len() {
                        let f2 = if field == 3 {
                            FrameFieldsSpec { frequency_bits: Some(spec_le32(s, j)), ..f }
                        } else {
                            f
                        };
                        spec_parse_frame(s, j + 4, f2)
                    } else {
                        f
                    }
                } else if wire == 2 {
                    match spec_varint(s, j) {
                        None => f,
                        Some((l, j2)) => {
                            if l as int <= s.len() - j2 {
                                spec_parse_frame(
                                    s,
                                    j2 + l,
                                    spec_apply_len_field(f, field, s.subrange(j2, j2 + l)),
                                )
                            } else {
                                f
                            }
                        },
                    }
                } else {
                    f
                }
            },
        }
    }
}

#[via_fn]
proof fn spec_parse_frame_decreases(s: Seq<u8>, i: int, f: FrameFieldsSpec) {
    lemma_varint_advances(s, i, 0, 0);
    if 0 <= i < s.len() {
        match spec_varint(s, i) {
            None => {},
            Some((tag, j)) => {
                lemma_varint_advances(s, j, 0, 0);
            },
        }
    }
}

/// Law: a tag whose wire type is none of the recognized ones (0, 2 and 5)
/// truncates the frame at that point: whatever fields were decoded before
/// it — the accumulator the parse carries when it reaches that offset — are
/// returned unchanged, and no byte past that point is read.
pub proof fn lemma_bad_wire_truncates(s: Seq<u8>, i: int, f: FrameFieldsSpec)
    requires
        0 <= i < s.len(),
        match spec_varint(s, i) {
            Some((tag, j)) => tag & 7 != 0 && tag & 7 != 2 && tag & 7 != 5,
            None => false,
        },
    ensures
        spec_parse_frame(s, i, f) == f,
{
}

/// Reads the varint starting at `start`, per `spec_varint`.
pub fn read_varint(body: &Vec<u8>, start: usize) -> (r: Option<(u64, usize)>)
    requires
        start <= body@.len(),
    ensures
        match r {
            Some(p) => spec_varint(body@, start as int) == Some((p.0, p.1 as int)) && start < p.1
                <= body@.len(),
            None => spec_varint(body@, start as int) is None,
        },
{
    let n = body.len();
    let mut i: usize = start;
    let mut shift: u64 = 0;
    let mut acc: u64 = 0;
    let ghost mut gshift: nat = 0;
    proof {
        lemma_varint_advances(body@, start as int, 0, 0);
    }
    while i < n
        invariant
            start <= i <= n,
            n == body@.len(),
            shift < 64 ==> shift as nat == gshift,
            shift >= 64 ==> gshift >= 64,
            spec_varint(body@, start as int) == spec_varint_at(body@, i as int, gshift, acc),
            match spec_varint(body@, start as int) {
                Some((v, j)) => start < j <= body@.len(),
                None => true,
            },
        decreases n - i,
    {
        let b = body[i];
        let data = (b & 0x7f) as u64;
        if shift < 64 {
            acc = acc | (data << shift);
        }
        i = i + 1;
        if b & 0x80 == 0 {
            return Some((acc, i));
        }
        if shift < 64 {
            shift = shift + 7;
        }
        proof {
            gshift = gshift + 7;
        }
    }
    None
}

/// Copies `v[from..to]` into a fresh vector.
pub fn copy_range(v: &Vec<u8>, from: usize, to: usize) -> (r: Vec<u8>)
    requires
        from <= to <= v@.len(),
    ensures
        r@ == v@.subrange(from as int, to as int),
{
    let mut r: Vec<u8> = Vec::new();
    let mut i: usize = from;
    proof {
        assert(r@ =~= v@.subrange(from as int, from as int));
    }
    while i < to
        invariant
            from <= i <= to <= v@.len(),
            r@ == v@.subrange(from as int, i as int),
        decreases to - i,
    {
        r.push(v[i]);
        proof {
            assert(r@ =~= v@.subrange(from as int, i + 1));
        }
        i = i + 1;
    }
    r
}

/// Decodes the field stream of `body` starting at `start`, per
/// `spec_parse_frame`.
#[verifier::loop_isolation(false)]
pub fn decode_frame_fields(body: &Vec<u8>, start: usize) -> (f: FrameFields)
    requires
        start <= body@.len(),
    ensures
        f@ == spec_parse_frame(body@, start as int, spec_empty_fields()),
{
    let mut ff = FrameFields {
        timestamp_ms: None,
        module: None,
        frequency_bits: None,
        rssi: None,
        payload: None,
        extra: None,
    };
    let n = body.len();
    let mut i: usize = start;
    proof {
        assert(ff@ == spec_empty_fields());
    }
    while i < n
        invariant
            i <= n,
            spec_parse_frame(body@, start as int, spec_empty_fields()) == spec_parse_frame(
                body@,
                i as int,
                ff@,
            ),
        decreases n - i,
    {
        let tag_read = read_varint(body, i);
        let (tag, j) = match tag_read {
            Some(p) => p,
            None => {
                return ff;
            },
        };
        let field = tag >> 3;
        let wire = tag & 7;
        if wire == 0 {
            let val_read = read_varint(body, j);
            let (v, j2) = match val_read {
                Some(p) => p,
                None => {
                    return ff;
                },
            };
            if field == 1 {
                ff.timestamp_ms = Some(v);
            } else if field == 2 {
                ff.module = Some(#[verifier::truncate] (v as i64));
            } else if field == 4 {
                let z: i64 = if v % 2 == 0 {
                    (v / 2) as i64
                } else {
                    -1 - ((v / 2) as i64)
                };
                ff.rssi = Some(z);
            }
            i = j2;
        } else if wire == 5 {
            if n - j >= 4 {
                if field == 3 {
                    let b0 = body[j] as u32;
                    let b1 = body[j + 1] as u32;
                    let b2 = body[j + 2] as u32;
                    let b3 = body[j + 3] as u32;
                    ff.frequency_bits = Some(b0 + b1 * 0x100 + b2 * 0x10000 + b3 * 0x1000000);
                }
                i = j + 4;
            } else {
                return ff;
            }
        } else if wire == 2 {
            let len_read = read_varint(body, j);
            let (l, j2) = match len_read {
                Some(p) => p,
                None => {
                    return ff;
                },
            };
            if l <= (n - j2) as u64 {
                let li = l as usize;
                if field == 5 {
                    ff.payload = Some(copy_range(body, j2, j2 + li));
                } else if field == 6 {
                    let bytes = copy_range(body, j2, j2 + li);
                    match utf8_from_bytes(&bytes) {
                        Some(s) => {
                            ff.extra = Some(s);
                        },
                        None => {},
                    }
                }
                i = j2 + li;
            } else {
                return ff;
            }
        } else {
            return ff;
        }
    }
    ff
}

/// Where the field stream begins: after the four-byte envelope (the 0xAA
/// 0x55 marker and its length, which is read but not relied upon) when the
/// marker is present, at the start otherwise.
pub open spec fn spec_body_start(s: Seq<u8>) -> int {
    if s.len() >= 4 && s[0] == 0xaa && s[1] == 0x55 {
        4
    } else {
        0
    }
}

/// Computes where the field stream begins, per `spec_body_start`.
pub fn body_start(bytes: &Vec<u8>) -> (r: usize)
    ensures
        r as int == spec_body_start(bytes@),
        r <= bytes@.len(),
{
    if bytes.len() >= 4 && bytes[0] == 0xaa && bytes[1] == 0x55 {
        4
    } else {
        0
    }
}

/// The fields decoded from a raw binary message: envelope stripped, then the
/// field stream.
pub open spec fn spec_decode_frame(s: Seq<u8>) -> FrameFieldsSpec {
    spec_parse_frame(s, spec_body_start(s), spec_empty_fields())
}

/// Decodes a raw binary message (optional envelope, then the field stream),
/// per `spec_decode_frame`.
pub fn decode_frame(bytes: &Vec<u8>) -> (f: FrameFields)
    ensures
        f@ == spec_decode_frame(bytes@),
{
    let start = body_start(bytes);
    decode_frame_fields(bytes, start)
}

} // verus!
