//! The normalized telemetry record and its CSV rendering.

use vstd::prelude::*;
use crate::b64::{b64_encode, b64_of};
use crate::fixed6::{fixed6_from_f32_bits, spec_fixed6_f32};
use crate::dectext::{fixed6_from_decimal_text, spec_fixed6_of_text};
use crate::frame::{FrameFields, FrameFieldsSpec};
use crate::numfmt::{i64_to_dec, spec_dec_int, spec_dec_nat, u64_to_dec};

verus! {

/// One decoded telemetry signal, as mathematical values. The frequency is
/// held as its fixed 6-decimal rendering, the only form this bridge uses.
pub struct TelemetryRecordSpec {
    pub timestamp_ms: u64,
    pub module: i64,
    pub frequency_fixed6: Seq<char>,
    pub rssi: i64,
    pub payload_b64: Seq<char>,
    pub extra: Seq<char>,
}

/// One decoded telemetry signal, normalized: absent fields carry their
/// defaults (ingestion-time clock, module -1, zero frequency and RSSI,
/// empty payload and annotation).
pub struct TelemetryRecord {
    pub timestamp_ms: u64,
    pub module: i64,
    pub frequency_fixed6: String,
    pub rssi: i64,
    pub payload_b64: String,
    pub extra: String,
}

impl View for TelemetryRecord {
    type V = TelemetryRecordSpec;

    open spec fn view(&self) -> TelemetryRecordSpec {
        TelemetryRecordSpec {
            timestamp_ms: self.timestamp_ms,
            module: self.module,
            frequency_fixed6: self.frequency_fixed6@,
            rssi: self.rssi,
            payload_b64: self.payload_b64@,
            extra: self.extra@,
        }
    }
}

/// The record a decoded binary frame normalizes to, given the ingestion-time
/// clock for a missing timestamp.
pub open spec fn spec_record_of_frame(f: FrameFieldsSpec, now_ms: u64) -> TelemetryRecordSpec {
    TelemetryRecordSpec {
        timestamp_ms: match f.timestamp_ms {
            Some(t) => t,
            None => now_ms,
        },
        module: match f.module {
            Some(m) => m,
            None => -1i64,
        },
        frequency_fixed6: match f.frequency_bits {
            Some(b) => spec_fixed6_f32(b),
            None => "0.000000"@,
        },
        rssi: match f.rssi {
            Some(r) => r,
            None => 0,
        },
        payload_b64: match f.payload {
            Some(p) => b64_of(p),
            None => Seq::empty(),
        },
        extra: match f.extra {
            Some(e) => e,
            None => Seq::empty(),
        },
    }
}

/// Normalizes a decoded binary frame, per `spec_record_of_frame`.
pub fn record_of_frame(f: &FrameFields, now_ms: u64) -> (r: TelemetryRecord)
    ensures
        r@ == spec_record_of_frame(f@, now_ms),
{
    let timestamp_ms = match f.timestamp_ms {
        Some(t) => t,
        None => now_ms,
    };
    let module = match f.module {
        Some(m) => m,
        None => -1,
    };
    let frequency_fixed6 = match f.frequency_bits {
        Some(b) => fixed6_from_f32_bits(b),
        None => String::from_str("0.000000"),
    };
    let rssi = match f.rssi {
        Some(r) => r,
        None => 0,
    };
    let payload_b64 = match &f.payload {
        Some(p) => b64_encode(p),
        None => String::new(),
    };
    let extra = match &f.extra {
        Some(e) => e.clone(),
        None => String::new(),
    };
    TelemetryRecord { timestamp_ms, module, frequency_fixed6, rssi, payload_b64, extra }
}

/// The plain values a JSON telemetry object carries: each field as the JSON
/// gave it, absent when missing or of the wrong kind. The frequency is the
/// number's decimal text; the payload is either text (taken as already
/// encoded) or raw bytes (an array of numbers).
pub struct JsonSignal {
    pub timestamp_ms: Option<u64>,
    pub module: Option<i64>,
    pub frequency_text: Option<String>,
    pub rssi: Option<i64>,
    pub payload: JsonPayload,
    pub extra: Option<String>,
}

pub enum JsonPayload {
    Absent,
    Text(String),
    Bytes(Vec<u8>),
}

/// The `JsonSignal` fields as mathematical values.
pub struct JsonSignalSpec {
    pub timestamp_ms: Option<u64>,
    pub module: Option<i64>,
    pub frequency_text: Option<Seq<char>>,
    pub rssi: Option<i64>,
    pub payload: JsonPayloadSpec,
    pub extra: Option<Seq<char>>,
}

pub enum JsonPayloadSpec {
    Absent,
    Text(Seq<char>),
    Bytes(Seq<u8>),
}

impl View for JsonSignal {
    type V = JsonSignalSpec;

    open spec fn view(&self) -> JsonSignalSpec {
        JsonSignalSpec {
            timestamp_ms: self.timestamp_ms,
            module: self.module,
            frequency_text: match self.frequency_text {
                Some(ref t) => Some(t@),
                None => None,
            },
            rssi: self.rssi,
            payload: match self.payload {
                JsonPayload::Absent => JsonPayloadSpec::Absent,
                JsonPayload::Text(ref s) => JsonPayloadSpec::Text(s@),
                JsonPayload::Bytes(ref b) => JsonPayloadSpec::Bytes(b@),
            },
            extra: match self.extra {
                Some(ref e) => Some(e@),
                None => None,
            },
        }
    }
}

/// The record a JSON telemetry object normalizes to: absent fields carry
/// their defaults; a frequency whose text is outside the supported decimal
/// notation counts as absent; a textual payload is kept as it is, a byte
/// payload is base64-encoded.
pub open spec fn spec_record_of_json(j: JsonSignalSpec, now_ms: u64) -> TelemetryRecordSpec {
    TelemetryRecordSpec {
        timestamp_ms: match j.timestamp_ms {
            Some(t) => t,
            None => now_ms,
        },
        module: match j.module {
            Some(m) => m,
            None => -1i64,
        },
        frequency_fixed6: match j.frequency_text {
            Some(t) => match spec_fixed6_of_text(t) {
                Some(s) => s,
                None => "0.000000"@,
            },
            None => "0.000000"@,
        },
        rssi: match j.rssi {
            Some(r) => r,
            None => 0,
        },
        payload_b64: match j.payload {
            JsonPayloadSpec::Absent => Seq::empty(),
            JsonPayloadSpec::Text(s) => s,
            JsonPayloadSpec::Bytes(b) => b64_of(b),
        },
        extra: match j.extra {
            Some(e) => e,
            None => Seq::empty(),
        },
    }
}

/// Normalizes an extracted JSON signal, per `spec_record_of_json`.
pub fn record_of_json(j: &JsonSignal, now_ms: u64) -> (r: TelemetryRecord)
    ensures
        r@ == spec_record_of_json(j@, now_ms),
{
    let timestamp_ms = match j.timestamp_ms {
        Some(t) => t,
        None => now_ms,
    };
    let module = match j.module {
        Some(m) => m,
        None => -1,
    };
    let frequency_fixed6 = match &j.frequency_text {
        Some(t) => match fixed6_from_decimal_text(t.as_str()) {
            Some(s) => s,
            None => String::from_str("0.000000"),
        },
        None => String::from_str("0.000000"),
    };
    let rssi = match j.rssi {
        Some(r) => r,
        None => 0,
    };
    let payload_b64 = match &j.payload {
        JsonPayload::Absent => String::new(),
        JsonPayload::Text(s) => s.clone(),
        JsonPayload::Bytes(b) => b64_encode(b),
    };
    let extra = match &j.extra {
        Some(e) => e.clone(),
        None => String::new(),
    };
    TelemetryRecord { timestamp_ms, module, frequency_fixed6, rssi, payload_b64, extra }
}

/// Newlines replaced by single spaces, so a record stays one CSV row.
pub open spec fn spec_space_newlines(s: Seq<char>) -> Seq<char> {
    s.map_values(
        |c: char|
            if c == '\n' {
                ' '
            } else {
                c
            },
    )
}

/// Replaces newlines by spaces, per `spec_space_newlines`.
pub fn space_newlines(s: &str) -> (r: String)
    ensures
        r@ == spec_space_newlines(s@),
{
    let n = s.unicode_len();
    let mut r = String::new();
    let mut i: usize = 0;
    proof {
        assert(r@ =~= spec_space_newlines(s@.subrange(0, 0)));
    }
    while i < n
        invariant
            i <= n,
            n == s@.len(),
            r@ == spec_space_newlines(s@.subrange(0, i as int)),
        decreases n - i,
    {
        let c = s.get_char(i);
        if c == '\n' {
            r.append(" ");
        } else {
            let piece = s.substring_char(i, i + 1);
            r.append(piece);
        }
        proof {
            reveal_strlit(" ");
            assert(r@ =~= spec_space_newlines(s@.subrange(0, i + 1)));
        }
        i = i + 1;
    }
    proof {
        assert(s@.subrange(0, n as int) =~= s@);
    }
    r
}

/// The fixed CSV header naming the six record fields.
pub open spec fn spec_csv_header() -> Seq<char> {
    "timestamp_ms,module,frequency_mhz,rssi,payload_base64,extra"@
}

/// The CSV header row (without a line break).
pub fn csv_header() -> (r: &'static str)
    ensures
        r@ == spec_csv_header(),
{
    "timestamp_ms,module,frequency_mhz,rssi,payload_base64,extra"
}

/// One CSV row for a record: the six fields in header order, numeric fields
/// in decimal, newlines in the annotation replaced by spaces, a trailing
/// line break.
pub open spec fn spec_csv_row(r: TelemetryRecordSpec) -> Seq<char> {
    spec_dec_nat(r.timestamp_ms as nat) + seq![','] + spec_dec_int(r.module as int) + seq![',']
        + r.frequency_fixed6 + seq![','] + spec_dec_int(r.rssi as int) + seq![','] + r.payload_b64
        + seq![','] + spec_space_newlines(r.extra) + seq!['\n']
}

/// Renders one CSV row, per `spec_csv_row`.
pub fn csv_row(r: &TelemetryRecord) -> (s: String)
    ensures
        s@ == spec_csv_row(r@),
{
    let ts = u64_to_dec(r.timestamp_ms);
    let md = i64_to_dec(r.module);
    let rs = i64_to_dec(r.rssi);
    let ex = space_newlines(r.extra.as_str());
    let s = ts.concat(",").concat(md.as_str()).concat(",").concat(
        r.frequency_fixed6.as_str(),
    ).concat(",").concat(rs.as_str()).concat(",").concat(r.payload_b64.as_str()).concat(
        ",",
    ).concat(ex.as_str()).concat("\n");
    proof {
        reveal_strlit(",");
        reveal_strlit("\n");
        assert(s@ =~= spec_csv_row(r@));
    }
    s
}

} // verus!
