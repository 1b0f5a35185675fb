use sharkos_bridge::decode::records_of_binary;
use sharkos_bridge::dectext::fixed6_from_decimal_text;
use sharkos_bridge::fixed6::fixed6_from_f32_bits;

fn varint(mut v: u64) -> Vec<u8> {
    let mut out = Vec::new();
    loop {
        let byte = (v & 0x7f) as u8;
        v >>= 7;
        if v == 0 {
            out.push(byte);
            break;
        }
        out.push(byte | 0x80);
    }
    out
}

fn field_varint(field: u64, value: u64) -> Vec<u8> {
    let mut out = varint(field << 3);
    out.extend(varint(value));
    out
}

fn field_fixed32(field: u64, bits: u32) -> Vec<u8> {
    let mut out = varint((field << 3) | 5);
    out.extend(bits.to_le_bytes());
    out
}

fn field_bytes(field: u64, data: &[u8]) -> Vec<u8> {
    let mut out = varint((field << 3) | 2);
    out.extend(varint(data.len() as u64));
    out.extend(data);
    out
}

#[test]
fn frame_with_module_rssi_frequency_and_payload_decodes() {
    let mut frame = Vec::new();
    frame.extend(field_varint(2, 3)); // module = 3
    frame.extend(field_varint(4, 9)); // rssi = -5, ZigZag-encoded
    frame.extend(field_fixed32(3, 433.92f32.to_bits()));
    frame.extend(field_bytes(5, &[0x01, 0x02]));

    let recs = records_of_binary(&frame, 777);
    assert_eq!(recs.len(), 1);
    let r = &recs[0];
    assert_eq!(r.module, 3);
    assert_eq!(r.rssi, -5);
    assert_eq!(r.payload_b64, "AQI=");
    assert_eq!(r.timestamp_ms, 777); // no timestamp in the frame
    assert_eq!(r.frequency_fixed6, format!("{:.6}", 433.92f32 as f64));
    assert!(r.frequency_fixed6.starts_with("433.92"));
}

#[test]
fn unknown_wire_type_truncates_but_keeps_earlier_fields() {
    let mut frame = Vec::new();
    frame.extend(field_varint(2, 7)); // module = 7, decoded before the bad tag
    frame.push((1 << 3) | 3); // wire type 3: not recognized
    frame.extend(field_varint(4, 9)); // would set rssi, but is never reached

    let recs = records_of_binary(&frame, 0);
    assert_eq!(recs[0].module, 7);
    assert_eq!(recs[0].rssi, 0); // default: the field after the bad tag is lost
}

#[test]
fn truncated_varint_terminates_cleanly() {
    let mut frame = Vec::new();
    frame.extend(field_varint(1, 123456));
    frame.push(0x90); // a tag varint whose continuation never ends
    let recs = records_of_binary(&frame, 0);
    assert_eq!(recs[0].timestamp_ms, 123456);
    assert_eq!(recs[0].module, -1);
}

#[test]
fn truncated_fixed32_terminates_cleanly() {
    let mut frame = Vec::new();
    frame.extend(field_varint(2, 1));
    frame.extend(varint((3 << 3) | 5));
    frame.extend([0xAA, 0xBB]); // only two of the four bytes
    let recs = records_of_binary(&frame, 0);
    assert_eq!(recs[0].module, 1);
    assert_eq!(recs[0].frequency_fixed6, "0.000000");
}

#[test]
fn oversized_length_terminates_cleanly() {
    let mut frame = Vec::new();
    frame.extend(field_varint(2, 1));
    frame.extend(varint((5 << 3) | 2));
    frame.extend(varint(1000)); // claims 1000 payload bytes
    frame.extend([0x01, 0x02]);
    let recs = records_of_binary(&frame, 0);
    assert_eq!(recs[0].module, 1);
    assert_eq!(recs[0].payload_b64, "");
}

#[test]
fn envelope_marker_is_stripped() {
    let mut body = Vec::new();
    body.extend(field_varint(2, 5));
    let mut framed = vec![0xAA, 0x55, body.len() as u8, 0x00];
    framed.extend(&body);

    let with_envelope = records_of_binary(&framed, 0);
    let without = records_of_binary(&body, 0);
    assert_eq!(with_envelope[0].module, 5);
    assert_eq!(without[0].module, 5);
}

#[test]
fn unknown_field_numbers_are_skipped() {
    let mut frame = Vec::new();
    frame.extend(field_varint(9, 1234)); // unknown field, consumed silently
    frame.extend(field_varint(2, 6));
    let recs = records_of_binary(&frame, 0);
    assert_eq!(recs[0].module, 6);
}

#[test]
fn module_value_wraps_as_signed() {
    let mut frame = Vec::new();
    frame.extend(field_varint(2, u64::MAX));
    let recs = records_of_binary(&frame, 0);
    assert_eq!(recs[0].module, -1);
}

#[test]
fn later_field_occurrence_overwrites_earlier() {
    let mut frame = Vec::new();
    frame.extend(field_varint(2, 1));
    frame.extend(field_varint(2, 2));
    let recs = records_of_binary(&frame, 0);
    assert_eq!(recs[0].module, 2);
}

#[test]
fn utf8_extra_is_decoded_and_invalid_utf8_dropped() {
    let mut frame = Vec::new();
    frame.extend(field_bytes(6, b"note"));
    let recs = records_of_binary(&frame, 0);
    assert_eq!(recs[0].extra, "note");

    let mut bad = Vec::new();
    bad.extend(field_bytes(6, &[0xFF, 0xFE]));
    let recs2 = records_of_binary(&bad, 0);
    assert_eq!(recs2[0].extra, "");
}

#[test]
fn fixed6_matches_float_formatting_on_a_sweep() {
    let cases: [u32; 16] = [
        0x00000000, // +0
        0x80000000, // -0
        0x00000001, // smallest subnormal
        0x007FFFFF, // largest subnormal
        0x00800000, // smallest normal
        0x3F800000, // 1.0
        0xBF800000, // -1.0
        0x43D8F5C3, // near 433.92
        0x501502F9, // 1e10
        0x7F7FFFFF, // largest finite
        0xFF7FFFFF, // most negative finite
        0x7F800000, // +inf
        0xFF800000, // -inf
        0x7FC00000, // NaN
        0x3DCCCCCD, // near 0.1
        0x42F6E979, // near 123.456
    ];
    for bits in cases {
        let expected = format!("{:.6}", f32::from_bits(bits) as f64);
        assert_eq!(fixed6_from_f32_bits(bits), expected, "bits {:#010x}", bits);
    }
}

#[test]
fn fixed6_half_way_cases_round_to_even() {
    // mantissa odd, exponent field 143: the value times one million is an
    // exact half-integer, so the rounding rule itself is exercised
    let tie_bits: u32 = 0x47800001;
    let expected = format!("{:.6}", f32::from_bits(tie_bits) as f64);
    assert_eq!(fixed6_from_f32_bits(tie_bits), expected);
    let tie_bits2: u32 = 0x47800003;
    let expected2 = format!("{:.6}", f32::from_bits(tie_bits2) as f64);
    assert_eq!(fixed6_from_f32_bits(tie_bits2), expected2);
}

#[test]
fn varint_data_beyond_sixty_four_bits_is_discarded() {
    // an 11-byte varint: only the low 64 bits of the data survive
    let mut frame = vec![0x10]; // field 2, wire type 0
    frame.extend([0x81, 0x80, 0x80, 0x80, 0x80, 0x80, 0x80, 0x80, 0x80, 0x80, 0x00]);
    let recs = records_of_binary(&frame, 0);
    assert_eq!(recs[0].module, 1);
}

#[test]
fn even_zigzag_values_decode_nonnegative() {
    let mut frame = Vec::new();
    frame.extend(field_varint(4, 8)); // ZigZag 8 -> 4
    frame.extend(field_varint(1, 42));
    let recs = records_of_binary(&frame, 0);
    assert_eq!(recs[0].rssi, 4);
    assert_eq!(recs[0].timestamp_ms, 42);
}

#[test]
fn empty_payload_field_encodes_to_empty_text() {
    let mut frame = Vec::new();
    frame.extend(field_bytes(5, &[]));
    let recs = records_of_binary(&frame, 0);
    assert_eq!(recs[0].payload_b64, "");
}

#[test]
fn decimal_text_renders_at_fixed_precision() {
    assert_eq!(
        fixed6_from_decimal_text("433.92"),
        Some("433.920000".to_string())
    );
    assert_eq!(fixed6_from_decimal_text("3"), Some("3.000000".to_string()));
    assert_eq!(
        fixed6_from_decimal_text("-5.5"),
        Some("-5.500000".to_string())
    );
    assert_eq!(
        fixed6_from_decimal_text("1.5e2"),
        Some("150.000000".to_string())
    );
    assert_eq!(
        fixed6_from_decimal_text("2e-7"),
        Some("0.000000".to_string())
    );
    assert_eq!(
        fixed6_from_decimal_text("1e3"),
        Some("1000.000000".to_string())
    );
    assert_eq!(
        fixed6_from_decimal_text("0.1234567"),
        Some("0.123457".to_string())
    );
    // exactly half-way in decimal: ties go to the even neighbour
    assert_eq!(
        fixed6_from_decimal_text("0.0000005"),
        Some("0.000000".to_string())
    );
    assert_eq!(
        fixed6_from_decimal_text("0.0000015"),
        Some("0.000002".to_string())
    );
}

#[test]
fn decimal_text_outside_the_notation_is_rejected() {
    assert_eq!(fixed6_from_decimal_text(""), None);
    assert_eq!(fixed6_from_decimal_text("abc"), None);
    assert_eq!(fixed6_from_decimal_text("1."), None);
    assert_eq!(fixed6_from_decimal_text("1e"), None);
    assert_eq!(fixed6_from_decimal_text("--1"), None);
    assert_eq!(fixed6_from_decimal_text("1 "), None);
}
