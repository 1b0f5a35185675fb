use sharkos_bridge::decode::{decode_message, records_of_signals};
use sharkos_bridge::record::{JsonPayload, JsonSignal};

#[test]
fn json_object_yields_one_normalized_record() {
    let msg = "{\"module\":4,\"timestamp_ms\":111,\"frequency_mhz\":433.92,\"rssi\":-7,\"payload\":\"QUJD\",\"extra\":\"ok\"}";
    let recs = decode_message(msg, 999);
    assert_eq!(recs.len(), 1);
    let r = &recs[0];
    assert_eq!(r.module, 4);
    assert_eq!(r.timestamp_ms, 111);
    assert_eq!(r.frequency_fixed6, "433.920000");
    assert_eq!(r.rssi, -7);
    assert_eq!(r.payload_b64, "QUJD");
    assert_eq!(r.extra, "ok");
}

#[test]
fn missing_fields_take_their_defaults() {
    let recs = decode_message("{}", 424242);
    assert_eq!(recs.len(), 1);
    let r = &recs[0];
    assert_eq!(r.timestamp_ms, 424242);
    assert_eq!(r.module, -1);
    assert_eq!(r.frequency_fixed6, "0.000000");
    assert_eq!(r.rssi, 0);
    assert_eq!(r.payload_b64, "");
    assert_eq!(r.extra, "");
}

#[test]
fn integer_frequency_renders_at_fixed_precision() {
    let recs = decode_message("{\"frequency_mhz\":3}", 0);
    assert_eq!(recs[0].frequency_fixed6, "3.000000");
}

#[test]
fn payload_byte_array_is_base64_encoded() {
    let recs = decode_message("{\"payload\":[1,2]}", 0);
    assert_eq!(recs[0].payload_b64, "AQI=");
}

#[test]
fn batch_message_yields_records_in_array_order() {
    let msg = "{\"type\":\"radio-batch\",\"signals\":[{\"module\":1},{\"module\":2},{\"module\":3}]}";
    let recs = decode_message(msg, 0);
    assert_eq!(recs.len(), 3);
    assert_eq!(recs[0].module, 1);
    assert_eq!(recs[1].module, 2);
    assert_eq!(recs[2].module, 3);
}

#[test]
fn signal_batch_normalizes_one_record_per_signal_in_order() {
    let sig = |module: Option<i64>, ts: Option<u64>| JsonSignal {
        timestamp_ms: ts,
        module,
        frequency_text: None,
        rssi: None,
        payload: JsonPayload::Absent,
        extra: None,
    };
    let sigs = vec![sig(Some(1), Some(10)), sig(Some(2), None), sig(None, Some(30))];
    let recs = records_of_signals(&sigs, 777);
    assert_eq!(recs.len(), 3);
    assert_eq!((recs[0].module, recs[0].timestamp_ms), (1, 10));
    assert_eq!((recs[1].module, recs[1].timestamp_ms), (2, 777));
    assert_eq!((recs[2].module, recs[2].timestamp_ms), (-1, 30));
}

#[test]
fn non_object_json_yields_no_records() {
    assert!(decode_message("[1,2,3]", 0).is_empty());
    assert!(decode_message("5", 0).is_empty());
    assert!(decode_message("\"hello\"", 0).is_empty());
}

#[test]
fn undecodable_message_yields_no_records() {
    assert!(decode_message("not json and not base64!!", 0).is_empty());
    assert!(decode_message("PROTO:%%%", 0).is_empty());
}

#[test]
fn proto_prefixed_base64_message_decodes_as_frame() {
    // field 2 (module), wire type 0, value 3
    let frame: Vec<u8> = vec![0x10, 0x03];
    let msg = format!("PROTO:{}", base64::encode(&frame));
    let recs = decode_message(&msg, 0);
    assert_eq!(recs.len(), 1);
    assert_eq!(recs[0].module, 3);
}

#[test]
fn bare_base64_message_decodes_as_frame() {
    let frame: Vec<u8> = vec![0x10, 0x09];
    let msg = base64::encode(&frame);
    let recs = decode_message(&msg, 0);
    assert_eq!(recs.len(), 1);
    assert_eq!(recs[0].module, 9);
}

#[test]
fn enveloped_proto_message_decodes_like_bare_body() {
    let body: Vec<u8> = vec![0x10, 0x06];
    let mut framed = vec![0xAA, 0x55, 0x02, 0x00];
    framed.extend(&body);
    let msg = format!("PROTO:{}", base64::encode(&framed));
    let recs = decode_message(&msg, 0);
    assert_eq!(recs[0].module, 6);
}

#[test]
fn json_is_preferred_over_base64_interpretation() {
    // "123" is valid JSON (a number), so it never reaches the base64 path
    assert!(decode_message("123", 0).is_empty());
}
