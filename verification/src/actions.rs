//! Translation of short frontend UI action identifiers into canonical
//! command keys. The mapping is fixed and fails closed: an identifier that
//! is not in the table translates to nothing.

use vstd::prelude::*;
use crate::text::str_eq;

verus! {

/// The fixed UI-action-to-command-key table as a mathematical function.
pub open spec fn spec_translate(a: Seq<char>) -> Option<Seq<char>> {
    if a == "wifi-scanner"@ {
        Some("wifi.scan.start"@)
    } else if a == "wifi-scan"@ {
        Some("wifi.scan.start"@)
    } else if a == "wifi-scan-stop"@ {
        Some("wifi.scan.stop"@)
    } else if a == "wifi-sniffer"@ {
        Some("wifi.sniffer.start"@)
    } else if a == "wifi-sniffer-stop"@ {
        Some("wifi.sniffer.stop"@)
    } else if a == "ble-scanner"@ {
        Some("ble.scan.start"@)
    } else if a == "ble-scan-stop"@ {
        Some("ble.scan.stop"@)
    } else if a == "nrf-scanner"@ {
        Some("nrf.scan.start"@)
    } else if a == "nrf-scan-stop"@ {
        Some("nrf.scan.stop"@)
    } else if a == "subghz"@ {
        Some("subghz.read.start"@)
    } else if a == "sub-ghz-scanner"@ {
        Some("subghz.read.start"@)
    } else if a == "subghz-stop"@ {
        Some("subghz.read.stop"@)
    } else if a == "sub-ghz-playback"@ {
        Some("subghz.playback.start"@)
    } else if a == "sub-ghz-recorder"@ {
        Some("subghz.record.start"@)
    } else if a == "sub-ghz-packet-sender"@ {
        Some("subghz.packet.send"@)
    } else if a == "sub-ghz-disruptor"@ {
        Some("subghz.disruptor.start"@)
    } else if a == "oscilloscope"@ {
        Some("oscilloscope.start"@)
    } else if a == "oscilloscope-stop"@ {
        Some("oscilloscope.stop"@)
    } else if a == "i2c-scanner"@ {
        Some("i2c.scan.once"@)
    } else if a == "cell-scan"@ {
        Some("cell.scan.start"@)
    } else if a == "cell-scan-stop"@ {
        Some("cell.scan.stop"@)
    } else if a == "sd"@ {
        Some("sd.info"@)
    } else if a == "ir-recv"@ {
        Some("ir.recv.start"@)
    } else if a == "ir-stop"@ {
        Some("ir.recv.stop"@)
    } else if a == "battery"@ {
        Some("battery.info"@)
    } else {
        None
    }
}

/// Translates a frontend UI action into its canonical command key; unknown
/// actions yield `None`.
pub fn translate_action_to_bt(action: &str) -> (r: Option<String>)
    ensures
        match r {
            Some(k) => spec_translate(action@) == Some(k@),
            None => spec_translate(action@) is None,
        },
{
    if str_eq(action, "wifi-scanner") {
        Some(String::from_str("wifi.scan.start"))
    } else if str_eq(action, "wifi-scan") {
        Some(String::from_str("wifi.scan.start"))
    } else if str_eq(action, "wifi-scan-stop") {
        Some(String::from_str("wifi.scan.stop"))
    } else if str_eq(action, "wifi-sniffer") {
        Some(String::from_str("wifi.sniffer.start"))
    } else if str_eq(action, "wifi-sniffer-stop") {
        Some(String::from_str("wifi.sniffer.stop"))
    } else if str_eq(action, "ble-scanner") {
        Some(String::from_str("ble.scan.start"))
    } else if str_eq(action, "ble-scan-stop") {
        Some(String::from_str("ble.scan.stop"))
    } else if str_eq(action, "nrf-scanner") {
        Some(String::from_str("nrf.scan.start"))
    } else if str_eq(action, "nrf-scan-stop") {
        Some(String::from_str("nrf.scan.stop"))
    } else if str_eq(action, "subghz") {
        Some(String::from_str("subghz.read.start"))
    } else if str_eq(action, "sub-ghz-scanner") {
        Some(String::from_str("subghz.read.start"))
    } else if str_eq(action, "subghz-stop") {
        Some(String::from_str("subghz.read.stop"))
    } else if str_eq(action, "sub-ghz-playback") {
        Some(String::from_str("subghz.playback.start"))
    } else if str_eq(action, "sub-ghz-recorder") {
        Some(String::from_str("subghz.record.start"))
    } else if str_eq(action, "sub-ghz-packet-sender") {
        Some(String::from_str("subghz.packet.send"))
    } else if str_eq(action, "sub-ghz-disruptor") {
        Some(String::from_str("subghz.disruptor.start"))
    } else if str_eq(action, "oscilloscope") {
        Some(String::from_str("oscilloscope.start"))
    } else if str_eq(action, "oscilloscope-stop") {
        Some(String::from_str("oscilloscope.stop"))
    } else if str_eq(action, "i2c-scanner") {
        Some(String::from_str("i2c.scan.once"))
    } else if str_eq(action, "cell-scan") {
        Some(String::from_str("cell.scan.start"))
    } else if str_eq(action, "cell-scan-stop") {
        Some(String::from_str("cell.scan.stop"))
    } else if str_eq(action, "sd") {
        Some(String::from_str("sd.info"))
    } else if str_eq(action, "ir-recv") {
        Some(String::from_str("ir.recv.start"))
    } else if str_eq(action, "ir-stop") {
        Some(String::from_str("ir.recv.stop"))
    } else if str_eq(action, "battery") {
        Some(String::from_str("battery.info"))
    } else {
        None
    }
}

} // verus!
