use std::cell::RefCell;
use std::rc::Rc;

use sharkos_bridge::commands::init_bt_commands;
use sharkos_bridge::dispatch::{send_action, SettleTimer, Transport, TransportChain};
use sharkos_bridge::session::{derive_stop_key, is_start_key, is_stop_key, SessionState};

struct RecordingTransport {
    log: Rc<RefCell<Vec<(String, String)>>>,
    succeed: bool,
}

impl Transport for RecordingTransport {
    fn send(&self, mac: &str, payload: &str) -> Result<String, String> {
        self.log.borrow_mut().push((mac.to_string(), payload.to_string()));
        if self.succeed {
            Ok(format!("sent:{}@{}", payload, mac))
        } else {
            Err("transport down".to_string())
        }
    }
}

struct CountingTimer {
    settles: Rc<RefCell<usize>>,
}

impl SettleTimer for CountingTimer {
    fn settle(&self) {
        *self.settles.borrow_mut() += 1;
    }
}

fn harness(succeed: bool) -> (
    TransportChain<RecordingTransport>,
    CountingTimer,
    Rc<RefCell<Vec<(String, String)>>>,
    Rc<RefCell<usize>>,
) {
    let log = Rc::new(RefCell::new(Vec::new()));
    let settles = Rc::new(RefCell::new(0usize));
    let chain = TransportChain {
        transports: vec![RecordingTransport { log: log.clone(), succeed }],
    };
    let timer = CountingTimer { settles: settles.clone() };
    (chain, timer, log, settles)
}

#[test]
fn derived_stop_key_replaces_start_suffix() {
    assert_eq!(derive_stop_key("wifi.scan.start"), "wifi.scan.stop");
    assert_eq!(derive_stop_key("ble.scan.start"), "ble.scan.stop");
    assert_eq!(derive_stop_key("status.reporting.start"), "status.reporting.stop");
}

#[test]
fn derived_stop_key_appends_for_non_start_keys() {
    assert_eq!(derive_stop_key("sd.info"), "sd.info.stop");
    assert_eq!(derive_stop_key("subghz.packet.send"), "subghz.packet.send.stop");
}

#[test]
fn start_and_stop_key_predicates() {
    assert!(is_start_key("wifi.scan.start"));
    assert!(!is_start_key("wifi.scan.stop"));
    assert!(!is_start_key("start"));
    assert!(is_stop_key("wifi.scan.stop"));
    assert!(!is_stop_key("wifi.scan.start"));
}

#[test]
fn switching_sessions_sends_stop_before_new_start() {
    let registry = init_bt_commands();
    let mut state = SessionState::new();
    let (chain, timer, log, settles) = harness(true);

    let r1 = send_action(&chain, &timer, &registry, &mut state, "wifi-scanner", "AA:BB", None);
    assert!(r1.is_ok());
    assert_eq!(state.active.as_deref(), Some("wifi.scan.start"));

    let r2 = send_action(&chain, &timer, &registry, &mut state, "ble-scanner", "AA:BB", None);
    assert!(r2.is_ok());
    let sends = log.borrow();
    let payloads: Vec<&str> = sends.iter().map(|(_, p)| p.as_str()).collect();
    assert_eq!(payloads, vec!["wifi.scan.start", "wifi.scan.stop", "ble.scan.start"]);
    assert_eq!(state.active.as_deref(), Some("ble.scan.start"));
    assert_eq!(*settles.borrow(), 1);
}

#[test]
fn restarting_same_session_sends_no_stop() {
    let registry = init_bt_commands();
    let mut state = SessionState::new();
    let (chain, timer, log, settles) = harness(true);

    send_action(&chain, &timer, &registry, &mut state, "wifi-scanner", "AA:BB", None).unwrap();
    send_action(&chain, &timer, &registry, &mut state, "wifi-scanner", "AA:BB", None).unwrap();

    let sends = log.borrow();
    let payloads: Vec<&str> = sends.iter().map(|(_, p)| p.as_str()).collect();
    assert_eq!(payloads, vec!["wifi.scan.start", "wifi.scan.start"]);
    assert_eq!(state.active.as_deref(), Some("wifi.scan.start"));
    assert_eq!(*settles.borrow(), 0);
}

#[test]
fn unknown_action_is_rejected_without_any_send() {
    let registry = init_bt_commands();
    let mut state = SessionState::new();
    let (chain, timer, log, _settles) = harness(true);

    let r = send_action(
        &chain,
        &timer,
        &registry,
        &mut state,
        "does-not-exist",
        "AA:BB",
        None,
    );
    assert_eq!(r, Err("unknown_action:does-not-exist".to_string()));
    assert!(log.borrow().is_empty());
    assert!(state.active.is_none());
}

#[test]
fn matching_stop_clears_active_session() {
    let registry = init_bt_commands();
    let mut state = SessionState::new();
    let (chain, timer, _log, _settles) = harness(true);

    send_action(&chain, &timer, &registry, &mut state, "wifi-scanner", "AA:BB", None).unwrap();
    assert_eq!(state.active.as_deref(), Some("wifi.scan.start"));
    send_action(&chain, &timer, &registry, &mut state, "wifi-scan-stop", "AA:BB", None).unwrap();
    assert!(state.active.is_none());
}

#[test]
fn unrelated_stop_keeps_active_session() {
    let registry = init_bt_commands();
    let mut state = SessionState::new();
    let (chain, timer, _log, _settles) = harness(true);

    send_action(&chain, &timer, &registry, &mut state, "wifi-scanner", "AA:BB", None).unwrap();
    send_action(&chain, &timer, &registry, &mut state, "ble-scan-stop", "AA:BB", None).unwrap();
    assert_eq!(state.active.as_deref(), Some("wifi.scan.start"));
}

#[test]
fn exhausted_transports_yield_terminal_error() {
    let registry = init_bt_commands();
    let mut state = SessionState::new();
    let (chain, timer, _log, _settles) = harness(false);

    let r = send_action(&chain, &timer, &registry, &mut state, "battery", "AA:BB", None);
    assert_eq!(
        r,
        Err("all_transports_failed_or_unsupported:battery.info@AA:BB".to_string())
    );
    assert!(state.active.is_none());
}

#[test]
fn failed_start_does_not_record_a_session() {
    let registry = init_bt_commands();
    let mut state = SessionState::new();
    let (chain, timer, _log, _settles) = harness(false);

    let r = send_action(&chain, &timer, &registry, &mut state, "wifi-scanner", "AA:BB", None);
    assert!(r.is_err());
    assert!(state.active.is_none());
}

#[test]
fn parameterized_command_is_sent_as_json_envelope() {
    let registry = init_bt_commands();
    let mut state = SessionState::new();
    let (chain, timer, log, _settles) = harness(true);

    send_action(
        &chain,
        &timer,
        &registry,
        &mut state,
        "wifi-scanner",
        "AA:BB",
        Some("{\"duration_seconds\":5}".to_string()),
    )
    .unwrap();
    let sends = log.borrow();
    assert_eq!(
        sends[0].1,
        "{\"command\":\"wifi.scan.start\",\"params\":{\"duration_seconds\":5}}"
    );
}

#[test]
fn fallback_chain_tries_transports_in_order() {
    let log = Rc::new(RefCell::new(Vec::new()));
    let chain = TransportChain {
        transports: vec![
            RecordingTransport { log: log.clone(), succeed: false },
            RecordingTransport { log: log.clone(), succeed: true },
            RecordingTransport { log: log.clone(), succeed: true },
        ],
    };
    let r = chain.send_with_fallback("AA:BB", "battery.info");
    assert_eq!(r, Ok("sent:battery.info@AA:BB".to_string()));
    // the first transport failed, the second succeeded, the third was never
    // tried
    assert_eq!(log.borrow().len(), 2);
}

#[test]
fn empty_transport_chain_fails_with_terminal_error() {
    let chain: TransportChain<RecordingTransport> = TransportChain { transports: vec![] };
    let r = chain.send_with_fallback("AA:BB", "battery.info");
    assert_eq!(
        r,
        Err("all_transports_failed_or_unsupported:battery.info@AA:BB".to_string())
    );
}
