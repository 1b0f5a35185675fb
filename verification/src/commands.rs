//! The canonical catalog of device commands.
//!
//! The catalog maps each command key to a human-readable contract (a
//! description of what the device-side implementation does and which
//! parameters it accepts). It is built once, never mutated, and is the single
//! source of truth for which command keys are valid.

use vstd::prelude::*;
use crate::session::{spec_is_start_key, spec_stop_key};

verus! {

/// One immutable catalog entry: a dot-namespaced command key and its
/// human-readable contract.
pub struct Command {
    pub key: String,
    pub description: String,
}

impl View for Command {
    type V = (Seq<char>, Seq<char>);

    open spec fn view(&self) -> (Seq<char>, Seq<char>) {
        (self.key@, self.description@)
    }
}

/// The read-only, enumerable command catalog.
pub struct CommandRegistry {
    pub commands: Vec<Command>,
}

impl View for CommandRegistry {
    type V = Seq<(Seq<char>, Seq<char>)>;

    open spec fn view(&self) -> Seq<(Seq<char>, Seq<char>)> {
        self.commands@.map_values(|c: Command| c@)
    }
}

/// First-match lookup of `key` in a sequence of catalog entries.
pub open spec fn spec_lookup(
    entries: Seq<(Seq<char>, Seq<char>)>,
    key: Seq<char>,
) -> Option<Seq<char>>
    decreases entries.len(),
{
    if entries.len() == 0 {
        None
    } else if entries[0].0 == key {
        Some(entries[0].1)
    } else {
        spec_lookup(entries.drop_first(), key)
    }
}

/// A key that stands at some position of the entries is found by the
/// lookup.
pub proof fn lemma_lookup_some_of_member(
    entries: Seq<(Seq<char>, Seq<char>)>,
    i: int,
    key: Seq<char>,
)
    requires
        0 <= i < entries.len(),
        entries[i].0 == key,
    ensures
        spec_lookup(entries, key) is Some,
    decreases i,
{
    if entries[0].0 != key {
        assert(entries.drop_first()[i - 1] == entries[i]);
        lemma_lookup_some_of_member(entries.drop_first(), i - 1, key);
    }
}

/// A found key stands at some position of the entries.
pub proof fn lemma_lookup_member(entries: Seq<(Seq<char>, Seq<char>)>, key: Seq<char>)
    requires
        spec_lookup(entries, key) is Some,
    ensures
        exists|i: int| 0 <= i < entries.len() && #[trigger] entries[i].0 == key,
    decreases entries.len(),
{
    if entries[0].0 == key {
        assert(entries[0].0 == key);
    } else {
        lemma_lookup_member(entries.drop_first(), key);
        let j = choose|j: int|
            0 <= j < entries.drop_first().len() && #[trigger] entries.drop_first()[j].0 == key;
        assert(entries[j + 1].0 == key);
    }
}

fn cmd(key: &str, description: &str) -> (c: Command)
    ensures
        c@ == (key@, description@),
{
    Command { key: String::from_str(key), description: String::from_str(description) }
}

/// The whole catalog as a mathematical sequence of (key, description) pairs.
pub open spec fn spec_bt_commands() -> Seq<(Seq<char>, Seq<char>)> {
    seq![
        ("ble.scan.start"@,
            "Start BLE advertisement scan. Params: { duration_seconds: int (default 5), active: bool (default true), name_filter: string (optional), rssi_threshold: int (optional) }"@),
        ("ble.scan.stop"@, "Stop BLE scanning immediately. No params."@),
        ("wifi.scan.start"@,
            "Start Wi\u{2011}Fi network scan. Params: { duration_seconds: int (device-dependent), channel: int (optional), passive: bool (optional), ssid_filter: string (optional) }"@),
        ("wifi.scan.stop"@, "Stop any ongoing Wi\u{2011}Fi scan. No params."@),
        ("wifi.sniffer.start"@,
            "Start Wi\u{2011}Fi promiscuous packet capture. Params: { channel: int | 'hop', hop_interval_ms: int (if hop), filter: ['mgmt','data','ctrl'] (optional), max_packets: int (optional) }"@),
        ("wifi.sniffer.stop"@,
            "Stop Wi\u{2011}Fi packet sniffer and flush/send collected data. No params."@),
        ("nrf.scan.start"@,
            "Start nRF/2.4GHz channel scan. Params: { channel_start: int, channel_end: int, samples_per_channel: int (optional), dwell_ms: int (optional) }"@),
        ("nrf.scan.stop"@, "Stop nRF scanning and return aggregated results. No params."@),
        ("subghz.read.start"@,
            "Start sub\u{2011}GHz receiver (CC1101/LoRa). Params: { frequency_khz: int, modulation: string (eg. 'OOK','FSK','LoRa'), bandwidth_khz: int (optional), sample_rate: int (optional) }"@),
        ("subghz.read.stop"@, "Stop sub\u{2011}GHz receiver. No params."@),
        ("subghz.record.start"@,
            "Begin recording raw sub\u{2011}GHz samples to local buffer. Params: { duration_ms: int (optional) }"@),
        ("subghz.record.stop"@, "Stop recording and save buffer. No params."@),
        ("subghz.playback.start"@,
            "Play back a recorded sub\u{2011}GHz sample. Params: { id: int (recording id), repeats: int (optional) }"@),
        ("subghz.playback.stop"@, "Stop playback. No params."@),
        ("subghz.packet.send"@,
            "Send a custom sub\u{2011}GHz packet. Params: { frequency_khz: int, modulation: string, payload: string }"@),
        ("subghz.disruptor.start"@,
            "Start continuous noise/jamming on given frequency. Params: { frequency_khz: int, power_dbm: int (optional) }"@),
        ("subghz.disruptor.stop"@, "Stop disruptor. No params."@),
        ("oscilloscope.start"@,
            "Start ADC sampling stream. Params: { pin: int (ADC pin), sample_rate_hz: int, buffer_size: int (samples), trigger: object (optional) }"@),
        ("oscilloscope.stop"@, "Stop ADC sampling/oscilloscope stream. No params."@),
        ("i2c.scan.once"@,
            "Perform a single I2C bus scan. Params: { sda_pin: int (optional), scl_pin: int (optional), address_start: int (optional), address_end: int (optional) }"@),
        ("i2c.scan.start"@,
            "Begin periodic I2C scanning. Params: { interval_ms: int, address_range: [start,end] (optional) }"@),
        ("i2c.scan.stop"@, "Stop periodic I2C scanning. No params."@),
        ("nfc.poll.start"@,
            "Start polling for NFC tags. Params: { poll_interval_ms: int (optional) }"@),
        ("nfc.poll.stop"@, "Stop NFC polling. No params."@),
        ("sensor.stream.start"@,
            "Start sensor (accelerometer/gyro) streaming to host. Params: { sample_rate_hz: int (optional), sensors: ['accel','gyro','mag'] (optional) }"@),
        ("sensor.stream.stop"@, "Stop sensor streaming. No params."@),
        ("cell.scan.start"@,
            "Start cellular scan / cell-info polling. Params: { duration_seconds: int (optional), frequency_bands: array (optional) }"@),
        ("cell.scan.stop"@, "Stop cellular scanning. No params."@),
        ("sd.info"@, "Return SD card stats once. No params."@),
        ("files.list"@,
            "Return a listing of files on SD (path param optional). Params: { path: string (optional) }"@),
        ("ir.recv.start"@,
            "Begin IR receive/capture mode. Params: { timeout_ms: int (optional) }"@),
        ("ir.recv.stop"@, "Stop IR receive/capture. No params."@),
        ("list.paired.devices"@,
            "Return list of currently paired/bonded Bluetooth devices. No params."@),
        ("battery.info"@, "Return current battery percentage / state. No params."@),
        ("status.reporting.start"@,
            "Begin periodic status reporting (battery, uptime, memory). Params: { interval_ms: int (default 5000) }"@),
        ("status.reporting.stop"@, "Stop periodic status reporting. No params."@),
    ]
}

fn make_bt_command_map() -> (r: CommandRegistry)
    ensures
        r@ == spec_bt_commands(),
{
    let mut v: Vec<Command> = Vec::new();
    v.push(cmd(
        "ble.scan.start",
        "Start BLE advertisement scan. Params: { duration_seconds: int (default 5), active: bool (default true), name_filter: string (optional), rssi_threshold: int (optional) }",
    ));
    v.push(cmd("ble.scan.stop", "Stop BLE scanning immediately. No params."));
    v.push(cmd(
        "wifi.scan.start",
        "Start Wi\u{2011}Fi network scan. Params: { duration_seconds: int (device-dependent), channel: int (optional), passive: bool (optional), ssid_filter: string (optional) }",
    ));
    v.push(cmd("wifi.scan.stop", "Stop any ongoing Wi\u{2011}Fi scan. No params."));
    v.push(cmd(
        "wifi.sniffer.start",
        "Start Wi\u{2011}Fi promiscuous packet capture. Params: { channel: int | 'hop', hop_interval_ms: int (if hop), filter: ['mgmt','data','ctrl'] (optional), max_packets: int (optional) }",
    ));
    v.push(cmd(
        "wifi.sniffer.stop",
        "Stop Wi\u{2011}Fi packet sniffer and flush/send collected data. No params.",
    ));
    v.push(cmd(
        "nrf.scan.start",
        "Start nRF/2.4GHz channel scan. Params: { channel_start: int, channel_end: int, samples_per_channel: int (optional), dwell_ms: int (optional) }",
    ));
    v.push(cmd("nrf.scan.stop", "Stop nRF scanning and return aggregated results. No params."));
    v.push(cmd(
        "subghz.read.start",
        "Start sub\u{2011}GHz receiver (CC1101/LoRa). Params: { frequency_khz: int, modulation: string (eg. 'OOK','FSK','LoRa'), bandwidth_khz: int (optional), sample_rate: int (optional) }",
    ));
    v.push(cmd("subghz.read.stop", "Stop sub\u{2011}GHz receiver. No params."));
    v.push(cmd(
        "subghz.record.start",
        "Begin recording raw sub\u{2011}GHz samples to local buffer. Params: { duration_ms: int (optional) }",
    ));
    v.push(cmd("subghz.record.stop", "Stop recording and save buffer. No params."));
    v.push(cmd(
        "subghz.playback.start",
        "Play back a recorded sub\u{2011}GHz sample. Params: { id: int (recording id), repeats: int (optional) }",
    ));
    v.push(cmd("subghz.playback.stop", "Stop playback. No params."));
    v.push(cmd(
        "subghz.packet.send",
        "Send a custom sub\u{2011}GHz packet. Params: { frequency_khz: int, modulation: string, payload: string }",
    ));
    v.push(cmd(
        "subghz.disruptor.start",
        "Start continuous noise/jamming on given frequency. Params: { frequency_khz: int, power_dbm: int (optional) }",
    ));
    v.push(cmd("subghz.disruptor.stop", "Stop disruptor. No params."));
    v.push(cmd(
        "oscilloscope.start",
        "Start ADC sampling stream. Params: { pin: int (ADC pin), sample_rate_hz: int, buffer_size: int (samples), trigger: object (optional) }",
    ));
    v.push(cmd("oscilloscope.stop", "Stop ADC sampling/oscilloscope stream. No params."));
    v.push(cmd(
        "i2c.scan.once",
        "Perform a single I2C bus scan. Params: { sda_pin: int (optional), scl_pin: int (optional), address_start: int (optional), address_end: int (optional) }",
    ));
    v.push(cmd(
        "i2c.scan.start",
        "Begin periodic I2C scanning. Params: { interval_ms: int, address_range: [start,end] (optional) }",
    ));
    v.push(cmd("i2c.scan.stop", "Stop periodic I2C scanning. No params."));
    v.push(cmd(
        "nfc.poll.start",
        "Start polling for NFC tags. Params: { poll_interval_ms: int (optional) }",
    ));
    v.push(cmd("nfc.poll.stop", "Stop NFC polling. No params."));
    v.push(cmd(
        "sensor.stream.start",
        "Start sensor (accelerometer/gyro) streaming to host. Params: { sample_rate_hz: int (optional), sensors: ['accel','gyro','mag'] (optional) }",
    ));
    v.push(cmd("sensor.stream.stop", "Stop sensor streaming. No params."));
    v.push(cmd(
        "cell.scan.start",
        "Start cellular scan / cell-info polling. Params: { duration_seconds: int (optional), frequency_bands: array (optional) }",
    ));
    v.push(cmd("cell.scan.stop", "Stop cellular scanning. No params."));
    v.push(cmd("sd.info", "Return SD card stats once. No params."));
    v.push(cmd(
        "files.list",
        "Return a listing of files on SD (path param optional). Params: { path: string (optional) }",
    ));
    v.push(cmd(
        "ir.recv.start",
        "Begin IR receive/capture mode. Params: { timeout_ms: int (optional) }",
    ));
    v.push(cmd("ir.recv.stop", "Stop IR receive/capture. No params."));
    v.push(cmd(
        "list.paired.devices",
        "Return list of currently paired/bonded Bluetooth devices. No params.",
    ));
    v.push(cmd("battery.info", "Return current battery percentage / state. No params."));
    v.push(cmd(
        "status.reporting.start",
        "Begin periodic status reporting (battery, uptime, memory). Params: { interval_ms: int (default 5000) }",
    ));
    v.push(cmd("status.reporting.stop", "Stop periodic status reporting. No params."));
    let r = CommandRegistry { commands: v };
    proof {
        assert(r@ =~= spec_bt_commands());
    }
    r
}

/// Builds the command catalog. Construction is pure, so initializing again
/// yields an equal catalog: re-initialization is idempotent.
pub fn init_bt_commands() -> (r: CommandRegistry)
    ensures
        r@ == spec_bt_commands(),
{
    make_bt_command_map()
}

/// The command catalog (same contents on every call).
pub fn bt_command_map() -> (r: CommandRegistry)
    ensures
        r@ == spec_bt_commands(),
{
    init_bt_commands()
}

/// Law: the catalog is closed under derived stop keys. For every catalog
/// key ending in ".start", the stop key obtained by replacing that suffix
/// with ".stop" is itself a catalog key, so the automatic stop sent before a
/// conflicting start is always a valid command.
pub proof fn lemma_catalog_stop_key_closure(k: Seq<char>)
    requires
        spec_lookup(spec_bt_commands(), k) is Some,
        spec_is_start_key(k),
    ensures
        spec_lookup(spec_bt_commands(), spec_stop_key(k)) is Some,
{
    reveal_strlit(".start");
    reveal_strlit(".stop");
    reveal_strlit("ble.scan.start");
    reveal_strlit("ble.scan.stop");
    reveal_strlit("wifi.scan.start");
    reveal_strlit("wifi.scan.stop");
    reveal_strlit("wifi.sniffer.start");
    reveal_strlit("wifi.sniffer.stop");
    reveal_strlit("nrf.scan.start");
    reveal_strlit("nrf.scan.stop");
    reveal_strlit("subghz.read.start");
    reveal_strlit("subghz.read.stop");
    reveal_strlit("subghz.record.start");
    reveal_strlit("subghz.record.stop");
    reveal_strlit("subghz.playback.start");
    reveal_strlit("subghz.playback.stop");
    reveal_strlit("subghz.packet.send");
    reveal_strlit("subghz.disruptor.start");
    reveal_strlit("subghz.disruptor.stop");
    reveal_strlit("oscilloscope.start");
    reveal_strlit("oscilloscope.stop");
    reveal_strlit("i2c.scan.once");
    reveal_strlit("i2c.scan.start");
    reveal_strlit("i2c.scan.stop");
    reveal_strlit("nfc.poll.start");
    reveal_strlit("nfc.poll.stop");
    reveal_strlit("sensor.stream.start");
    reveal_strlit("sensor.stream.stop");
    reveal_strlit("cell.scan.start");
    reveal_strlit("cell.scan.stop");
    reveal_strlit("sd.info");
    reveal_strlit("files.list");
    reveal_strlit("ir.recv.start");
    reveal_strlit("ir.recv.stop");
    reveal_strlit("list.paired.devices");
    reveal_strlit("battery.info");
    reveal_strlit("status.reporting.start");
    reveal_strlit("status.reporting.stop");
    let cat = spec_bt_commands();
    lemma_lookup_member(cat, k);
    let i = choose|i: int| 0 <= i < cat.len() && #[trigger] cat[i].0 == k;
    // the ".start" suffix pins the last characters of `k`; a catalog key
    // that is not session-starting refutes the premise below
    let sfx = k.subrange(k.len() - 6, k.len() as int);
    assert(sfx[5] == k[k.len() - 1] && sfx[4] == k[k.len() - 2] && sfx[0] == k[k.len() - 6]);
    assert(".start"@[5] == 't' && ".start"@[4] == 'r' && ".start"@[0] == '.');
    assert(k[k.len() - 1] == 't' && k[k.len() - 2] == 'r' && k[k.len() - 6] == '.');
    if i == 0 {
        assert(spec_stop_key(k) =~= "ble.scan.stop"@);
        lemma_lookup_some_of_member(cat, 1, spec_stop_key(k));
    } else if i == 2 {
        assert(spec_stop_key(k) =~= "wifi.scan.stop"@);
        lemma_lookup_some_of_member(cat, 3, spec_stop_key(k));
    } else if i == 4 {
        assert(spec_stop_key(k) =~= "wifi.sniffer.stop"@);
        lemma_lookup_some_of_member(cat, 5, spec_stop_key(k));
    } else if i == 6 {
        assert(spec_stop_key(k) =~= "nrf.scan.stop"@);
        lemma_lookup_some_of_member(cat, 7, spec_stop_key(k));
    } else if i == 8 {
        assert(spec_stop_key(k) =~= "subghz.read.stop"@);
        lemma_lookup_some_of_member(cat, 9, spec_stop_key(k));
    } else if i == 10 {
        assert(spec_stop_key(k) =~= "subghz.record.stop"@);
        lemma_lookup_some_of_member(cat, 11, spec_stop_key(k));
    } else if i == 12 {
        assert(spec_stop_key(k) =~= "subghz.playback.stop"@);
        lemma_lookup_some_of_member(cat, 13, spec_stop_key(k));
    } else if i == 15 {
        assert(spec_stop_key(k) =~= "subghz.disruptor.stop"@);
        lemma_lookup_some_of_member(cat, 16, spec_stop_key(k));
    } else if i == 17 {
        assert(spec_stop_key(k) =~= "oscilloscope.stop"@);
        lemma_lookup_some_of_member(cat, 18, spec_stop_key(k));
    } else if i == 20 {
        assert(spec_stop_key(k) =~= "i2c.scan.stop"@);
        lemma_lookup_some_of_member(cat, 21, spec_stop_key(k));
    } else if i == 22 {
        assert(spec_stop_key(k) =~= "nfc.poll.stop"@);
        lemma_lookup_some_of_member(cat, 23, spec_stop_key(k));
    } else if i == 24 {
        assert(spec_stop_key(k) =~= "sensor.stream.stop"@);
        lemma_lookup_some_of_member(cat, 25, spec_stop_key(k));
    } else if i == 26 {
        assert(spec_stop_key(k) =~= "cell.scan.stop"@);
        lemma_lookup_some_of_member(cat, 27, spec_stop_key(k));
    } else if i == 30 {
        assert(spec_stop_key(k) =~= "ir.recv.stop"@);
        lemma_lookup_some_of_member(cat, 31, spec_stop_key(k));
    } else if i == 34 {
        assert(spec_stop_key(k) =~= "status.reporting.stop"@);
        lemma_lookup_some_of_member(cat, 35, spec_stop_key(k));
    } else {
        // every remaining catalog key ends in ".stop", ".send", ".once",
        // ".info", ".list" or ".devices": its last characters contradict
        // the ".start" suffix
        assert(false);
    }
}

/// Law: every target of the UI action table is a catalog key, so a
/// translated action is never rejected by the catalog validation.
pub proof fn lemma_translate_targets_in_catalog(a: Seq<char>)
    ensures
        match crate::actions::spec_translate(a) {
            Some(k) => spec_lookup(spec_bt_commands(), k) is Some,
            None => true,
        },
{
    let cat = spec_bt_commands();
    lemma_lookup_some_of_member(cat, 0, cat[0].0);
    lemma_lookup_some_of_member(cat, 1, cat[1].0);
    lemma_lookup_some_of_member(cat, 2, cat[2].0);
    lemma_lookup_some_of_member(cat, 3, cat[3].0);
    lemma_lookup_some_of_member(cat, 4, cat[4].0);
    lemma_lookup_some_of_member(cat, 5, cat[5].0);
    lemma_lookup_some_of_member(cat, 6, cat[6].0);
    lemma_lookup_some_of_member(cat, 7, cat[7].0);
    lemma_lookup_some_of_member(cat, 8, cat[8].0);
    lemma_lookup_some_of_member(cat, 9, cat[9].0);
    lemma_lookup_some_of_member(cat, 10, cat[10].0);
    lemma_lookup_some_of_member(cat, 12, cat[12].0);
    lemma_lookup_some_of_member(cat, 14, cat[14].0);
    lemma_lookup_some_of_member(cat, 15, cat[15].0);
    lemma_lookup_some_of_member(cat, 17, cat[17].0);
    lemma_lookup_some_of_member(cat, 18, cat[18].0);
    lemma_lookup_some_of_member(cat, 19, cat[19].0);
    lemma_lookup_some_of_member(cat, 26, cat[26].0);
    lemma_lookup_some_of_member(cat, 27, cat[27].0);
    lemma_lookup_some_of_member(cat, 28, cat[28].0);
    lemma_lookup_some_of_member(cat, 30, cat[30].0);
    lemma_lookup_some_of_member(cat, 31, cat[31].0);
    lemma_lookup_some_of_member(cat, 33, cat[33].0);
}

impl CommandRegistry {
    /// Looks `key` up in the catalog and returns its description.
    pub fn lookup(&self, key: &str) -> (r: Option<String>)
        ensures
            match r {
                Some(d) => spec_lookup(self@, key@) == Some(d@),
                None => spec_lookup(self@, key@) is None,
            },
    {
        let n = self.commands.len();
        let mut i: usize = 0;
        proof {
            assert(self@.skip(0) =~= self@);
        }
        while i < n
            invariant
                i <= n,
                n == self.commands.len(),
                spec_lookup(self@, key@) == spec_lookup(self@.skip(i as int), key@),
            decreases n - i,
        {
            proof {
                assert(self@.skip(i as int)[0] == self@[i as int]);
                assert(self@.skip(i as int).drop_first() =~= self@.skip(i + 1));
            }
            if crate::text::str_eq(self.commands[i].key.as_str(), key) {
                return Some(self.commands[i].description.clone());
            }
            i = i + 1;
        }
        proof {
            assert(self@.skip(n as int) =~= Seq::<(Seq<char>, Seq<char>)>::empty());
        }
        None
    }

    /// Whether `key` is a valid command key of the catalog.
    pub fn contains_key(&self, key: &str) -> (r: bool)
        ensures
            r == (spec_lookup(self@, key@) is Some),
    {
        let r = self.lookup(key);
        r.is_some()
    }
}

} // verus!
