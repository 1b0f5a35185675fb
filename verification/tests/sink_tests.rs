use std::collections::HashMap;

use sharkos_bridge::decode::decode_message;
use sharkos_bridge::record::{csv_header, csv_row, TelemetryRecord};
use sharkos_bridge::sink::{module_filename, CsvSink, RowPlan};

/// The in-memory image of the channel files: what the ingestion loop's
/// writes leave on disk.
struct FileModel {
    files: HashMap<String, String>,
}

impl FileModel {
    fn new() -> FileModel {
        FileModel { files: HashMap::new() }
    }

    fn apply(&mut self, plan: &RowPlan) {
        if plan.reopen {
            let mut fresh = String::from(csv_header());
            fresh.push('\n');
            self.files.insert(plan.filename.clone(), fresh);
        }
        let f = self.files.get_mut(&plan.filename).expect("file must be open");
        f.push_str(&plan.row);
    }

    fn data_lines(&self, name: &str) -> Vec<String> {
        let content = &self.files[name];
        content.lines().skip(1).map(|l| l.to_string()).collect()
    }
}

fn record(module: i64, ts: u64) -> TelemetryRecord {
    TelemetryRecord {
        timestamp_ms: ts,
        module,
        frequency_fixed6: "0.000000".to_string(),
        rssi: 0,
        payload_b64: String::new(),
        extra: String::new(),
    }
}

#[test]
fn filenames_are_fixed_per_module() {
    assert_eq!(module_filename(3), "sharkos_radio_3.csv");
    assert_eq!(module_filename(-1), "sharkos_radio_-1.csv");
    assert_eq!(module_filename(0), "sharkos_radio_0.csv");
}

#[test]
fn header_names_the_six_fields_in_order() {
    assert_eq!(
        csv_header(),
        "timestamp_ms,module,frequency_mhz,rssi,payload_base64,extra"
    );
}

#[test]
fn csv_row_renders_all_fields() {
    let mut r = record(3, 123);
    r.frequency_fixed6 = "433.919983".to_string();
    r.rssi = -5;
    r.payload_b64 = "AQI=".to_string();
    r.extra = "multi\nline".to_string();
    assert_eq!(csv_row(&r), "123,3,433.919983,-5,AQI=,multi line\n");
}

#[test]
fn batch_appends_three_rows_in_order_with_reopen_between_modules() {
    let msg = "{\"type\":\"radio-batch\",\"signals\":[{\"module\":1,\"timestamp_ms\":10},{\"module\":2,\"timestamp_ms\":20},{\"module\":2,\"timestamp_ms\":30}]}";
    let recs = decode_message(msg, 0);
    assert_eq!(recs.len(), 3);

    let mut sink = CsvSink::new();
    let plans = sink.append_all(&recs);
    assert_eq!(plans.len(), 3);
    assert!(plans[0].reopen); // nothing was open
    assert!(plans[1].reopen); // module 1 -> 2
    assert!(!plans[2].reopen); // module stays 2

    let mut model = FileModel::new();
    for p in &plans {
        model.apply(p);
    }
    assert_eq!(
        model.data_lines("sharkos_radio_1.csv"),
        vec!["10,1,0.000000,0,,".to_string()]
    );
    assert_eq!(
        model.data_lines("sharkos_radio_2.csv"),
        vec!["20,2,0.000000,0,,".to_string(), "30,2,0.000000,0,,".to_string()]
    );
}

#[test]
fn same_module_batch_keeps_one_file_open() {
    let recs = vec![record(5, 1), record(5, 2), record(5, 3)];
    let mut sink = CsvSink::new();
    let plans = sink.append_all(&recs);
    assert!(plans[0].reopen);
    assert!(!plans[1].reopen);
    assert!(!plans[2].reopen);
    assert_eq!(sink.current_module, Some(5));
}

#[test]
fn thousand_alternating_records_never_mix_files() {
    let mut sink = CsvSink::new();
    let mut model = FileModel::new();
    for i in 0..1000u64 {
        let module = if i % 2 == 0 { 7 } else { 8 };
        let plan = sink.append(&record(module, i));
        assert_eq!(plan.module, module);
        model.apply(&plan);
        // after every single write, each file holds only rows of its own
        // module, with the header first
        for (m, name) in [(7i64, "sharkos_radio_7.csv"), (8, "sharkos_radio_8.csv")] {
            if !model.files.contains_key(name) {
                continue;
            }
            for line in model.data_lines(name) {
                let fields: Vec<&str> = line.split(',').collect();
                assert_eq!(fields[1], m.to_string(), "row in wrong file: {}", line);
            }
        }
    }
    // alternating modules truncate on every switch: each file ends up with
    // exactly the last row written to it
    assert_eq!(model.data_lines("sharkos_radio_7.csv").len(), 1);
    assert_eq!(model.data_lines("sharkos_radio_8.csv").len(), 1);
    assert_eq!(model.data_lines("sharkos_radio_7.csv")[0], "998,7,0.000000,0,,");
    assert_eq!(model.data_lines("sharkos_radio_8.csv")[0], "999,8,0.000000,0,,");
}

#[test]
fn long_runs_accumulate_contiguous_rows() {
    let mut sink = CsvSink::new();
    let mut model = FileModel::new();
    for i in 0..10u64 {
        model.apply(&sink.append(&record(7, i)));
    }
    for i in 10..15u64 {
        model.apply(&sink.append(&record(8, i)));
    }
    assert_eq!(model.data_lines("sharkos_radio_7.csv").len(), 10);
    assert_eq!(model.data_lines("sharkos_radio_8.csv").len(), 5);
    for (i, line) in model.data_lines("sharkos_radio_7.csv").iter().enumerate() {
        assert!(line.starts_with(&format!("{},7,", i)));
    }
}
