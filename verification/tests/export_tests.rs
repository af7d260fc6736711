use json_export::export::{choose_destination, export, report_outcome, DialogChoice, ExportError};
use json_export::filename::{default_file_name, u64_to_decimal};
use json_export::store::FileStore;

#[test]
fn export_writes_payload_and_returns_path() {
    let mut store = FileStore::new();
    let payload = "{\"elements\":[1,2,3]}";
    let r = export(&mut store, payload, DialogChoice::Selected("out.json".to_string()));
    assert_eq!(r, Ok("out.json".to_string()));
    let contents = store.read(&"out.json".to_string()).expect("the file must exist");
    assert_eq!(contents.as_slice(), payload.as_bytes());
}

#[test]
fn cancelled_dialog_reports_cancellation_and_writes_nothing() {
    let mut store = FileStore::new();
    let r = export(&mut store, "data", DialogChoice::Cancelled);
    assert_eq!(r, Err(ExportError::Cancelled));
    assert!(store.read(&"data".to_string()).is_none());
    assert!(store.read(&"".to_string()).is_none());
}

#[test]
fn default_file_name_is_timestamp_digits_then_json() {
    assert_eq!(default_file_name(0), "0.json");
    assert_eq!(default_file_name(1700000000), "1700000000.json");
    assert_eq!(default_file_name(u64::MAX), "18446744073709551615.json");
    let name = default_file_name(90210);
    assert!(name.ends_with(".json"));
    let digits = &name[..name.len() - 5];
    assert!(!digits.is_empty());
    assert!(digits.chars().all(|c| c.is_ascii_digit()));
}

#[test]
fn default_file_name_digits_follow_the_clock() {
    let earlier = default_file_name(1700000000);
    let later = default_file_name(1700000001);
    let e: u64 = earlier.strip_suffix(".json").unwrap().parse().unwrap();
    let l: u64 = later.strip_suffix(".json").unwrap().parse().unwrap();
    assert!(e <= l);
    assert_eq!(e, 1700000000);
    assert_eq!(l, 1700000001);
}

#[test]
fn repeated_export_overwrites_rather_than_appends() {
    let mut store = FileStore::new();
    let r1 = export(&mut store, "payload", DialogChoice::Selected("notes.json".to_string()));
    assert_eq!(r1, Ok("notes.json".to_string()));
    assert_eq!(store.read(&"notes.json".to_string()).unwrap().as_slice(), b"payload");
    let r2 = export(&mut store, "payload", DialogChoice::Selected("notes.json".to_string()));
    assert_eq!(r2, Ok("notes.json".to_string()));
    let contents = store.read(&"notes.json".to_string()).unwrap();
    assert_eq!(contents.as_slice(), b"payload");
    assert_eq!(contents.len(), "payload".len());
}

#[test]
fn read_back_yields_exactly_the_payload_bytes() {
    let mut store = FileStore::new();
    let payload = "{\"name\":\"caf\u{e9}\",\"n\":42}";
    let r = export(&mut store, payload, DialogChoice::Selected("roundtrip.json".to_string()));
    let path = r.unwrap();
    let contents = store.read(&path).unwrap();
    assert_eq!(contents.as_slice(), payload.as_bytes());
}

#[test]
fn empty_payload_gives_empty_file() {
    let mut store = FileStore::new();
    let r = export(&mut store, "", DialogChoice::Selected("empty.json".to_string()));
    assert_eq!(r, Ok("empty.json".to_string()));
    let contents = store.read(&"empty.json".to_string()).unwrap();
    assert!(contents.is_empty());
}

#[test]
fn choose_destination_passes_path_and_maps_cancellation() {
    let chosen = choose_destination(DialogChoice::Selected("p.json".to_string()));
    assert_eq!(chosen, Ok("p.json".to_string()));
    let cancelled = choose_destination(DialogChoice::Cancelled);
    assert_eq!(cancelled, Err(ExportError::Cancelled));
}

#[test]
fn report_outcome_distinguishes_io_failure() {
    assert_eq!(report_outcome("p.json".to_string(), true), Ok("p.json".to_string()));
    assert_eq!(report_outcome("p.json".to_string(), false), Err(ExportError::Io));
}

#[test]
fn error_messages_are_distinct_and_human_readable() {
    assert_eq!(ExportError::Cancelled.message(), "export was cancelled");
    assert_eq!(ExportError::Io.message(), "file could not be written");
}

#[test]
fn decimal_rendering_matches_expected_values() {
    assert_eq!(u64_to_decimal(0), "0");
    assert_eq!(u64_to_decimal(7), "7");
    assert_eq!(u64_to_decimal(10), "10");
    assert_eq!(u64_to_decimal(90210), "90210");
    assert_eq!(u64_to_decimal(u64::MAX), "18446744073709551615");
}

#[test]
fn store_reads_only_what_was_written() {
    let mut store = FileStore::new();
    assert!(store.read(&"a.json".to_string()).is_none());
    store.write("a.json".to_string(), vec![1, 2, 3]);
    store.write("b.json".to_string(), vec![4]);
    assert_eq!(store.read(&"a.json".to_string()).unwrap().as_slice(), &[1, 2, 3]);
    assert_eq!(store.read(&"b.json".to_string()).unwrap().as_slice(), &[4]);
    assert!(store.read(&"c.json".to_string()).is_none());
}
