use pep_tracker::colors::color_of;
use pep_tracker::colors::colorize;
use pep_tracker::diff::diff;
use pep_tracker::error::Error;
use pep_tracker::pass::run_pass;
use pep_tracker::snapshot::keys_are_unique;
use pep_tracker::snapshot::Snapshot;
use pep_tracker::store::load;
use pep_tracker::store::load_or_empty;

fn snap(pairs: &[(&str, &str)]) -> Snapshot {
    let entries: Vec<(String, String)> = pairs
        .iter()
        .map(|(k, v)| (k.to_string(), v.to_string()))
        .collect();
    Snapshot::capture(entries, Some(0)).unwrap()
}

#[test]
fn diff_of_snapshot_with_itself_is_empty() {
    let s = snap(&[("P1", "Draft"), ("P2", "Final"), ("P3", "Withdrawn")]);
    let d = diff(&s, &s);
    assert_eq!(d.len(), 0);
    assert!(d.changes.is_empty());
}

#[test]
fn diff_reports_changes_and_additions() {
    let previous = snap(&[("P1", "Draft")]);
    let current = snap(&[("P1", "Final"), ("P2", "Draft")]);
    let d = diff(&previous, &current);
    assert_eq!(d.len(), 2);
    assert_eq!(d.get("P1").map(|s| s.as_str()), Some("Final"));
    assert_eq!(d.get("P2").map(|s| s.as_str()), Some("Draft"));
}

#[test]
fn diff_of_equal_contents_is_empty() {
    let previous = snap(&[("P1", "Draft")]);
    let current = snap(&[("P1", "Draft")]);
    let d = diff(&previous, &current);
    assert_eq!(d.len(), 0);
    assert!(d.get("P1").is_none());
}

#[test]
fn diff_does_not_report_removed_entries() {
    let previous = snap(&[("P1", "Draft"), ("P2", "Final")]);
    let current = snap(&[("P1", "Draft")]);
    let d = diff(&previous, &current);
    assert_eq!(d.len(), 0);
}

#[test]
fn serialize_then_deserialize_restores_entries() {
    let s = snap(&[("P1", "Draft"), ("P2", "Final"), ("Z", "Provisional")]);
    let text = s.serialize();
    let back = Snapshot::deserialize(&text).unwrap();
    assert_eq!(back.entries.len(), s.entries.len());
    for (key, status) in &s.entries {
        assert_eq!(back.get(key).map(|v| v.as_str()), Some(status.as_str()));
    }
}

#[test]
fn serialize_produces_canonical_document() {
    let s = snap(&[("P1", "Draft")]);
    assert_eq!(s.serialize(), "{\"P1\":\"Draft\"}");
    let two = snap(&[("b", "x"), ("a", "y")]);
    assert_eq!(two.serialize(), "{\"a\":\"y\",\"b\":\"x\"}");
    let none = snap(&[]);
    assert_eq!(none.serialize(), "{}");
}

#[test]
fn load_of_missing_store_is_not_an_error_for_the_pass() {
    let loaded = load_or_empty(None).unwrap();
    assert!(loaded.entries.is_empty());
}

#[test]
fn load_of_missing_store_is_not_found() {
    assert_eq!(load(None).unwrap_err(), Error::NotFound);
}

#[test]
fn load_of_truncated_document_is_malformed_data() {
    assert_eq!(
        load(Some("{\"P1\": \"Dra")).unwrap_err(),
        Error::MalformedData
    );
    assert_eq!(
        load_or_empty(Some("{\"P1\": \"Dra")).unwrap_err(),
        Error::MalformedData
    );
}

#[test]
fn load_of_non_string_statuses_is_malformed_data() {
    assert_eq!(load(Some("{\"P1\": 3}")).unwrap_err(), Error::MalformedData);
    assert_eq!(load(Some("[1, 2]")).unwrap_err(), Error::MalformedData);
    assert_eq!(load(Some("not json")).unwrap_err(), Error::MalformedData);
}

#[test]
fn load_of_non_canonical_document_still_parses() {
    let loaded = load(Some("{ \"P1\" : \"Draft\" }")).unwrap();
    assert_eq!(loaded.get("P1").map(|s| s.as_str()), Some("Draft"));
    assert_eq!(loaded.entries.len(), 1);
}

#[test]
fn capture_without_timestamp_reads_the_clock_without_failing() {
    let s = Snapshot::capture(vec![("P1".to_string(), "Draft".to_string())], None).unwrap();
    assert_eq!(s.get("P1").map(|v| v.as_str()), Some("Draft"));
}

#[test]
fn load_of_valid_document_restores_entries() {
    let loaded = load(Some("{\"P1\": \"Draft\", \"P2\": \"Final\"}")).unwrap();
    assert_eq!(loaded.get("P1").map(|s| s.as_str()), Some("Draft"));
    assert_eq!(loaded.get("P2").map(|s| s.as_str()), Some("Final"));
    assert_eq!(loaded.entries.len(), 2);
}

#[test]
fn color_of_is_defined_for_every_recognized_status() {
    assert_eq!(color_of("Accepted"), "&2");
    assert_eq!(color_of("Active"), "&a");
    assert_eq!(color_of("Deferred"), "&6");
    assert_eq!(color_of("Draft"), "&8");
    assert_eq!(color_of("Final"), "&1");
    assert_eq!(color_of("Provisional"), "&5");
    assert_eq!(color_of("Rejected"), "&4");
    assert_eq!(color_of("Replaced"), "&e");
    assert_eq!(color_of("Withdrawn"), "&d");
}

#[test]
fn color_of_unrecognized_status_falls_back() {
    assert_eq!(color_of("April Fool!"), "&7");
    assert_eq!(color_of(""), "&7");
}

#[test]
fn colorize_annotates_each_change_in_order() {
    let previous = snap(&[("P1", "Draft")]);
    let current = snap(&[("P1", "Final"), ("P2", "Draft")]);
    let d = diff(&previous, &current);
    let report = colorize(&d);
    assert_eq!(report.len(), 2);
    for (i, (id, status, color)) in report.iter().enumerate() {
        assert_eq!(id, &d.changes[i].0);
        assert_eq!(status, &d.changes[i].1);
        assert_eq!(color.as_str(), color_of(status));
    }
}

#[test]
fn capture_rejects_repeated_identifiers() {
    let entries = vec![
        ("P1".to_string(), "Draft".to_string()),
        ("P1".to_string(), "Final".to_string()),
    ];
    assert!(!keys_are_unique(&entries));
    assert_eq!(
        Snapshot::capture(entries, None).unwrap_err(),
        Error::MalformedData
    );
}

#[test]
fn capture_records_the_supplied_timestamp() {
    let s = Snapshot::capture(vec![("P1".to_string(), "Draft".to_string())], Some(42)).unwrap();
    assert_eq!(s.captured_at, 42);
    assert_eq!(s.get("P1").map(|v| v.as_str()), Some("Draft"));
    assert!(s.get("P2").is_none());
}

#[test]
fn pass_reports_changes_and_hands_out_the_new_document() {
    let fetched = snap(&[("P1", "Final"), ("P2", "Draft")]);
    let outcome = run_pass(Some("{\"P1\":\"Draft\"}"), &fetched).unwrap();
    assert_eq!(outcome.changes.len(), 2);
    assert_eq!(outcome.changes.get("P1").map(|s| s.as_str()), Some("Final"));
    assert_eq!(outcome.changes.get("P2").map(|s| s.as_str()), Some("Draft"));
    assert_eq!(outcome.report.len(), 2);
    assert_eq!(outcome.persist_text, "{\"P1\":\"Final\",\"P2\":\"Draft\"}");
}

#[test]
fn pass_on_first_run_reports_every_entry_as_new() {
    let fetched = snap(&[("P1", "Draft")]);
    let outcome = run_pass(None, &fetched).unwrap();
    assert_eq!(outcome.changes.len(), 1);
    assert_eq!(outcome.changes.get("P1").map(|s| s.as_str()), Some("Draft"));
}

#[test]
fn pass_aborts_on_corrupt_store_and_persists_nothing() {
    let fetched = snap(&[("P1", "Draft")]);
    let err = run_pass(Some("{\"P1\": \"Dra"), &fetched).unwrap_err();
    assert_eq!(err, Error::MalformedData);
}
