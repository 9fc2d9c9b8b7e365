use nfc_probe::status::decimal_string;
use nfc_probe::{classify, NfcStatus, ProbeOutcome};

fn readers(names: &[&str]) -> ProbeOutcome {
    ProbeOutcome::Readers(names.iter().map(|n| n.to_string()).collect())
}

#[test]
fn empty_reader_list_reports_none() {
    let r: NfcStatus = classify(readers(&[]));
    assert_eq!(r.available, false);
    assert_eq!(r.message, "No NFC readers detected");
}

#[test]
fn one_reader_reports_found_one() {
    let r = classify(readers(&["ACS ACR122U 00 00"]));
    assert_eq!(r.available, true);
    assert_eq!(r.message, "Found 1 NFC reader(s)");
}

#[test]
fn five_readers_report_found_five() {
    let r = classify(readers(&["a", "b", "c", "d", "e"]));
    assert_eq!(r.available, true);
    assert_eq!(r.message, "Found 5 NFC reader(s)");
}

#[test]
fn twelve_readers_report_found_twelve() {
    let names: Vec<String> = (0..12).map(|i| format!("reader {}", i)).collect();
    let r = classify(ProbeOutcome::Readers(names));
    assert_eq!(r.available, true);
    assert_eq!(r.message, "Found 12 NFC reader(s)");
}

#[test]
fn session_failure_reports_context_error() {
    let r = classify(ProbeOutcome::SessionFailed(
        "the service is unavailable".to_string(),
    ));
    assert_eq!(r.available, false);
    assert!(r.message.contains("Failed to establish NFC context"));
    assert_eq!(
        r.message,
        "Failed to establish NFC context: the service is unavailable"
    );
}

#[test]
fn enumeration_failure_reports_list_error() {
    let r = classify(ProbeOutcome::EnumerationFailed(
        "insufficient buffer".to_string(),
    ));
    assert_eq!(r.available, false);
    assert!(r.message.contains("Failed to list readers"));
    assert_eq!(r.message, "Failed to list readers: insufficient buffer");
}

#[test]
fn available_iff_some_reader_was_enumerated() {
    assert!(!classify(ProbeOutcome::SessionFailed("x".to_string())).available);
    assert!(!classify(ProbeOutcome::EnumerationFailed("x".to_string())).available);
    assert!(!classify(readers(&[])).available);
    assert!(classify(readers(&["only one"])).available);
    assert!(classify(readers(&["one", "two"])).available);
}

#[test]
fn repeated_probe_of_unchanged_state_is_consistent() {
    let first = classify(readers(&["left", "right"]));
    let second = classify(readers(&["left", "right"]));
    assert_eq!(first.available, second.available);
    assert_eq!(first.message, second.message);

    let first = classify(ProbeOutcome::SessionFailed("down".to_string()));
    let second = classify(ProbeOutcome::SessionFailed("down".to_string()));
    assert_eq!(first.available, second.available);
    assert_eq!(first.message, second.message);
}

#[test]
fn decimal_rendering_is_exact() {
    assert_eq!(decimal_string(0), "0");
    assert_eq!(decimal_string(7), "7");
    assert_eq!(decimal_string(10), "10");
    assert_eq!(decimal_string(105), "105");
    assert_eq!(decimal_string(usize::MAX), usize::MAX.to_string());
}
