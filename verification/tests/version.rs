use server_bootstrap::version::needs_extraction;

fn version() -> String {
    "2.3.0".to_string()
}

#[test]
fn up_to_date_when_marker_matches_and_entry_point_exists() {
    assert!(!needs_extraction(true, &Some("2.3.0".to_string()), &version()));
}

#[test]
fn missing_entry_point_asks_for_extraction() {
    assert!(needs_extraction(false, &Some("2.3.0".to_string()), &version()));
    assert!(needs_extraction(false, &None, &version()));
}

#[test]
fn unreadable_marker_asks_for_extraction() {
    assert!(needs_extraction(true, &None, &version()));
}

#[test]
fn any_other_marker_asks_for_extraction() {
    for marker in ["2.2.9", "2.3.0 ", "2.3.0\n", " 2.3.0", "2.3", "", "2.3.00"] {
        assert!(needs_extraction(true, &Some(marker.to_string()), &version()));
    }
}
