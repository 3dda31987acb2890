use axiom_shell::fuel_budget;
use axiom_shell::marshal::{
    call_export_names, pages_to_grow, plain_export_names, read_guest_bytes, scan_nul,
};
use axiom_shell::runtime::{AttemptOutcome, classify_status};
use axiom_shell::textutil::{dash_to_underscore, str_starts_with, to_upper_ascii};

#[test]
fn every_call_starts_with_a_million_fuel() {
    assert_eq!(fuel_budget(), 1_000_000);
}

#[test]
fn scan_stops_at_the_first_nul() {
    let data = [b'h', b'i', 0, b'x', 0];
    assert_eq!(scan_nul(&data, 0), 2);
    assert_eq!(scan_nul(&data, 3), 4);
    // No NUL after the last one: the length comes back.
    let open = [1u8, 2, 3];
    assert_eq!(scan_nul(&open, 1), 3);
}

#[test]
fn guest_string_is_the_bytes_before_the_nul() {
    let data = [b'o', b'k', 0, b'z'];
    assert_eq!(read_guest_bytes(&data, 0), b"ok".to_vec());
    assert_eq!(read_guest_bytes(&data, 3), b"z".to_vec());
}

#[test]
fn guest_string_read_caps_at_one_page() {
    // An unterminated string is cut at the 64 KiB ceiling.
    let data = vec![7u8; 70_000];
    let r = read_guest_bytes(&data, 0);
    assert_eq!(r.len(), 65_536);
}

#[test]
fn growth_always_fits_the_string_and_its_nul() {
    assert_eq!(pages_to_grow(0), 1);
    assert_eq!(pages_to_grow(65_535), 1);
    assert_eq!(pages_to_grow(65_536), 2);
    assert!(pages_to_grow(100_000) * 65_536 >= 100_001);
}

#[test]
fn export_names_follow_the_search_order() {
    let typed = call_export_names("my-func");
    assert_eq!(typed, vec!["__axiom_call_my-func", "__axiom_call_my_func"]);
    let plain = plain_export_names("my-func");
    assert_eq!(plain, vec!["my-func", "my_func", "axiom_health_check"]);
}

#[test]
fn status_classes_follow_the_spec_ranges() {
    assert!(matches!(classify_status(200), AttemptOutcome::Success));
    assert!(matches!(classify_status(302), AttemptOutcome::Success));
    assert!(matches!(classify_status(404), AttemptOutcome::ClientError));
    assert!(matches!(classify_status(500), AttemptOutcome::ServerError));
    assert!(matches!(classify_status(503), AttemptOutcome::ServerError));
    assert!(matches!(classify_status(100), AttemptOutcome::ClientError));
}

#[test]
fn text_helpers_fold_and_test_prefixes() {
    assert_eq!(to_upper_ascii("blue"), "BLUE");
    assert_eq!(to_upper_ascii("Green-2"), "GREEN-2");
    assert_eq!(dash_to_underscore("a-b-c"), "a_b_c");
    assert!(str_starts_with("http://x", "http"));
    assert!(!str_starts_with("ftp://x", "http"));
    assert!(!str_starts_with("ht", "http"));
}
