use dsk::killer::{is_excluded, is_target, scan_streaming, KillResult};
use dsk::paths::join_path;
use dsk::text::{contains_str, parse_u64, starts_with, u64_to_string};

#[test]
fn test_is_target() {
    assert!(is_target(".DS_Store"));
    assert!(is_target("/a/b/.DS_Store"));
    assert!(!is_target("file.txt"));
    assert!(!is_target(".DS_Store.bak"));
}

#[test]
fn test_is_excluded() {
    let ex: Vec<String> = vec!["node_modules".into(), ".git".into()];
    assert!(is_excluded("/a/node_modules/.DS_Store", &ex));
    assert!(is_excluded("/a/.git/objects", &ex));
    assert!(!is_excluded("/a/src/.DS_Store", &ex));
}

#[test]
fn test_kill_result_display() {
    let r = KillResult { found: 0, deleted: 0, duration_ms: 0 };
    assert_eq!(r.to_message(), "No .DS_Store files found");

    let r = KillResult { found: 5, deleted: 0, duration_ms: 0 };
    assert_eq!(r.to_message(), "Found 5 .DS_Store file(s)");

    let r = KillResult { found: 5, deleted: 5, duration_ms: 0 };
    assert_eq!(r.to_message(), "Deleted 5 .DS_Store file(s)");
}

#[test]
fn test_shallow_scan_missing_dir() {
    let found = scan_streaming("/surely_absent_dsk_root_0b1c", false, &Vec::new());
    assert_eq!(found.len(), 0);
}

#[test]
fn test_recursive_scan_missing_dir() {
    let found = scan_streaming("/surely_absent_dsk_root_0b1c", true, &Vec::new());
    assert_eq!(found.len(), 0);
}

#[test]
fn test_join_path() {
    assert_eq!(join_path("a", ".DS_Store"), "a/.DS_Store");
    assert_eq!(join_path("a/", ".DS_Store"), "a/.DS_Store");
    assert_eq!(join_path("", "x"), "x");
    assert_eq!(join_path("/", "x"), "/x");
}

#[test]
fn test_contains_and_prefix() {
    assert!(contains_str("/a/node_modules/x", "node_modules"));
    assert!(!contains_str("/a/nodemodules/x", "node_modules"));
    assert!(contains_str("abc", ""));
    assert!(starts_with("/home/u/d", "/home/u"));
    assert!(!starts_with("/hom", "/home"));
}

#[test]
fn test_decimal_codec() {
    assert_eq!(u64_to_string(0), "0");
    assert_eq!(u64_to_string(3600), "3600");
    assert_eq!(u64_to_string(u64::MAX), "18446744073709551615");
    assert_eq!(parse_u64("0"), Some(0));
    assert_eq!(parse_u64("1234567890"), Some(1234567890));
    assert_eq!(parse_u64("18446744073709551615"), Some(u64::MAX));
    assert_eq!(parse_u64("18446744073709551616"), None);
    assert_eq!(parse_u64(""), None);
    assert_eq!(parse_u64("12x"), None);
    assert_eq!(parse_u64("-3"), None);
}
