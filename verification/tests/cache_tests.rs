use dsk::cache::{
    cache_key, cache_path, check_cached, encode_entry, load_verified, parse_entry, save,
    CacheDecision, CacheEntry,
};

fn saved_lines(files: Vec<String>, now: u64, mtime: u64) -> Vec<String> {
    match save(false, &files, now, mtime) {
        Some(lines) => lines,
        None => panic!("shallow save must produce lines"),
    }
}

#[test]
fn test_cache_key_derivation() {
    assert_eq!(cache_key("/a/b", false), "_a_b_r0");
    assert_eq!(cache_key("/a/b", true), "_a_b_r1");
    assert_eq!(cache_key("plain", false), "plain_r0");
    assert_eq!(cache_path("/tmp/dsk-cache", "/a", true), "/tmp/dsk-cache/_a_r1");
}

#[test]
fn test_cache_round_trip_fresh() {
    let files: Vec<String> = vec!["/d/.DS_Store".into(), "/d/e/.DS_Store".into()];
    let lines = saved_lines(files.clone(), 1000, 555);
    match check_cached(false, Some(&lines), 1000, 555) {
        CacheDecision::Hit(stored) => assert_eq!(stored, files),
        _ => panic!("fresh entry must be a hit"),
    }
    // still within the TTL
    match check_cached(false, Some(&lines), 1000 + 3600, 555) {
        CacheDecision::Hit(stored) => assert_eq!(stored, files),
        _ => panic!("entry within the TTL must be a hit"),
    }
}

#[test]
fn test_cache_invalidation_mtime() {
    let lines = saved_lines(vec!["/d/.DS_Store".into()], 1000, 555);
    match check_cached(false, Some(&lines), 1001, 556) {
        CacheDecision::Stale => {}
        _ => panic!("changed fingerprint must be stale"),
    }
    let (loaded, remove) = load_verified(false, Some(&lines), 1001, 556);
    assert!(loaded.is_none(), "Cache should invalidate on dir change");
    assert!(remove);
}

#[test]
fn test_cache_ttl_expiry() {
    let lines = saved_lines(vec!["/d/.DS_Store".into()], 1000, 555);
    match check_cached(false, Some(&lines), 1000 + 3601, 555) {
        CacheDecision::Stale => {}
        _ => panic!("expired entry must be stale"),
    }
    // a clock that ran backwards counts as lapsed too
    match check_cached(false, Some(&lines), 999, 555) {
        CacheDecision::Stale => {}
        _ => panic!("entry from the future must be stale"),
    }
}

#[test]
fn test_cache_recursive_never_loads() {
    assert_eq!(save(true, &vec!["/d/.DS_Store".to_string()], 1000, 555), None);
    let lines = saved_lines(vec!["/d/.DS_Store".into()], 1000, 555);
    let (loaded, remove) = load_verified(true, Some(&lines), 1000, 555);
    assert!(loaded.is_none(), "Recursive cache should return None");
    assert!(!remove);
}

#[test]
fn test_cache_corrupt_is_miss() {
    let (loaded, remove) = load_verified(false, None, 1000, 555);
    assert!(loaded.is_none());
    assert!(!remove);

    let one_line: Vec<String> = vec!["1000".into()];
    assert!(matches!(check_cached(false, Some(&one_line), 1000, 555), CacheDecision::Miss));

    let bad_number: Vec<String> = vec!["10x0".into(), "555".into(), "/d/.DS_Store".into()];
    assert!(matches!(check_cached(false, Some(&bad_number), 1000, 555), CacheDecision::Miss));

    let bad_mtime: Vec<String> = vec!["1000".into(), "".into()];
    assert!(matches!(check_cached(false, Some(&bad_mtime), 1000, 555), CacheDecision::Miss));
}

#[test]
fn test_cache_file_verification() {
    // "/" exists on every system this runs on; the other path does not.
    let files: Vec<String> = vec!["/".into(), "/surely_absent_dsk_entry_4f2a".into()];
    let lines = saved_lines(files, 1000, 555);
    let (loaded, remove) = load_verified(false, Some(&lines), 1000, 555);
    let kept = loaded.expect("Should load");
    assert_eq!(kept, vec!["/".to_string()]);
    assert!(!remove);
}

#[test]
fn test_cache_empty_entry_loads_empty() {
    let lines = saved_lines(Vec::new(), 1000, 555);
    let (loaded, remove) = load_verified(false, Some(&lines), 1000, 555);
    assert_eq!(loaded, Some(Vec::new()));
    assert!(!remove);
}

#[test]
fn test_entry_codec() {
    let entry = CacheEntry {
        saved_at: 12,
        directory_mtime: 34,
        entries: vec!["/a/.DS_Store".into(), "/b/.DS_Store".into()],
    };
    let lines = encode_entry(&entry);
    assert_eq!(lines, vec!["12", "34", "/a/.DS_Store", "/b/.DS_Store"]);
    let back = parse_entry(&lines).expect("encoded entry must parse");
    assert_eq!(back.saved_at, 12);
    assert_eq!(back.directory_mtime, 34);
    assert_eq!(back.entries, entry.entries);
    assert!(parse_entry(&vec!["only".to_string()]).is_none());
}
