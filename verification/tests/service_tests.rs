use dsk::consts::SERVICE_ID;
use dsk::paths::{expand, shorten_path, shorten_with_home};
use dsk::service::{generate_plist, plist_path};

#[test]
fn test_expand() {
    assert!(expand("~/test").contains("/test"));
    assert_eq!(expand("/abs/path"), "/abs/path");
}

#[test]
fn test_plist_content() {
    let plist = generate_plist("/bin/dsk", &vec!["~".to_string()]);
    assert!(plist.contains(SERVICE_ID));
    assert!(plist.contains("--serve"));
}

#[test]
fn test_plist_verbatim_paths() {
    let plist = generate_plist("/bin/dsk", &vec!["/abs/watch".to_string(), "/other".to_string()]);
    assert!(plist.contains("        <string>/abs/watch</string>\n        <string>/other</string>"));
    assert!(plist.contains("<string>/bin/dsk</string>"));
    assert!(plist.ends_with("</plist>\n"));
}

#[test]
fn test_plist_path_location() {
    let p = plist_path();
    assert!(p.ends_with("Library/LaunchAgents/com.dsk.guard.plist"));
}

#[test]
fn test_shorten_path() {
    assert_eq!(shorten_with_home("/home/u/work", "/home/u"), "~/work");
    assert_eq!(shorten_with_home("/elsewhere", "/home/u"), "/elsewhere");
    // against the real home directory, a foreign path stays as it is
    assert_eq!(shorten_path("/surely_absent_dsk_home_9c"), "/surely_absent_dsk_home_9c");
}
