use dsk::git::check_files;
use dsk::killer::filter_targets;
use dsk::watcher::{
    deletion_allowed, event_relevant, merge_default_excludes, path_is_candidate, process_event,
    removal_ok, EventClass, RemovalOutcome,
};

#[test]
fn test_merge_default_excludes() {
    let merged = merge_default_excludes(vec!["node_modules".into(), "custom".into()]);
    assert_eq!(merged, vec!["node_modules", "custom", ".git", "target"]);

    let merged = merge_default_excludes(Vec::new());
    assert_eq!(merged, vec!["node_modules", ".git", "target"]);
}

#[test]
fn test_initial_sweep_filter() {
    // What the sweep keeps of a walked tree: every target file outside the
    // excluded paths, nothing else, in walk order.
    let excludes = merge_default_excludes(Vec::new());
    let walked: Vec<String> = vec![
        "/r/.DS_Store".into(),
        "/r/sub/notes.txt".into(),
        "/r/node_modules/.DS_Store".into(),
        "/r/sub/.DS_Store".into(),
    ];
    let swept = filter_targets(&walked, &excludes);
    assert_eq!(swept, vec!["/r/.DS_Store", "/r/sub/.DS_Store"]);
}

#[test]
fn test_event_relevance() {
    assert!(event_relevant(&EventClass::Create));
    assert!(event_relevant(&EventClass::Modify));
    assert!(event_relevant(&EventClass::Any));
    assert!(!event_relevant(&EventClass::Other));
}

#[test]
fn test_watch_deletes_target_inside_root() {
    // The sweep and the live loop share one policy: a target file under the
    // root, outside every excluded path, that still exists, is deleted.
    let excludes = merge_default_excludes(vec!["node_modules".into()]);
    // present at watch start, cleared by the initial sweep
    assert!(path_is_candidate("/r/.DS_Store", &excludes, true));
    // created after watch start, cleared by the live loop without a restart
    assert!(path_is_candidate("/r/newdir/.DS_Store", &excludes, true));
    // no git gate without the tool, no force needed
    assert!(deletion_allowed(false, false, false));
    // an event naming a file that is already gone is silently skipped
    assert!(!path_is_candidate("/r/.DS_Store", &excludes, false));
    // a file that is not the target is never touched
    assert!(!path_is_candidate("/r/notes.txt", &excludes, true));
}

#[test]
fn test_watch_never_deletes_excluded() {
    let excludes = merge_default_excludes(vec!["node_modules".into()]);
    assert!(!path_is_candidate("/r/node_modules/.DS_Store", &excludes, true));
    assert!(!path_is_candidate("/r/a/node_modules/b/.DS_Store", &excludes, true));
    assert!(!path_is_candidate("/r/.git/.DS_Store", &excludes, true));
}

#[test]
fn test_git_gate_blocks_without_force() {
    // reported as held by version control, no force: left on disk
    assert!(!deletion_allowed(false, true, true));
    // force wins over the safety check
    assert!(deletion_allowed(true, true, true));
    // tool unavailable: the check cannot block
    assert!(deletion_allowed(false, false, true));
    assert!(deletion_allowed(false, true, false));
}

#[test]
fn test_safety_partition() {
    let files: Vec<String> = vec!["/a/.DS_Store".into(), "/b/.DS_Store".into(), "/c/.DS_Store".into()];
    let flags = vec![true, false, true];
    let r = check_files(&files, &flags);
    assert_eq!(r.in_git, vec!["/a/.DS_Store", "/c/.DS_Store"]);
    assert_eq!(r.safe, vec!["/b/.DS_Store"]);
}

#[test]
fn test_removal_race_is_success() {
    assert!(removal_ok(&RemovalOutcome::Removed));
    assert!(removal_ok(&RemovalOutcome::NotFound));
    assert!(!removal_ok(&RemovalOutcome::Failed));
}

#[test]
fn test_process_event_filters() {
    let excludes = merge_default_excludes(Vec::new());
    // an irrelevant event kind yields nothing, whatever it names
    let paths: Vec<String> = vec!["/r/.DS_Store".into()];
    assert_eq!(process_event(&EventClass::Other, &paths, &excludes).len(), 0);
    // a coalesced event naming an already-gone file yields nothing
    let gone: Vec<String> = vec!["/surely_absent_dsk_evt_77/.DS_Store".into()];
    assert_eq!(process_event(&EventClass::Create, &gone, &excludes).len(), 0);
    // a non-target path yields nothing even when it exists
    let root: Vec<String> = vec!["/".into()];
    assert_eq!(process_event(&EventClass::Modify, &root, &excludes).len(), 0);
}
