//! Decision logic of the watch engine. The caller owns the subscription and
//! the event loop: it subscribes before the initial sweep (so nothing slips
//! through a vacuum period), maps each raw notification to an `EventClass`
//! and its paths, and performs removals. Every decision along that loop —
//! which events matter, which paths deserve a deletion attempt, when the
//! git gate blocks, what counts as a successful removal — is verified here.

use crate::killer::{excluded_spec, is_excluded, is_target, is_target_spec};
use crate::paths::path_exists;
use crate::text::str_eq;
use vstd::prelude::*;
use vstd::string::StringExecFns;

verus! {

/// The kinds of filesystem notification the engine distinguishes. Creations
/// and modifications can announce a new target file (many writers truncate
/// and rewrite rather than create), and so can an unclassified event;
/// everything else is noise.
pub enum EventClass {
    Create,
    Modify,
    Any,
    Other,
}

/// What became of one removal attempt, as the caller observed it.
pub enum RemovalOutcome {
    /// The file was removed by this attempt.
    Removed,
    /// The file was already gone: another actor won the race.
    NotFound,
    /// The file could not be removed for some other reason.
    Failed,
}

/// Only creations, modifications and unclassified events can carry a new
/// target file.
pub fn event_relevant(kind: &EventClass) -> (r: bool)
    ensures
        r == (kind is Create || kind is Modify || kind is Any),
{
    match kind {
        EventClass::Other => false,
        _ => true,
    }
}

/// A path from an event deserves a deletion attempt exactly when it names
/// the target file, no exclusion matches it, and it still exists on disk
/// (`exists` is the caller's probe: coalesced or duplicate events routinely
/// name a file that is already gone, and those are silently skipped).
pub fn path_is_candidate(path: &str, excludes: &Vec<String>, exists: bool) -> (r: bool)
    ensures
        r == (is_target_spec(path@) && !excluded_spec(path@, excludes.deep_view()) && exists),
{
    is_target(path) && !is_excluded(path, excludes) && exists
}

/// The git safety gate: deletion may proceed unless the check is in force
/// (no force flag and the tool is available) and the path is reported as
/// held by version control. A blocked path is skipped with a warning, never
/// an error.
pub fn deletion_allowed(force: bool, git_available: bool, in_git: bool) -> (r: bool)
    ensures
        r == (force || !git_available || !in_git),
{
    force || !git_available || !in_git
}

/// A removal that found nothing left to remove still succeeded: another
/// actor or a duplicate event got there first. Only a genuine failure
/// counts against the attempt.
pub fn removal_ok(outcome: &RemovalOutcome) -> (r: bool)
    ensures
        r == !(outcome is Failed),
{
    match outcome {
        RemovalOutcome::Failed => false,
        _ => true,
    }
}

/// Process one notification: of the paths it names, those that deserve a
/// deletion attempt, in order. An irrelevant event kind yields nothing;
/// every path kept names the target file, is not excluded, and passed the
/// existence probe.
pub fn process_event(kind: &EventClass, paths: &Vec<String>, excludes: &Vec<String>) -> (r: Vec<
    String,
>)
    ensures
        !(kind is Create || kind is Modify || kind is Any) ==> r.len() == 0,
        forall|i: int|
            0 <= i < r.len() ==> is_target_spec(#[trigger] r.deep_view()[i]) && !excluded_spec(
                r.deep_view()[i],
                excludes.deep_view(),
            ) && paths.deep_view().contains(r.deep_view()[i]),
{
    let mut r: Vec<String> = Vec::new();
    if !event_relevant(kind) {
        return r;
    }
    let mut i: usize = 0;
    while i < paths.len()
        invariant
            forall|t: int|
                0 <= t < r.len() ==> is_target_spec(#[trigger] r.deep_view()[t]) && !excluded_spec(
                    r.deep_view()[t],
                    excludes.deep_view(),
                ) && paths.deep_view().contains(r.deep_view()[t]),
        decreases paths.len() - i,
    {
        let p = &paths[i];
        let exists = path_exists(p.as_str());
        if path_is_candidate(p.as_str(), excludes, exists) {
            let ghost old_r = r.deep_view();
            r.push(p.clone());
            proof {
                assert(r.deep_view() =~= old_r.push(p@));
                assert(paths.deep_view()[i as int] == p@);
            }
        }
        i += 1;
    }
    r
}

/// The exclusion patterns every watch runs with: the caller's own, then
/// each default it did not already name.
pub open spec fn default_excludes_spec() -> Seq<Seq<char>> {
    seq!["node_modules"@, ".git"@, "target"@]
}

/// The merge, one default at a time: a default already present is not
/// added again.
pub open spec fn merge_spec(excludes: Seq<Seq<char>>, defaults: Seq<Seq<char>>) -> Seq<Seq<char>>
    decreases defaults.len(),
{
    if defaults.len() == 0 {
        excludes
    } else {
        let rest = merge_spec(excludes, defaults.drop_last());
        if excludes.contains(defaults.last()) {
            rest
        } else {
            rest.push(defaults.last())
        }
    }
}

/// Does the view of some string among the first `upto` equal `s`?
fn vec_contains_str(v: &Vec<String>, upto: usize, s: &str) -> (r: bool)
    requires
        upto <= v.len(),
    ensures
        r == v.deep_view().take(upto as int).contains(s@),
{
    let mut i: usize = 0;
    while i < upto
        invariant
            upto <= v.len(),
            i <= upto,
            forall|t: int| 0 <= t < i ==> #[trigger] v.deep_view()[t] != s@,
        decreases upto - i,
    {
        if str_eq(v[i].as_str(), s) {
            proof {
                assert(v.deep_view().take(upto as int)[i as int] == s@);
            }
            return true;
        }
        i += 1;
    }
    proof {
        assert forall|t: int| 0 <= t < upto implies #[trigger] v.deep_view().take(upto as int)[t]
            != s@ by {
            assert(v.deep_view().take(upto as int)[t] == v.deep_view()[t]);
        }
    }
    false
}

/// Merge the default exclusion patterns into the caller's, without
/// duplicating one the caller already named.
pub fn merge_default_excludes(excludes: Vec<String>) -> (r: Vec<String>)
    ensures
        r.deep_view() == merge_spec(excludes.deep_view(), default_excludes_spec()),
{
    let ghost orig = excludes.deep_view();
    let n = excludes.len();
    let mut r = excludes;
    proof {
        assert(default_excludes_spec().drop_last() =~= seq!["node_modules"@, ".git"@]);
        assert(default_excludes_spec().drop_last().drop_last() =~= seq!["node_modules"@]);
        assert(default_excludes_spec().drop_last().drop_last().drop_last() =~= Seq::<
            Seq<char>,
        >::empty());
        assert(orig.take(n as int) =~= orig);
    }
    if !vec_contains_str(&r, n, "node_modules") {
        let ghost old_r = r.deep_view();
        r.push(String::from_str("node_modules"));
        proof {
            assert(r.deep_view() =~= old_r.push("node_modules"@));
            assert(r.deep_view().take(n as int) =~= orig);
        }
    }
    if !vec_contains_str(&r, n, ".git") {
        let ghost old_r = r.deep_view();
        r.push(String::from_str(".git"));
        proof {
            assert(r.deep_view() =~= old_r.push(".git"@));
            assert(r.deep_view().take(n as int) =~= orig);
        }
    }
    if !vec_contains_str(&r, n, "target") {
        let ghost old_r = r.deep_view();
        r.push(String::from_str("target"));
        proof {
            assert(r.deep_view() =~= old_r.push("target"@));
        }
    }
    proof {
        reveal_with_fuel(merge_spec, 4);
        assert(r.deep_view() =~= merge_spec(orig, default_excludes_spec()));
    }
    r
}

} // verus!
