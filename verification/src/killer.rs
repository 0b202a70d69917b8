//! Matching and scanning: which paths name the target file, which are
//! excluded, and the one-shot scan that feeds both the interactive kill and
//! the watch engine's initial sweep.

use crate::consts::TARGET_FILE;
use crate::paths::{
    after_last_slash, join_path, join_spec, lemma_after_last_slash_suffix, lemma_join_file_name,
    path_exists,
};
use crate::text::{contains_str, dec_spec, is_substring, str_eq, u64_to_string};
use vstd::prelude::*;
use vstd::string::StrSliceExecFns;
use vstd::string::StringExecFns;

verus! {

/// Options controlling kill behavior.
#[derive(Clone)]
pub struct KillOptions {
    pub dry_run: bool,
    pub quiet: bool,
}

impl Default for KillOptions {
    /// Neither a dry run nor quiet.
    fn default() -> (r: Self)
        ensures
            !r.dry_run,
            !r.quiet,
    {
        KillOptions { dry_run: false, quiet: false }
    }
}

/// Result of a kill operation.
pub struct KillResult {
    pub found: usize,
    pub deleted: usize,
    pub duration_ms: u64,
}

/// The summary line a kill operation reports.
pub open spec fn kill_message_spec(found: usize, deleted: usize) -> Seq<char> {
    if deleted > 0 {
        "Deleted "@ + dec_spec(deleted as u64) + " .DS_Store file(s)"@
    } else if found > 0 {
        "Found "@ + dec_spec(found as u64) + " .DS_Store file(s)"@
    } else {
        "No .DS_Store files found"@
    }
}

impl KillResult {
    /// Render the user-facing summary of this result.
    pub fn to_message(&self) -> (r: String)
        ensures
            r@ == kill_message_spec(self.found, self.deleted),
    {
        if self.deleted > 0 {
            let mut s = String::from_str("Deleted ");
            let n = u64_to_string(self.deleted as u64);
            s.append(n.as_str());
            s.append(" .DS_Store file(s)");
            s
        } else if self.found > 0 {
            let mut s = String::from_str("Found ");
            let n = u64_to_string(self.found as u64);
            s.append(n.as_str());
            s.append(" .DS_Store file(s)");
            s
        } else {
            String::from_str("No .DS_Store files found")
        }
    }
}

/// A path names the target file exactly when its final component is
/// ".DS_Store".
pub open spec fn is_target_spec(path: Seq<char>) -> bool {
    after_last_slash(path) == TARGET_FILE@
}

/// Check if a path is the target file.
pub fn is_target(path: &str) -> (r: bool)
    ensures
        r == is_target_spec(path@),
{
    let len = path.unicode_len();
    let mut start: usize = len;
    while start > 0 && path.get_char(start - 1) != '/'
        invariant
            start <= len,
            len == path@.len(),
            forall|i: int| start <= i < len ==> path@[i] != '/',
        decreases start,
    {
        start -= 1;
    }
    proof {
        lemma_after_last_slash_suffix(path@, start as int);
    }
    let name = path.substring_char(start, len);
    str_eq(name, TARGET_FILE)
}

/// A path is excluded exactly when some pattern occurs in it as a substring.
pub open spec fn excluded_spec(path: Seq<char>, excludes: Seq<Seq<char>>) -> bool {
    exists|k: int| 0 <= k < excludes.len() && is_substring(path, excludes[k])
}

/// Check if a path matches any exclude pattern.
pub fn is_excluded(path: &str, excludes: &Vec<String>) -> (r: bool)
    ensures
        r == excluded_spec(path@, excludes.deep_view()),
{
    let mut k: usize = 0;
    while k < excludes.len()
        invariant
            k <= excludes.len(),
            forall|t: int|
                0 <= t < k ==> !is_substring(path@, #[trigger] excludes.deep_view()[t]),
        decreases excludes.len() - k,
    {
        if contains_str(path, excludes[k].as_str()) {
            proof {
                assert(excludes.deep_view()[k as int] == excludes@[k as int]@);
            }
            return true;
        }
        k += 1;
    }
    false
}

/// The paths that survive the matcher: those that name the target file and
/// match no exclusion, in order.
pub open spec fn target_filter_spec(paths: Seq<Seq<char>>, excludes: Seq<Seq<char>>) -> Seq<
    Seq<char>,
>
    decreases paths.len(),
{
    if paths.len() == 0 {
        Seq::empty()
    } else {
        let rest = target_filter_spec(paths.drop_last(), excludes);
        if is_target_spec(paths.last()) && !excluded_spec(paths.last(), excludes) {
            rest.push(paths.last())
        } else {
            rest
        }
    }
}

/// Keep exactly the paths that name the target file and match no exclusion.
pub fn filter_targets(paths: &Vec<String>, excludes: &Vec<String>) -> (r: Vec<String>)
    ensures
        r.deep_view() == target_filter_spec(paths.deep_view(), excludes.deep_view()),
{
    let mut r: Vec<String> = Vec::new();
    let mut i: usize = 0;
    while i < paths.len()
        invariant
            i <= paths.len(),
            r.deep_view() == target_filter_spec(
                paths.deep_view().take(i as int),
                excludes.deep_view(),
            ),
        decreases paths.len() - i,
    {
        let ghost prev = paths.deep_view().take(i as int);
        let ghost cur = paths.deep_view().take(i as int + 1);
        proof {
            assert(cur.drop_last() =~= prev);
            assert(cur.last() == paths.deep_view()[i as int]);
        }
        let p = &paths[i];
        if is_target(p.as_str()) && !is_excluded(p.as_str(), excludes) {
            let ghost old_r = r.deep_view();
            r.push(p.clone());
            proof {
                assert(r.deep_view() =~= old_r.push(p@));
            }
        }
        i += 1;
    }
    proof {
        assert(paths.deep_view().take(paths.len() as int) =~= paths.deep_view());
    }
    r
}

/// Everything the matcher keeps names the target file, matches no
/// exclusion, and stood in the input.
pub proof fn lemma_target_filter_sound(paths: Seq<Seq<char>>, excludes: Seq<Seq<char>>, j: int)
    requires
        0 <= j < target_filter_spec(paths, excludes).len(),
    ensures
        is_target_spec(target_filter_spec(paths, excludes)[j]),
        !excluded_spec(target_filter_spec(paths, excludes)[j], excludes),
        paths.contains(target_filter_spec(paths, excludes)[j]),
    decreases paths.len(),
{
    let rest = target_filter_spec(paths.drop_last(), excludes);
    if j < rest.len() {
        lemma_target_filter_sound(paths.drop_last(), excludes, j);
        assert(target_filter_spec(paths, excludes)[j] == rest[j]);
        let i = choose|i: int| 0 <= i < paths.drop_last().len() && paths.drop_last()[i] == rest[j];
        assert(paths[i] == rest[j]);
    } else {
        assert(target_filter_spec(paths, excludes)[j] == paths.last());
        assert(paths[paths.len() - 1] == paths.last());
    }
}

/// The matcher misses nothing: a path in the input that names the target
/// file and matches no exclusion is kept.
pub proof fn lemma_target_filter_complete(paths: Seq<Seq<char>>, excludes: Seq<Seq<char>>, i: int)
    requires
        0 <= i < paths.len(),
        is_target_spec(paths[i]),
        !excluded_spec(paths[i], excludes),
    ensures
        target_filter_spec(paths, excludes).contains(paths[i]),
    decreases paths.len(),
{
    let whole = target_filter_spec(paths, excludes);
    let rest = target_filter_spec(paths.drop_last(), excludes);
    if i == paths.len() - 1 {
        assert(whole[whole.len() - 1] == paths[i]);
    } else {
        lemma_target_filter_complete(paths.drop_last(), excludes, i);
        let j = choose|j: int| 0 <= j < rest.len() && rest[j] == paths.drop_last()[i];
        assert(whole[j] == paths[i]);
    }
}

/// Relies on `jwalk::WalkDir`: walks the whole tree under `dir`, hidden
/// entries included (the target file starts with a dot), one path per entry
/// that could be read. What comes back depends on the filesystem of the
/// moment, so nothing is promised of it.
#[verifier::external_body]
fn walk_dir(dir: &str) -> Vec<String> {
    jwalk::WalkDir::new(dir)
        .skip_hidden(false)
        .into_iter()
        .filter_map(Result::ok)
        .map(|entry| entry.path().to_string_lossy().to_string())
        .collect()
}

/// One scan pass: every path under `dir` that names the target file and
/// matches no exclusion, in discovery order. A shallow scan looks only at
/// the one candidate directly inside `dir`.
pub fn scan_streaming(dir: &str, recursive: bool, excludes: &Vec<String>) -> (found: Vec<String>)
    ensures
        forall|i: int|
            0 <= i < found.len() ==> is_target_spec(#[trigger] found.deep_view()[i])
                && !excluded_spec(found.deep_view()[i], excludes.deep_view()),
        recursive ==> exists|walked: Seq<Seq<char>>|
            found.deep_view() == target_filter_spec(walked, excludes.deep_view()),
        !recursive ==> found.len() <= 1,
        !recursive && found.len() == 1 ==> found.deep_view()[0] == join_spec(dir@, TARGET_FILE@),
{
    if recursive {
        let all = walk_dir(dir);
        let found = filter_targets(&all, excludes);
        proof {
            assert forall|i: int| 0 <= i < found.len() implies is_target_spec(
                #[trigger] found.deep_view()[i],
            ) && !excluded_spec(found.deep_view()[i], excludes.deep_view()) by {
                lemma_target_filter_sound(all.deep_view(), excludes.deep_view(), i);
            }
            assert(found.deep_view() == target_filter_spec(
                all.deep_view(),
                excludes.deep_view(),
            ));
        }
        found
    } else {
        let target = join_path(dir, TARGET_FILE);
        let mut found: Vec<String> = Vec::new();
        if path_exists(target.as_str()) && !is_excluded(target.as_str(), excludes) {
            proof {
                lemma_target_no_slash();
                lemma_join_file_name(dir@, TARGET_FILE@);
            }
            let ghost old_found = found.deep_view();
            found.push(target);
            proof {
                assert(found.deep_view() =~= old_found.push(join_spec(dir@, TARGET_FILE@)));
            }
        }
        found
    }
}

/// The target filename is non-empty and holds no separator.
proof fn lemma_target_no_slash()
    ensures
        TARGET_FILE@.len() > 0,
        forall|i: int| 0 <= i < TARGET_FILE@.len() ==> TARGET_FILE@[i] != '/',
{
    reveal_strlit(".DS_Store");
    assert forall|i: int| 0 <= i < TARGET_FILE@.len() implies TARGET_FILE@[i] != '/' by {
        if i == 0 {
            assert(TARGET_FILE@[0] == '.');
        } else if i == 1 {
            assert(TARGET_FILE@[1] == 'D');
        } else if i == 2 {
            assert(TARGET_FILE@[2] == 'S');
        } else if i == 3 {
            assert(TARGET_FILE@[3] == '_');
        } else if i == 4 {
            assert(TARGET_FILE@[4] == 'S');
        } else if i == 5 {
            assert(TARGET_FILE@[5] == 't');
        } else if i == 6 {
            assert(TARGET_FILE@[6] == 'o');
        } else if i == 7 {
            assert(TARGET_FILE@[7] == 'r');
        } else {
            assert(TARGET_FILE@[8] == 'e');
        }
    }
}

} // verus!
