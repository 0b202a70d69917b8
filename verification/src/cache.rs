//! The scan cache: persisted results of shallow scans, keyed by directory
//! and mode, trusted again only while the TTL has not lapsed and the
//! directory's modification time still equals the stored fingerprint.
//!
//! The caller owns the file I/O: it reads the stored entry as lines and
//! hands them in, together with the clock and the directory's current
//! mtime. Everything that decides — key derivation, the line codec, the
//! freshness check, the existence filter — is verified here.

use crate::consts::CACHE_TTL_SECS;
use crate::paths::{join_path, join_spec, path_exists};
use crate::seqs::{filter_by_mask, lemma_mask_filter_all_true, mask_filter};
use crate::text::{dec_spec, lemma_dec_round_trip, parse_u64, parse_u64_spec, push_char};
use vstd::prelude::*;
use vstd::string::StrSliceExecFns;
use vstd::string::StringExecFns;

verus! {

/// One persisted scan result, as spec'd by the storage format: when it was
/// written, the scanned directory's mtime at that moment, and the paths the
/// scan found.
pub struct CacheEntry {
    pub saved_at: u64,
    pub directory_mtime: u64,
    pub entries: Vec<String>,
}

/// '/' becomes '_'; everything else stands.
pub open spec fn repl_char(c: char) -> char {
    if c == '/' {
        '_'
    } else {
        c
    }
}

/// The path with every '/' replaced by '_'.
pub open spec fn replace_slashes(s: Seq<char>) -> Seq<char> {
    Seq::new(s.len(), |j: int| repl_char(s[j]))
}

/// The cache key of a directory and mode: the path with every '/' replaced
/// by '_', then a mode suffix, so the two modes can never collide.
pub open spec fn key_spec(dir: Seq<char>, recursive: bool) -> Seq<char> {
    replace_slashes(dir) + (if recursive {
        "_r1"@
    } else {
        "_r0"@
    })
}

/// Generate the cache key from a path and the recursive flag.
pub fn cache_key(dir: &str, recursive: bool) -> (r: String)
    ensures
        r@ == key_spec(dir@, recursive),
{
    let len = dir.unicode_len();
    let mut s = String::new();
    let mut i: usize = 0;
    while i < len
        invariant
            len == dir@.len(),
            i <= len,
            s@ == replace_slashes(dir@.take(i as int)),
        decreases len - i,
    {
        let c = dir.get_char(i);
        let ghost old_s = s@;
        if c == '/' {
            push_char(&mut s, '_');
        } else {
            push_char(&mut s, c);
        }
        proof {
            assert(s@.last() == repl_char(dir@[i as int]));
            assert(s@ =~= replace_slashes(dir@.take(i as int + 1)));
        }
        i += 1;
    }
    proof {
        assert(dir@.take(len as int) =~= dir@);
    }
    if recursive {
        s.append("_r1");
    } else {
        s.append("_r0");
    }
    s
}

/// The cache file for a directory and mode, under the given cache root
/// (the caller resolves the root, a subdirectory of the system temporary
/// directory).
pub fn cache_path(cache_root: &str, dir: &str, recursive: bool) -> (r: String)
    ensures
        r@ == join_spec(cache_root@, key_spec(dir@, recursive)),
{
    let key = cache_key(dir, recursive);
    join_path(cache_root, key.as_str())
}

/// The stored line format: first the save time, then the directory mtime,
/// then one path per line.
pub open spec fn encode_spec(saved_at: u64, mtime: u64, entries: Seq<Seq<char>>) -> Seq<
    Seq<char>,
> {
    seq![dec_spec(saved_at), dec_spec(mtime)] + entries
}

/// What stored lines mean: two unsigned integers, then the paths. Anything
/// shorter, or a first or second line that is no number, is corrupt.
pub open spec fn parse_spec(lines: Seq<Seq<char>>) -> Option<(u64, u64, Seq<Seq<char>>)> {
    if lines.len() >= 2 {
        match parse_u64_spec(lines[0]) {
            Option::Some(saved_at) => match parse_u64_spec(lines[1]) {
                Option::Some(mtime) => Option::Some((saved_at, mtime, lines.skip(2))),
                Option::None => Option::None,
            },
            Option::None => Option::None,
        }
    } else {
        Option::None
    }
}

/// Serialize an entry into the lines to persist.
pub fn encode_entry(e: &CacheEntry) -> (lines: Vec<String>)
    ensures
        lines.deep_view() == encode_spec(e.saved_at, e.directory_mtime, e.entries.deep_view()),
{
    let mut lines: Vec<String> = Vec::new();
    lines.push(crate::text::u64_to_string(e.saved_at));
    lines.push(crate::text::u64_to_string(e.directory_mtime));
    let mut i: usize = 0;
    while i < e.entries.len()
        invariant
            i <= e.entries.len(),
            lines.deep_view() == seq![
                dec_spec(e.saved_at),
                dec_spec(e.directory_mtime),
            ] + e.entries.deep_view().take(i as int),
        decreases e.entries.len() - i,
    {
        let ghost old_lines = lines.deep_view();
        lines.push(e.entries[i].clone());
        proof {
            assert(lines.deep_view() =~= old_lines.push(e.entries.deep_view()[i as int]));
            assert(lines.deep_view() =~= seq![dec_spec(e.saved_at), dec_spec(e.directory_mtime)]
                + e.entries.deep_view().take(i as int + 1));
        }
        i += 1;
    }
    proof {
        assert(e.entries.deep_view().take(e.entries.len() as int) =~= e.entries.deep_view());
        assert(lines.deep_view() =~= encode_spec(
            e.saved_at,
            e.directory_mtime,
            e.entries.deep_view(),
        ));
    }
    lines
}

/// Parse persisted lines back into an entry; `None` on any corruption.
pub fn parse_entry(lines: &Vec<String>) -> (r: Option<CacheEntry>)
    ensures
        match r {
            Option::Some(e) => parse_spec(lines.deep_view()) == Option::Some(
                (e.saved_at, e.directory_mtime, e.entries.deep_view()),
            ),
            Option::None => parse_spec(lines.deep_view()) is None,
        },
{
    if lines.len() < 2 {
        return None;
    }
    let saved_at = match parse_u64(lines[0].as_str()) {
        Option::Some(v) => v,
        Option::None => {
            proof {
                assert(lines.deep_view()[0] == lines@[0]@);
            }
            return None;
        },
    };
    let mtime = match parse_u64(lines[1].as_str()) {
        Option::Some(v) => v,
        Option::None => {
            proof {
                assert(lines.deep_view()[1] == lines@[1]@);
            }
            return None;
        },
    };
    let mut entries: Vec<String> = Vec::new();
    let mut i: usize = 2;
    while i < lines.len()
        invariant
            2 <= i <= lines.len(),
            entries.deep_view() == lines.deep_view().subrange(2, i as int),
        decreases lines.len() - i,
    {
        let ghost old_entries = entries.deep_view();
        entries.push(lines[i].clone());
        proof {
            assert(entries.deep_view() =~= old_entries.push(lines.deep_view()[i as int]));
            assert(entries.deep_view() =~= lines.deep_view().subrange(2, i as int + 1));
        }
        i += 1;
    }
    proof {
        assert(lines.deep_view()[0] == lines@[0]@);
        assert(lines.deep_view()[1] == lines@[1]@);
        assert(entries.deep_view() =~= lines.deep_view().skip(2));
    }
    Some(CacheEntry { saved_at, directory_mtime: mtime, entries })
}

/// A stored entry is fresh only while the TTL has not lapsed (a clock that
/// ran backwards counts as lapsed) and the directory's current mtime still
/// equals the stored fingerprint. Both conditions are mandatory.
pub open spec fn fresh_spec(saved_at: u64, stored_mtime: u64, now: u64, current_mtime: u64) -> bool {
    &&& saved_at <= now
    &&& now - saved_at <= CACHE_TTL_SECS
    &&& current_mtime == stored_mtime
}

/// What a load decides, as a value: no usable entry, an entry that must be
/// discarded, or the stored paths of a fresh entry.
pub enum CacheOutcome {
    Miss,
    Stale,
    Hit(Seq<Seq<char>>),
}

/// The whole load decision. A recursive query never loads (a directory's
/// mtime says nothing about its subdirectories); missing or corrupt lines
/// are a silent miss; an entry past the TTL or with a changed fingerprint
/// is stale and must be discarded; otherwise the stored paths stand.
pub open spec fn decision_spec(
    recursive: bool,
    lines: Option<Seq<Seq<char>>>,
    now: u64,
    current_mtime: u64,
) -> CacheOutcome {
    if recursive {
        CacheOutcome::Miss
    } else {
        match lines {
            Option::None => CacheOutcome::Miss,
            Option::Some(ls) => match parse_spec(ls) {
                Option::None => CacheOutcome::Miss,
                Option::Some(parts) => if fresh_spec(parts.0, parts.1, now, current_mtime) {
                    CacheOutcome::Hit(parts.2)
                } else {
                    CacheOutcome::Stale
                },
            },
        }
    }
}

/// The exec decision mirror of `CacheOutcome`: `Stale` tells the caller to
/// delete the stored entry; `Hit` carries paths still to be checked against
/// the disk.
pub enum CacheDecision {
    Miss,
    Stale,
    Hit(Vec<String>),
}

/// The exec decision carries the same outcome as the spec-level one.
pub open spec fn decision_matches(d: CacheDecision, m: CacheOutcome) -> bool {
    match d {
        CacheDecision::Miss => m is Miss,
        CacheDecision::Stale => m is Stale,
        CacheDecision::Hit(v) => m matches CacheOutcome::Hit(s) && v.deep_view() == s,
    }
}

/// The spec-level view of the optional stored lines.
pub open spec fn lines_model(lines: Option<&Vec<String>>) -> Option<Seq<Seq<char>>> {
    match lines {
        Option::Some(l) => Option::Some(l.deep_view()),
        Option::None => Option::None,
    }
}

/// Validate a stored entry against the clock and the directory's current
/// mtime. `lines` is the stored entry as read (or `None` when there is no
/// readable entry).
pub fn check_cached(
    recursive: bool,
    lines: Option<&Vec<String>>,
    now: u64,
    current_mtime: u64,
) -> (d: CacheDecision)
    ensures
        decision_matches(d, decision_spec(recursive, lines_model(lines), now, current_mtime)),
{
    if recursive {
        return CacheDecision::Miss;
    }
    let stored = match lines {
        Option::Some(l) => l,
        Option::None => {
            return CacheDecision::Miss;
        },
    };
    let entry = match parse_entry(stored) {
        Option::Some(e) => e,
        Option::None => {
            return CacheDecision::Miss;
        },
    };
    if entry.saved_at > now || now - entry.saved_at > CACHE_TTL_SECS {
        return CacheDecision::Stale;
    }
    if current_mtime != entry.directory_mtime {
        return CacheDecision::Stale;
    }
    CacheDecision::Hit(entry.entries)
}

/// Load and verify cached results: validate the stored entry, then drop
/// every stored path that no longer exists on disk at call time. Returns
/// the surviving paths (`None` when there is no fresh entry) and whether
/// the caller must delete the stored entry.
pub fn load_verified(
    recursive: bool,
    lines: Option<&Vec<String>>,
    now: u64,
    current_mtime: u64,
) -> (r: (Option<Vec<String>>, bool))
    ensures
        ({
            let m = decision_spec(recursive, lines_model(lines), now, current_mtime);
            &&& r.1 == (m is Stale)
            &&& (r.0 is Some <==> m is Hit)
            &&& (m matches CacheOutcome::Hit(stored) ==> r.0 matches Some(v)
                && exists|mask: Seq<bool>|
                mask.len() == stored.len() && v.deep_view() == mask_filter(stored, mask))
        }),
{
    match check_cached(recursive, lines, now, current_mtime) {
        CacheDecision::Miss => (None, false),
        CacheDecision::Stale => (None, true),
        CacheDecision::Hit(entries) => {
            let mut exists_flags: Vec<bool> = Vec::new();
            let mut i: usize = 0;
            while i < entries.len()
                invariant
                    i <= entries.len(),
                    exists_flags.len() == i,
                decreases entries.len() - i,
            {
                exists_flags.push(path_exists(entries[i].as_str()));
                i += 1;
            }
            let kept = filter_by_mask(&entries, &exists_flags);
            proof {
                let m = decision_spec(recursive, lines_model(lines), now, current_mtime);
                let stored = m->Hit_0;
                assert(exists_flags@.len() == stored.len() && kept.deep_view() == mask_filter(
                    stored,
                    exists_flags@,
                ));
            }
            (Some(kept), false)
        },
    }
}

/// Build the lines to persist for a scan result. Only shallow scans are
/// eligible: a recursive result is never written, because no single mtime
/// can witness subdirectory changes.
pub fn save(recursive: bool, files: &Vec<String>, now: u64, dir_mtime: u64) -> (r: Option<
    Vec<String>,
>)
    ensures
        recursive ==> r is None,
        !recursive ==> (r matches Some(lines) && lines.deep_view() == encode_spec(
            now,
            dir_mtime,
            files.deep_view(),
        )),
{
    if recursive {
        return None;
    }
    let mut entries: Vec<String> = Vec::new();
    let mut i: usize = 0;
    while i < files.len()
        invariant
            i <= files.len(),
            entries.deep_view() == files.deep_view().take(i as int),
        decreases files.len() - i,
    {
        let ghost old_entries = entries.deep_view();
        entries.push(files[i].clone());
        proof {
            assert(entries.deep_view() =~= old_entries.push(files.deep_view()[i as int]));
            assert(entries.deep_view() =~= files.deep_view().take(i as int + 1));
        }
        i += 1;
    }
    proof {
        assert(entries.deep_view() =~= files.deep_view());
    }
    let entry = CacheEntry { saved_at: now, directory_mtime: dir_mtime, entries };
    Some(encode_entry(&entry))
}

/// Saving a shallow scan and loading it back within the TTL, with the
/// directory fingerprint unchanged, yields exactly the saved files; and as
/// long as every one of them still exists, the existence filter keeps them
/// all.
pub proof fn lemma_save_then_load(files: Seq<Seq<char>>, now: u64, mtime: u64, later: u64)
    requires
        now <= later,
        later - now <= CACHE_TTL_SECS,
    ensures
        decision_spec(false, Option::Some(encode_spec(now, mtime, files)), later, mtime)
            == CacheOutcome::Hit(files),
        mask_filter(files, Seq::new(files.len(), |i: int| true)) == files,
{
    let lines = encode_spec(now, mtime, files);
    lemma_dec_round_trip(now);
    lemma_dec_round_trip(mtime);
    assert(lines[0] == dec_spec(now));
    assert(lines[1] == dec_spec(mtime));
    assert(lines.skip(2) =~= files);
    lemma_mask_filter_all_true(files, Seq::new(files.len(), |i: int| true));
}

/// After a save, any change of the directory fingerprint keeps the load
/// from returning the entry, whatever the clock says.
pub proof fn lemma_changed_dir_never_loads(
    files: Seq<Seq<char>>,
    now: u64,
    mtime: u64,
    later: u64,
    current_mtime: u64,
)
    requires
        current_mtime != mtime,
    ensures
        !(decision_spec(false, Option::Some(encode_spec(now, mtime, files)), later, current_mtime)
            is Hit),
{
    let lines = encode_spec(now, mtime, files);
    lemma_dec_round_trip(now);
    lemma_dec_round_trip(mtime);
    assert(lines[0] == dec_spec(now));
    assert(lines[1] == dec_spec(mtime));
}

/// An entry saved longer than the TTL ago is stale — rejected and marked
/// for deletion — even when the fingerprint still matches.
pub proof fn lemma_expired_never_loads(
    files: Seq<Seq<char>>,
    now: u64,
    mtime: u64,
    later: u64,
    current_mtime: u64,
)
    requires
        later > now + CACHE_TTL_SECS || later < now,
    ensures
        decision_spec(false, Option::Some(encode_spec(now, mtime, files)), later, current_mtime)
            == CacheOutcome::Stale,
{
    let lines = encode_spec(now, mtime, files);
    lemma_dec_round_trip(now);
    lemma_dec_round_trip(mtime);
    assert(lines[0] == dec_spec(now));
    assert(lines[1] == dec_spec(mtime));
}

/// A recursive query never loads from the cache, whatever is stored.
pub proof fn lemma_recursive_never_loads(
    lines: Option<Seq<Seq<char>>>,
    now: u64,
    current_mtime: u64,
)
    ensures
        decision_spec(true, lines, now, current_mtime) == CacheOutcome::Miss,
{
}

} // verus!
