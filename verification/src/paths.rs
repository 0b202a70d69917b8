//! The library's model of file paths: a path is a string, its components
//! separated by '/'. Joining, the final component, and home-directory
//! shortening are defined here, together with the two probes that only the
//! system can answer (tilde expansion and existence on disk).

use crate::text::{is_prefix, push_char, starts_with};
use vstd::prelude::*;
use vstd::string::StrSliceExecFns;
use vstd::string::StringExecFns;

verus! {

/// The characters after the last '/': the file name of the path.
/// A path without '/' is its own file name; a trailing '/' leaves none.
pub open spec fn after_last_slash(s: Seq<char>) -> Seq<char>
    decreases s.len(),
{
    if s.len() == 0 {
        s
    } else if s.last() == '/' {
        Seq::empty()
    } else {
        after_last_slash(s.drop_last()).push(s.last())
    }
}

/// After the position of the last '/', the file name is exactly the rest
/// of the string.
pub proof fn lemma_after_last_slash_suffix(s: Seq<char>, start: int)
    requires
        0 <= start <= s.len(),
        forall|i: int| start <= i < s.len() ==> s[i] != '/',
        start > 0 ==> s[start - 1] == '/',
    ensures
        after_last_slash(s) == s.subrange(start, s.len() as int),
    decreases s.len(),
{
    if s.len() == 0 {
        assert(s.subrange(0, 0) =~= s);
    } else if start == s.len() {
        assert(s.last() == '/');
        assert(after_last_slash(s) =~= s.subrange(start, s.len() as int));
    } else {
        assert(s.last() != '/');
        lemma_after_last_slash_suffix(s.drop_last(), start);
        assert(s.subrange(start, s.len() as int) =~= s.drop_last().subrange(
            start,
            s.len() - 1,
        ).push(s.last()));
    }
}

/// Joining a directory and a file name: a single '/' stands between them;
/// an empty directory contributes nothing.
pub open spec fn join_spec(dir: Seq<char>, name: Seq<char>) -> Seq<char> {
    if dir.len() == 0 {
        name
    } else if dir.last() == '/' {
        dir + name
    } else {
        dir + seq!['/'] + name
    }
}

/// Join a directory path and a file name.
pub fn join_path(dir: &str, name: &str) -> (r: String)
    ensures
        r@ == join_spec(dir@, name@),
{
    let dlen = dir.unicode_len();
    if dlen == 0 {
        let r = String::from_str(name);
        proof {
            assert(r@ =~= join_spec(dir@, name@));
        }
        return r;
    }
    let mut s = String::from_str(dir);
    if dir.get_char(dlen - 1) != '/' {
        push_char(&mut s, '/');
    }
    s.append(name);
    proof {
        assert(s@ =~= join_spec(dir@, name@));
    }
    s
}

/// The file name of a joined path is the name joined on, as long as that
/// name holds no '/' of its own.
pub proof fn lemma_join_file_name(dir: Seq<char>, name: Seq<char>)
    requires
        name.len() > 0,
        forall|i: int| 0 <= i < name.len() ==> name[i] != '/',
    ensures
        after_last_slash(join_spec(dir, name)) == name,
{
    let joined = join_spec(dir, name);
    let start = (joined.len() - name.len()) as int;
    assert(joined.subrange(start, joined.len() as int) =~= name);
    lemma_after_last_slash_suffix(joined, start);
}

/// Replacing a home-directory prefix with '~'.
pub open spec fn shorten_spec(path: Seq<char>, home: Seq<char>) -> Seq<char> {
    if is_prefix(home, path) {
        seq!['~'] + path.skip(home.len() as int)
    } else {
        path
    }
}

/// Shorten a path against a given home directory.
pub fn shorten_with_home(path: &str, home: &str) -> (r: String)
    ensures
        r@ == shorten_spec(path@, home@),
{
    if starts_with(path, home) {
        let mut s = String::new();
        push_char(&mut s, '~');
        let rest = path.substring_char(home.unicode_len(), path.unicode_len());
        s.append(rest);
        proof {
            assert(s@ =~= shorten_spec(path@, home@));
        }
        s
    } else {
        String::from_str(path)
    }
}

/// Shorten a path against the home directory the system reports.
pub fn shorten_path(path: &str) -> (r: String)
    ensures
        exists|h: Seq<char>| r@ == shorten_spec(path@, h),
{
    let home = expand("~");
    let r = shorten_with_home(path, home.as_str());
    proof {
        assert(r@ == shorten_spec(path@, home@));
    }
    r
}

/// The string starts with '~', so tilde expansion may rewrite it.
pub open spec fn tilde_lead(s: Seq<char>) -> bool {
    s.len() > 0 && s[0] == '~'
}

/// Relies on `shellexpand::tilde`: a leading "~" (alone or before '/') is
/// replaced by the home directory when one is known; any input that does
/// not start with '~' comes back unchanged.
#[verifier::external_body]
pub fn expand(path: &str) -> (r: String)
    ensures
        !tilde_lead(path@) ==> r@ == path@,
{
    shellexpand::tilde(path).to_string()
}

/// Relies on `std::path::Path::exists`: whether the path points to anything
/// on disk at call time. The answer depends on the filesystem of the moment,
/// so nothing is promised of it.
#[verifier::external_body]
pub(crate) fn path_exists(path: &str) -> bool {
    std::path::Path::new(path).exists()
}

} // verus!
