//! The background-service definition: where the property list lives and
//! what it holds. Writing it to disk and talking to the service manager is
//! the caller's business; the document itself is built and specified here.

use crate::consts::{LOG_STDERR, LOG_STDOUT, PLIST_FILENAME, SERVICE_ID};
use crate::paths::{expand, join_path, join_spec, tilde_lead};
use vstd::prelude::*;
use vstd::string::StringExecFns;

verus! {

pub const PLIST_HEAD: &'static str = "<?xml version=\"1.0\" encoding=\"UTF-8\"?>\n<!DOCTYPE plist PUBLIC \"-//Apple//DTD PLIST 1.0//EN\" \"http://www.apple.com/DTDs/PropertyList-1.0.dtd\">\n<plist version=\"1.0\">\n<dict>\n    <key>Label</key>\n    <string>";

pub const PLIST_AFTER_LABEL: &'static str =
    "</string>\n    <key>ProgramArguments</key>\n    <array>\n        <string>";

pub const PLIST_AFTER_EXE: &'static str = "</string>\n        <string>--serve</string>\n";

pub const PLIST_AFTER_ARGS: &'static str =
    "\n    </array>\n    <key>RunAtLoad</key>\n    <true/>\n    <key>KeepAlive</key>\n    <true/>\n    <key>StandardOutPath</key>\n    <string>";

pub const PLIST_AFTER_STDOUT: &'static str =
    "</string>\n    <key>StandardErrorPath</key>\n    <string>";

pub const PLIST_TAIL: &'static str = "</string>\n</dict>\n</plist>\n";

/// Where the service definition lives: under the home directory the system
/// reports.
pub fn plist_path() -> (r: String)
    ensures
        exists|home: Seq<char>|
            r@ == join_spec(join_spec(home, "Library/LaunchAgents"@), PLIST_FILENAME@),
{
    let home = expand("~");
    let dir = join_path(home.as_str(), "Library/LaunchAgents");
    let r = join_path(dir.as_str(), PLIST_FILENAME);
    proof {
        assert(r@ == join_spec(join_spec(home@, "Library/LaunchAgents"@), PLIST_FILENAME@));
    }
    r
}

/// One watched-path line of the document.
pub open spec fn plist_arg_line(p: Seq<char>) -> Seq<char> {
    "        <string>"@ + p + "</string>"@
}

/// The watched-path lines, joined by newlines.
pub open spec fn plist_args_spec(ps: Seq<Seq<char>>) -> Seq<char>
    decreases ps.len(),
{
    if ps.len() == 0 {
        Seq::empty()
    } else if ps.len() == 1 {
        plist_arg_line(ps[0])
    } else {
        plist_args_spec(ps.drop_last()) + "\n"@ + plist_arg_line(ps.last())
    }
}

/// The whole document, given the executable path and the argument block.
pub open spec fn plist_doc_spec(exe: Seq<char>, args: Seq<char>) -> Seq<char> {
    PLIST_HEAD@ + SERVICE_ID@ + PLIST_AFTER_LABEL@ + exe + PLIST_AFTER_EXE@ + args
        + PLIST_AFTER_ARGS@ + LOG_STDOUT@ + PLIST_AFTER_STDOUT@ + LOG_STDERR@ + PLIST_TAIL@
}

/// Build the argument block: each path tilde-expanded, one line per path.
fn plist_args(paths: &Vec<String>) -> (r: (String, Ghost<Seq<Seq<char>>>))
    ensures
        r.1@.len() == paths.len(),
        r.0@ == plist_args_spec(r.1@),
        forall|t: int|
            0 <= t < paths.len() && !tilde_lead(#[trigger] paths.deep_view()[t]) ==> r.1@[t]
                == paths.deep_view()[t],
{
    let mut s = String::new();
    let ghost mut expanded: Seq<Seq<char>> = Seq::empty();
    let mut i: usize = 0;
    while i < paths.len()
        invariant
            i <= paths.len(),
            expanded.len() == i,
            s@ == plist_args_spec(expanded),
            forall|t: int|
                0 <= t < i && !tilde_lead(#[trigger] paths.deep_view()[t]) ==> expanded[t]
                    == paths.deep_view()[t],
        decreases paths.len() - i,
    {
        let e = expand(paths[i].as_str());
        if i > 0 {
            s.append("\n");
        }
        s.append("        <string>");
        s.append(e.as_str());
        s.append("</string>");
        proof {
            let prev = expanded;
            expanded = expanded.push(e@);
            assert(expanded.drop_last() =~= prev);
            assert(expanded.last() == e@);
            assert(paths.deep_view()[i as int] == paths@[i as int]@);
            assert(s@ =~= plist_args_spec(expanded));
        }
        i += 1;
    }
    (s, Ghost(expanded))
}

/// Build the service definition document for the given executable and
/// watched paths. The paths land in the document tilde-expanded; one that
/// does not start with '~' lands verbatim.
pub fn generate_plist(exe: &str, paths: &Vec<String>) -> (r: String)
    ensures
        exists|expanded: Seq<Seq<char>>|
            {
                &&& expanded.len() == paths.len()
                &&& r@ == plist_doc_spec(exe@, #[trigger] plist_args_spec(expanded))
                &&& forall|t: int|
                    0 <= t < paths.len() && !tilde_lead(#[trigger] paths.deep_view()[t])
                        ==> expanded[t] == paths.deep_view()[t]
            },
{
    let (args, expanded) = plist_args(paths);
    let mut s = String::from_str(PLIST_HEAD);
    s.append(SERVICE_ID);
    s.append(PLIST_AFTER_LABEL);
    s.append(exe);
    s.append(PLIST_AFTER_EXE);
    s.append(args.as_str());
    s.append(PLIST_AFTER_ARGS);
    s.append(LOG_STDOUT);
    s.append(PLIST_AFTER_STDOUT);
    s.append(LOG_STDERR);
    s.append(PLIST_TAIL);
    proof {
        assert(s@ =~= plist_doc_spec(exe@, plist_args_spec(expanded@)));
    }
    s
}

} // verus!
