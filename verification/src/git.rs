//! The git safety partition: files that version control holds must not be
//! deleted (unless forced), since that would break commit history. The probe
//! itself is a subprocess the caller runs; this module turns its answers
//! into the partition the deletion paths act on.

use crate::seqs::{mask_filter, neg_mask};
use vstd::prelude::*;

verus! {

/// Result of the git safety check.
pub struct SafetyResult {
    /// Files safe to delete.
    pub safe: Vec<String>,
    /// Files that version control holds.
    pub in_git: Vec<String>,
}

/// Partition files by the flag the caller's version-control probe reported
/// for each, keeping order: every file lands in exactly one side.
pub fn check_files(files: &Vec<String>, in_git_flags: &Vec<bool>) -> (r: SafetyResult)
    requires
        files.len() == in_git_flags.len(),
    ensures
        r.in_git.deep_view() == mask_filter(files.deep_view(), in_git_flags@),
        r.safe.deep_view() == mask_filter(files.deep_view(), neg_mask(in_git_flags@)),
        r.safe.len() + r.in_git.len() == files.len(),
{
    let mut safe: Vec<String> = Vec::new();
    let mut in_git: Vec<String> = Vec::new();
    let mut i: usize = 0;
    while i < files.len()
        invariant
            files.len() == in_git_flags.len(),
            i <= files.len(),
            in_git.deep_view() == mask_filter(
                files.deep_view().take(i as int),
                in_git_flags@.take(i as int),
            ),
            safe.deep_view() == mask_filter(
                files.deep_view().take(i as int),
                neg_mask(in_git_flags@.take(i as int)),
            ),
            safe.len() + in_git.len() == i,
        decreases files.len() - i,
    {
        let ghost prev_files = files.deep_view().take(i as int);
        let ghost cur_files = files.deep_view().take(i as int + 1);
        let ghost prev_mask = in_git_flags@.take(i as int);
        let ghost cur_mask = in_git_flags@.take(i as int + 1);
        proof {
            assert(cur_files.drop_last() =~= prev_files);
            assert(cur_mask.drop_last() =~= prev_mask);
            assert(neg_mask(cur_mask).drop_last() =~= neg_mask(prev_mask));
            assert(cur_files.last() == files.deep_view()[i as int]);
            assert(cur_mask.last() == in_git_flags@[i as int]);
            assert(neg_mask(cur_mask).last() == !in_git_flags@[i as int]);
        }
        if in_git_flags[i] {
            let ghost old_t = in_git.deep_view();
            in_git.push(files[i].clone());
            proof {
                assert(in_git.deep_view() =~= old_t.push(files.deep_view()[i as int]));
            }
        } else {
            let ghost old_s = safe.deep_view();
            safe.push(files[i].clone());
            proof {
                assert(safe.deep_view() =~= old_s.push(files.deep_view()[i as int]));
            }
        }
        i += 1;
    }
    proof {
        assert(files.deep_view().take(files.len() as int) =~= files.deep_view());
        assert(in_git_flags@.take(in_git_flags.len() as int) =~= in_git_flags@);
    }
    SafetyResult { safe, in_git }
}

} // verus!
