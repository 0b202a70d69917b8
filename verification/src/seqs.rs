//! Filtering a sequence by a mask of flags, the shape shared by the cache's
//! existence check and the git safety partition.

use vstd::prelude::*;

verus! {

/// The elements whose flag is set, in order.
pub open spec fn mask_filter<A>(s: Seq<A>, mask: Seq<bool>) -> Seq<A>
    decreases s.len(),
{
    if s.len() == 0 || mask.len() == 0 {
        Seq::empty()
    } else {
        let rest = mask_filter(s.drop_last(), mask.drop_last());
        if mask.last() {
            rest.push(s.last())
        } else {
            rest
        }
    }
}

/// Negation of a mask.
pub open spec fn neg_mask(mask: Seq<bool>) -> Seq<bool> {
    mask.map_values(|b: bool| !b)
}

/// Each element the filter keeps stood in the input at a position whose
/// flag was set; nothing else gets through.
pub proof fn lemma_mask_filter_membership_at<A>(s: Seq<A>, mask: Seq<bool>, j: int)
    requires
        s.len() == mask.len(),
        0 <= j < mask_filter(s, mask).len(),
    ensures
        exists|i: int| 0 <= i < s.len() && mask[i] && s[i] == mask_filter(s, mask)[j],
    decreases s.len(),
{
    let rest = mask_filter(s.drop_last(), mask.drop_last());
    if j < rest.len() {
        lemma_mask_filter_membership_at(s.drop_last(), mask.drop_last(), j);
        assert(mask_filter(s, mask)[j] == rest[j]);
        let i = choose|i: int|
            0 <= i < s.drop_last().len() && mask.drop_last()[i] && s.drop_last()[i] == rest[j];
        assert(0 <= i < s.len() && mask[i] && s[i] == mask_filter(s, mask)[j]);
    } else {
        assert(mask.last());
        assert(mask_filter(s, mask)[j] == s.last());
        let i = s.len() - 1;
        assert(0 <= i < s.len() && mask[i] && s[i] == mask_filter(s, mask)[j]);
    }
}

/// A mask of only set flags keeps everything.
pub proof fn lemma_mask_filter_all_true<A>(s: Seq<A>, mask: Seq<bool>)
    requires
        s.len() == mask.len(),
        forall|i: int| 0 <= i < mask.len() ==> mask[i],
    ensures
        mask_filter(s, mask) == s,
    decreases s.len(),
{
    if s.len() == 0 {
        assert(mask_filter(s, mask) =~= s);
    } else {
        lemma_mask_filter_all_true(s.drop_last(), mask.drop_last());
        assert(mask_filter(s, mask) =~= s.drop_last().push(s.last()));
        assert(s.drop_last().push(s.last()) =~= s);
    }
}

/// Filter a vector of strings by a mask of flags, keeping order.
pub fn filter_by_mask(items: &Vec<String>, keep: &Vec<bool>) -> (r: Vec<String>)
    requires
        items.len() == keep.len(),
    ensures
        r.deep_view() == mask_filter(items.deep_view(), keep@),
{
    let mut r: Vec<String> = Vec::new();
    let mut i: usize = 0;
    while i < items.len()
        invariant
            items.len() == keep.len(),
            i <= items.len(),
            r.deep_view() == mask_filter(
                items.deep_view().take(i as int),
                keep@.take(i as int),
            ),
        decreases items.len() - i,
    {
        let ghost prev_items = items.deep_view().take(i as int);
        let ghost prev_keep = keep@.take(i as int);
        let ghost cur_items = items.deep_view().take(i as int + 1);
        let ghost cur_keep = keep@.take(i as int + 1);
        proof {
            assert(cur_items.drop_last() =~= prev_items);
            assert(cur_keep.drop_last() =~= prev_keep);
            assert(cur_items.last() == items.deep_view()[i as int]);
            assert(cur_keep.last() == keep@[i as int]);
        }
        if keep[i] {
            let ghost old_r = r.deep_view();
            r.push(items[i].clone());
            proof {
                assert(r.deep_view() =~= old_r.push(items.deep_view()[i as int]));
            }
        }
        i += 1;
    }
    proof {
        assert(items.deep_view().take(items.len() as int) =~= items.deep_view());
        assert(keep@.take(keep.len() as int) =~= keep@);
    }
    r
}

} // verus!
