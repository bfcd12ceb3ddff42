//! Depth ordering of projected points.
//!
//! Projection yields one point per body together with its depth, the signed
//! distance along the camera's forward axis.  Rendering draws back to front
//! (painter's algorithm), so the points must be arranged in non-decreasing
//! order of depth.  Depths are compared through an order-preserving integer
//! key, so any strictly monotone encoding of the depth scale may be used.

use vstd::prelude::*;
use vstd::multiset::Multiset;
use vstd::seq_lib::group_to_multiset_ensures;

verus! {

broadcast use group_to_multiset_ensures;

/// The entries are in non-decreasing order of their depth key.
pub open spec fn sorted_by_depth(s: Seq<(u64, usize)>) -> bool {
    forall|p: int, q: int| 0 <= p < q < s.len() ==> (#[trigger] s[p]).0 <= (#[trigger] s[q]).0
}

/// Arranges `(depth key, body index)` entries in non-decreasing order of
/// depth key: the result holds exactly the entries of `points` (as a
/// multiset) and is sorted.  Entries of equal depth may appear in any order.
pub fn sort_by_depth(points: &Vec<(u64, usize)>) -> (r: Vec<(u64, usize)>)
    ensures
        r@.to_multiset() == points@.to_multiset(),
        r@.len() == points@.len(),
        sorted_by_depth(r@),
{
    let mut rest: Vec<(u64, usize)> = Vec::new();
    let mut i: usize = 0;
    while i < points.len()
        invariant
            i <= points@.len(),
            rest@ == points@.subrange(0, i as int),
        decreases points@.len() - i,
    {
        rest.push(points[i]);
        i += 1;
    }
    assert(rest@ == points@);

    let mut out: Vec<(u64, usize)> = Vec::new();
    while rest.len() > 0
        invariant
            out@.to_multiset().add(rest@.to_multiset()) == points@.to_multiset(),
            out@.len() + rest@.len() == points@.len(),
            sorted_by_depth(out@),
            forall|p: int, q: int|
                0 <= p < out@.len() && 0 <= q < rest@.len() ==> (#[trigger] out@[p]).0
                    <= (#[trigger] rest@[q]).0,
        decreases rest@.len(),
    {
        let mut m: usize = 0;
        let mut t: usize = 1;
        while t < rest.len()
            invariant
                m < t,
                t <= rest@.len(),
                forall|k: int| 0 <= k < t ==> (#[trigger] rest@[m as int]).0 <= rest@[k].0,
            decreases rest@.len() - t,
        {
            if rest[t].0 < rest[m].0 {
                m = t;
            }
            t += 1;
        }
        let picked = rest[m];
        let ghost old_out = out@;
        let ghost old_rest = rest@;
        out.push(picked);
        rest.remove(m);
        proof {
            assert(out@ == old_out.push(picked));
            assert(old_out.push(picked).to_multiset() =~= old_out.to_multiset().insert(picked));
            assert(rest@ == old_rest.remove(m as int));
            assert(old_rest.remove(m as int).to_multiset() =~= old_rest.to_multiset().remove(
                picked,
            ));
            assert(old_rest.contains(picked));
            assert(old_rest.to_multiset().count(picked) > 0);
            assert(out@.to_multiset().add(rest@.to_multiset()) =~= points@.to_multiset());
            assert(forall|q: int|
                0 <= q < rest@.len() ==> (#[trigger] rest@[q]) == old_rest[q]
                    || rest@[q] == old_rest[q + 1]);
        }
    }
    proof {
        assert(rest@.to_multiset() =~= Multiset::<(u64, usize)>::empty());
        assert(out@.to_multiset() =~= points@.to_multiset());
    }
    out
}

} // verus!
