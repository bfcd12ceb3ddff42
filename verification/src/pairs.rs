//! The pair schedule of the pairwise integrator.
//!
//! One integration step accumulates the mutual attraction of every unordered
//! pair of bodies exactly once, and the short-circuiting pair scan used for
//! collision detection walks the same schedule.  `pair_indices` materialises
//! that schedule: every pair `(i, j)` with `i < j < n`, each exactly once, in
//! the order the nested loops of the integrator visit them (ascending `i`,
//! then ascending `j`).

use vstd::prelude::*;

verus! {

/// `a` comes strictly before `b` in the schedule order: ascending first
/// index, ties broken by ascending second index.
pub open spec fn pair_before(a: (usize, usize), b: (usize, usize)) -> bool {
    a.0 < b.0 || (a.0 == b.0 && a.1 < b.1)
}

/// Every unordered pair of distinct indices below `n`, in schedule order.
///
/// The result is pinned down completely: it lists only pairs `(i, j)` with
/// `i < j < n`, it lists every such pair, and it is strictly ordered (hence
/// free of duplicates).
pub fn pair_indices(n: usize) -> (r: Vec<(usize, usize)>)
    ensures
        forall|k: int|
            0 <= k < r@.len() ==> (#[trigger] r@[k]).0 < r@[k].1 && r@[k].1 < n,
        forall|a: int, b: int|
            0 <= a < b < n ==> #[trigger] r@.contains((a as usize, b as usize)),
        forall|k1: int, k2: int|
            0 <= k1 < k2 < r@.len() ==> pair_before(r@[k1], r@[k2]),
{
    let mut r: Vec<(usize, usize)> = Vec::new();
    let mut i: usize = 0;
    while i < n
        invariant
            i <= n,
            forall|k: int|
                0 <= k < r@.len() ==> (#[trigger] r@[k]).0 < r@[k].1 && r@[k].1 < n,
            forall|a: int, b: int|
                0 <= a < b < n && a < i ==> #[trigger] r@.contains((a as usize, b as usize)),
            forall|k: int| 0 <= k < r@.len() ==> (#[trigger] r@[k]).0 < i,
            forall|k1: int, k2: int|
                0 <= k1 < k2 < r@.len() ==> pair_before(r@[k1], r@[k2]),
        decreases n - i,
    {
        let mut j: usize = i + 1;
        while j < n
            invariant
                i < n,
                i < j,
                j <= n,
                forall|k: int|
                    0 <= k < r@.len() ==> (#[trigger] r@[k]).0 < r@[k].1 && r@[k].1 < n,
                forall|a: int, b: int|
                    0 <= a < b < n && a < i ==> #[trigger] r@.contains((a as usize, b as usize)),
                forall|b: int| i < b < j ==> #[trigger] r@.contains((i as usize, b as usize)),
                forall|k: int|
                    0 <= k < r@.len() ==> (#[trigger] r@[k]).0 < i
                        || (r@[k].0 == i && r@[k].1 < j),
                forall|k1: int, k2: int|
                    0 <= k1 < k2 < r@.len() ==> pair_before(r@[k1], r@[k2]),
            decreases n - j,
        {
            let ghost old_r = r@;
            r.push((i, j));
            proof {
                assert(r@ == old_r.push((i, j)));
                assert(forall|k: int| 0 <= k < old_r.len() ==> r@[k] == old_r[k]);
                assert(r@[r@.len() - 1] == (i, j));
                assert forall|a: int, b: int|
                    0 <= a < b < n && a < i implies #[trigger] r@.contains(
                    (a as usize, b as usize),
                ) by {
                    assert(old_r.contains((a as usize, b as usize)));
                    let w = choose|w: int|
                        0 <= w < old_r.len() && old_r[w] == (a as usize, b as usize);
                    assert(r@[w] == (a as usize, b as usize));
                }
                assert forall|b: int| i < b < j + 1 implies #[trigger] r@.contains(
                    (i as usize, b as usize),
                ) by {
                    if b < j {
                        assert(old_r.contains((i as usize, b as usize)));
                        let w = choose|w: int|
                            0 <= w < old_r.len() && old_r[w] == (i as usize, b as usize);
                        assert(r@[w] == (i as usize, b as usize));
                    } else {
                        assert(r@[r@.len() - 1] == (i as usize, b as usize));
                    }
                }
            }
            j += 1;
        }
        i += 1;
    }
    r
}

} // verus!
