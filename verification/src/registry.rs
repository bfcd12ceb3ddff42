//! Identity-based lookup in the body registry.
//!
//! Bodies carry a stable numeric identity, assigned at creation and never
//! reused.  The controller keeps them in a vector whose order is significant
//! only for iteration determinism; a lookup by identity is a linear scan
//! that returns the first (in practice: the only) match.

use vstd::prelude::*;

verus! {

/// Verdict of a short-circuiting scan over body pairs: either a payload that
/// ends the scan, or the instruction to keep going.
pub enum IterStatus<T> {
    Done(T),
    Continue,
}

/// Position of the first body whose identity is `id`, scanning `ids` in
/// storage order; `None` when no body has that identity.
pub fn find_body_index(ids: &Vec<usize>, id: usize) -> (r: Option<usize>)
    ensures
        match r {
            Some(i) => {
                &&& i < ids@.len()
                &&& ids@[i as int] == id
                &&& forall|k: int| 0 <= k < i ==> ids@[k] != id
            },
            None => forall|k: int| 0 <= k < ids@.len() ==> ids@[k] != id,
        },
{
    let n = ids.len();
    let mut i: usize = 0;
    while i < n
        invariant
            n == ids@.len(),
            i <= n,
            forall|k: int| 0 <= k < i ==> ids@[k] != id,
        decreases n - i,
    {
        if ids[i] == id {
            return Some(i);
        }
        i += 1;
    }
    None
}

} // verus!
