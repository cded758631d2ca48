//! Closest-candidate selection for intersection queries.
//!
//! An intersection test often has several candidate hits — the two roots of
//! a quadratic and two end caps, or the records of two subtrees — and must
//! report the nearest valid one, not the first branch that happens to
//! succeed.  The choice is a pure comparison; the renderer hands each valid
//! candidate's ray parameter over as an order-preserving integer key and
//! takes the winning index back.

use vstd::prelude::*;

verus! {

/// The index of the nearest valid candidate: the first index holding the
/// smallest key among the `Some` entries, or `None` when every candidate is
/// invalid.
pub fn min_candidate(candidates: &Vec<Option<u64>>) -> (r: Option<usize>)
    ensures
        r is None <==> (forall|k: int| 0 <= k < candidates@.len() ==> candidates@[k] is None),
        r matches Some(i) ==> {
            &&& 0 <= i < candidates@.len()
            &&& candidates@[i as int] is Some
            &&& forall|k: int|
                0 <= k < candidates@.len() && candidates@[k] is Some
                    ==> candidates@[i as int]->0 <= candidates@[k]->0
            &&& forall|k: int|
                0 <= k < i ==> (candidates@[k] is None || candidates@[i as int]->0
                    < candidates@[k]->0)
        },
{
    let mut best: Option<usize> = None;
    let mut idx: usize = 0;
    while idx < candidates.len()
        invariant
            idx <= candidates@.len(),
            best is None ==> (forall|k: int| 0 <= k < idx ==> candidates@[k] is None),
            best matches Some(i) ==> {
                &&& 0 <= i < idx
                &&& candidates@[i as int] is Some
                &&& forall|k: int|
                    0 <= k < idx && candidates@[k] is Some
                        ==> candidates@[i as int]->0 <= candidates@[k]->0
                &&& forall|k: int|
                    0 <= k < i ==> (candidates@[k] is None || candidates@[i as int]->0
                        < candidates@[k]->0)
            },
        decreases candidates@.len() - idx,
    {
        if let Some(key) = candidates[idx] {
            let replace: bool = match best {
                None => true,
                Some(b) => match candidates[b] {
                    Some(best_key) => key < best_key,
                    None => true,
                },
            };
            if replace {
                best = Some(idx);
            }
        }
        idx += 1;
    }
    best
}

} // verus!
