//! The stable ordering used for construction sequencing and comparison
//! chains.

use itertools::Itertools;
use vstd::prelude::*;

verus! {

/// Some element of the sequence records the given position.
pub open spec fn position_appears<T>(r: Seq<(i64, usize, T)>, k: int) -> bool {
    exists|j: int| 0 <= j < r.len() && (#[trigger] r[j]).1 == k
}

/// Relies on itertools' sorted_by_key, which sorts with the standard
/// library's stable slice sort: the result holds exactly the given elements,
/// in ascending order of the key, and elements with equal keys keep their
/// order.  Each element carries its own position, so the result can be
/// described exactly: every element is the input element at its recorded
/// position, the recorded positions are a permutation, and the result is
/// ordered by key with the recorded position as the tie-break.
#[verifier::external_body]
pub(crate) fn sort_stable_indexed<T>(v: Vec<(i64, usize, T)>) -> (r: Vec<(i64, usize, T)>)
    requires
        forall|i: int| 0 <= i < v@.len() ==> (#[trigger] v@[i]).1 == i,
    ensures
        r@.len() == v@.len(),
        forall|j: int|
            0 <= j < r@.len() ==> (#[trigger] r@[j]).1 < v@.len() && r@[j] == v@[r@[j].1 as int],
        forall|k: int| 0 <= k < v@.len() ==> #[trigger] position_appears(r@, k),
        forall|j1: int, j2: int|
            0 <= j1 < j2 < r@.len() ==> (r@[j1].0 < r@[j2].0 || (r@[j1].0 == r@[j2].0 && r@[j1].1
                < r@[j2].1)),
{
    v.into_iter().sorted_by_key(|t: &(i64, usize, T)| t.0).collect()
}

} // verus!
