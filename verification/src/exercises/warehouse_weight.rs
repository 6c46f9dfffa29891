//! Find two warehouse boxes whose weights together hit a shipping
//! container's target weight exactly.

use vstd::prelude::*;

use crate::exercises::{has_pair, pair_sums_to};

verus! {

/// Return indices `[i, j]` of two distinct boxes whose weights sum to
/// `target_weight`, or an empty vector when no such pair exists.  Of all
/// pairs, the returned one is lexicographically least: `i` is the
/// earliest usable first position, and `j` the earliest partner for it.
pub fn find_box_pair(box_weights: Vec<i32>, target_weight: i32) -> (r: Vec<i32>)
    requires
        box_weights@.len() <= i32::MAX,
    ensures
        !has_pair(box_weights@, target_weight as int) ==> r@.len() == 0,
        has_pair(box_weights@, target_weight as int) ==> {
            &&& r@.len() == 2
            &&& pair_sums_to(box_weights@, target_weight as int, r@[0] as int, r@[1] as int)
            &&& forall|a: int, b: int|
                pair_sums_to(box_weights@, target_weight as int, a, b) ==> a >= r@[0]
            &&& forall|b: int|
                pair_sums_to(box_weights@, target_weight as int, r@[0] as int, b) ==> b >= r@[1]
        },
{
    let mut i: usize = 0;
    while i < box_weights.len()
        invariant
            box_weights@.len() <= i32::MAX,
            i <= box_weights@.len(),
            forall|a: int, b: int|
                pair_sums_to(box_weights@, target_weight as int, a, b) ==> a >= i,
        decreases box_weights@.len() - i,
    {
        let mut j: usize = i + 1;
        while j < box_weights.len()
            invariant
                i < j <= box_weights@.len(),
                forall|b: int| i < b < j ==> box_weights@[i as int] + box_weights@[b] != target_weight,
            decreases box_weights@.len() - j,
        {
            if (box_weights[i] as i64) + (box_weights[j] as i64) == (target_weight as i64) {
                proof {
                    assert(pair_sums_to(box_weights@, target_weight as int, i as int, j as int));
                }
                return vec![i as i32, j as i32];
            }
            j = j + 1;
        }
        proof {
            assert forall|a: int, b: int|
                pair_sums_to(box_weights@, target_weight as int, a, b) implies a >= i + 1 by {
                if a == i {
                    assert(box_weights@[i as int] + box_weights@[b] != target_weight);
                }
            }
        }
        i = i + 1;
    }
    proof {
        assert(!has_pair(box_weights@, target_weight as int));
    }
    Vec::new()
}

} // verus!
