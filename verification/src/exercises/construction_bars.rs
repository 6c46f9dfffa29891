//! Find two metal bars whose lengths together hit a required target
//! length exactly.

use vstd::prelude::*;

use crate::exercises::{has_pair, pair_sums_to};

verus! {

/// Return indices `[i, j]` of two distinct bars whose lengths sum to
/// `target_length`, or an empty vector when no such pair exists.  Of all
/// pairs, the returned one is lexicographically least: `i` is the
/// earliest usable first position, and `j` the earliest partner for it.
pub fn find_bar_pair(bar_lengths: Vec<i32>, target_length: i32) -> (r: Vec<i32>)
    requires
        bar_lengths@.len() <= i32::MAX,
    ensures
        !has_pair(bar_lengths@, target_length as int) ==> r@.len() == 0,
        has_pair(bar_lengths@, target_length as int) ==> {
            &&& r@.len() == 2
            &&& pair_sums_to(bar_lengths@, target_length as int, r@[0] as int, r@[1] as int)
            &&& forall|a: int, b: int|
                pair_sums_to(bar_lengths@, target_length as int, a, b) ==> a >= r@[0]
            &&& forall|b: int|
                pair_sums_to(bar_lengths@, target_length as int, r@[0] as int, b) ==> b >= r@[1]
        },
{
    let mut i: usize = 0;
    while i < bar_lengths.len()
        invariant
            bar_lengths@.len() <= i32::MAX,
            i <= bar_lengths@.len(),
            forall|a: int, b: int|
                pair_sums_to(bar_lengths@, target_length as int, a, b) ==> a >= i,
        decreases bar_lengths@.len() - i,
    {
        let mut j: usize = i + 1;
        while j < bar_lengths.len()
            invariant
                i < j <= bar_lengths@.len(),
                forall|b: int| i < b < j ==> bar_lengths@[i as int] + bar_lengths@[b] != target_length,
            decreases bar_lengths@.len() - j,
        {
            if (bar_lengths[i] as i64) + (bar_lengths[j] as i64) == (target_length as i64) {
                proof {
                    assert(pair_sums_to(bar_lengths@, target_length as int, i as int, j as int));
                }
                return vec![i as i32, j as i32];
            }
            j = j + 1;
        }
        proof {
            assert forall|a: int, b: int|
                pair_sums_to(bar_lengths@, target_length as int, a, b) implies a >= i + 1 by {
                if a == i {
                    assert(bar_lengths@[i as int] + bar_lengths@[b] != target_length);
                }
            }
        }
        i = i + 1;
    }
    proof {
        assert(!has_pair(bar_lengths@, target_length as int));
    }
    Vec::new()
}

} // verus!
