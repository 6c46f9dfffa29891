//! The classic two-sum problem: find the positions of two distinct
//! elements that add up to a target.

use vstd::prelude::*;

use crate::exercises::{has_pair, pair_sums_to};

verus! {

/// Return indices `[i, j]` of two distinct elements of `nums` that sum to
/// `target`, or an empty vector when no such pair exists.  Of all pairs,
/// `j` is the earliest possible second position, and `i` the latest first
/// position matching that `j` — the pair a seen-values map would report.
pub fn two_sum(nums: Vec<i32>, target: i32) -> (r: Vec<i32>)
    requires
        nums@.len() <= i32::MAX,
    ensures
        !has_pair(nums@, target as int) ==> r@.len() == 0,
        has_pair(nums@, target as int) ==> {
            &&& r@.len() == 2
            &&& pair_sums_to(nums@, target as int, r@[0] as int, r@[1] as int)
            &&& forall|a: int, b: int| pair_sums_to(nums@, target as int, a, b) ==> b >= r@[1]
            &&& forall|a: int|
                r@[0] < a < r@[1] ==> (#[trigger] nums@[a]) + nums@[r@[1] as int] != target
        },
{
    let mut j: usize = 0;
    while j < nums.len()
        invariant
            nums@.len() <= i32::MAX,
            j <= nums@.len(),
            forall|a: int, b: int| pair_sums_to(nums@, target as int, a, b) ==> b >= j,
        decreases nums@.len() - j,
    {
        let mut i: usize = j;
        while i > 0
            invariant
                j < nums@.len(),
                i <= j,
                forall|a: int| i <= a < j ==> nums@[a] + nums@[j as int] != target,
            decreases i,
        {
            i = i - 1;
            if (nums[i] as i64) + (nums[j] as i64) == (target as i64) {
                proof {
                    assert(pair_sums_to(nums@, target as int, i as int, j as int));
                }
                return vec![i as i32, j as i32];
            }
        }
        proof {
            assert forall|a: int, b: int|
                pair_sums_to(nums@, target as int, a, b) implies b >= j + 1 by {
                if b == j {
                    assert(nums@[a] + nums@[j as int] != target);
                }
            }
        }
        j = j + 1;
    }
    proof {
        assert(!has_pair(nums@, target as int));
    }
    Vec::new()
}

} // verus!
