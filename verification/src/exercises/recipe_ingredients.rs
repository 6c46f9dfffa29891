//! Find two ingredients whose calorie counts together hit a recipe's
//! target exactly.

use vstd::prelude::*;

use crate::exercises::{has_pair, pair_sums_to};

verus! {

/// Return indices `[i, j]` of two distinct ingredients whose calories sum
/// to `target_calories`, or an empty vector when no such pair exists.  Of
/// all pairs, the returned one is lexicographically least: `i` is the
/// earliest usable first position, and `j` the earliest partner for it.
pub fn find_ingredient_pair(calories: Vec<i32>, target_calories: i32) -> (r: Vec<i32>)
    requires
        calories@.len() <= i32::MAX,
    ensures
        !has_pair(calories@, target_calories as int) ==> r@.len() == 0,
        has_pair(calories@, target_calories as int) ==> {
            &&& r@.len() == 2
            &&& pair_sums_to(calories@, target_calories as int, r@[0] as int, r@[1] as int)
            &&& forall|a: int, b: int|
                pair_sums_to(calories@, target_calories as int, a, b) ==> a >= r@[0]
            &&& forall|b: int|
                pair_sums_to(calories@, target_calories as int, r@[0] as int, b) ==> b >= r@[1]
        },
{
    let mut i: usize = 0;
    while i < calories.len()
        invariant
            calories@.len() <= i32::MAX,
            i <= calories@.len(),
            forall|a: int, b: int|
                pair_sums_to(calories@, target_calories as int, a, b) ==> a >= i,
        decreases calories@.len() - i,
    {
        let mut j: usize = i + 1;
        while j < calories.len()
            invariant
                i < j <= calories@.len(),
                forall|b: int| i < b < j ==> calories@[i as int] + calories@[b] != target_calories,
            decreases calories@.len() - j,
        {
            if (calories[i] as i64) + (calories[j] as i64) == (target_calories as i64) {
                proof {
                    assert(pair_sums_to(calories@, target_calories as int, i as int, j as int));
                }
                return vec![i as i32, j as i32];
            }
            j = j + 1;
        }
        proof {
            assert forall|a: int, b: int|
                pair_sums_to(calories@, target_calories as int, a, b) implies a >= i + 1 by {
                if a == i {
                    assert(calories@[i as int] + calories@[b] != target_calories);
                }
            }
        }
        i = i + 1;
    }
    proof {
        assert(!has_pair(calories@, target_calories as int));
    }
    Vec::new()
}

} // verus!
