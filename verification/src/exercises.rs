//! The bundled practice exercises.
//!
//! Each exercise is an ordinary function with a full functional contract;
//! the pair-finding exercises share the specification vocabulary below.

use vstd::prelude::*;

pub mod construction_bars;
pub mod merge_strings_alternatively;
pub mod recipe_ingredients;
pub mod two_sum_v1;
pub mod warehouse_weight;

verus! {

/// Positions `i < j` hold two distinct elements that sum to `target`.
pub open spec fn pair_sums_to(nums: Seq<i32>, target: int, i: int, j: int) -> bool {
    0 <= i < j < nums.len() && nums[i] + nums[j] == target
}

/// Some pair of distinct positions sums to `target`.
pub open spec fn has_pair(nums: Seq<i32>, target: int) -> bool {
    exists|i: int, j: int| pair_sums_to(nums, target, i, j)
}

} // verus!
