//! Small arithmetic conveniences.

use vstd::prelude::*;

verus! {

/// Two-element tuple of `i32`.
pub type IntPair = (i32, i32);

/// Adds one to the number given.
pub fn add_one(x: i32) -> (answer: i32)
    requires
        x < i32::MAX,
    ensures
        answer == x + 1,
{
    x + 1
}

} // verus!
