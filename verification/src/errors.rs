//! A chain of calls that ends in a check.

use vstd::prelude::*;

verus! {

/// The number that `c` does not take.
pub const FORBIDDEN: i32 = 22;

pub fn a() {
    b();
}

pub fn b() {
    c(21);
}

/// Takes any number but 22.
pub fn c(num: i32)
    requires
        num != FORBIDDEN,
{
}

} // verus!
