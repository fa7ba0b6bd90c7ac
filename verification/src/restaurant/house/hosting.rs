//! Seating.

use vstd::prelude::*;

verus! {

pub fn add_to_waitlist() {
}

#[allow(dead_code)]
fn _seat_at_table() {
}

} // verus!
