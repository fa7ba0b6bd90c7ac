//! Serving.

use vstd::prelude::*;

verus! {

#[allow(dead_code)]
fn _take_order() {
}

pub fn serve_order() {
}

#[allow(dead_code)]
fn _take_payment() {
}

} // verus!
