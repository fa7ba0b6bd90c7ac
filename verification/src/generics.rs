//! Points of any coordinate type, and the largest item of a list.

use vstd::prelude::*;
use vstd::std_specs::cmp::{PartialOrdIs, PartialOrdSpec};

verus! {

#[derive(Debug)]
pub struct Point<T> {
    pub _x: T,
    pub _y: T,
}

impl<T> Point<T> {
    pub fn x(&self) -> (x: &T)
        ensures
            *x == self._x,
    {
        &self._x
    }
}

#[derive(Debug)]
pub struct Point2<T, U> {
    pub _x: T,
    pub _y: U,
}

impl<T, U> Point2<T, U> {
    /// A point with the `x` of `self` and the `y` of `other`.
    pub fn mixup<V, W>(self, other: Point2<V, W>) -> (mixed: Point2<T, W>)
        ensures
            mixed._x == self._x,
            mixed._y == other._y,
    {
        Point2 { _x: self._x, _y: other._y }
    }
}

/// The largest number of a list that is not empty.
pub fn get_largest_number(list: Vec<i32>) -> (largest: i32)
    requires
        list@.len() > 0,
    ensures
        forall|i: int| 0 <= i < list@.len() ==> list@[i] <= largest,
        exists|i: int| 0 <= i < list@.len() && list@[i] == largest,
{
    let mut largest: i32 = list[0];
    let mut at: usize = 0;
    while at < list.len()
        invariant
            at <= list@.len(),
            list@.len() > 0,
            forall|i: int| 0 <= i < at ==> list@[i] <= largest,
            exists|i: int| 0 <= i < list@.len() && list@[i] == largest,
        decreases list@.len() - at,
    {
        let number: i32 = list[at];
        if number > largest {
            largest = number;
        }
        at = at + 1;
    }
    largest
}

/// What a pass over the first `n` items of `list` leaves as the largest: it
/// starts with the first item and takes each item that is greater than what it
/// holds.
pub open spec fn largest_after<T: PartialOrd>(list: Seq<T>, n: usize) -> T
    decreases n,
{
    if n == 0 {
        list[0]
    } else {
        let held = largest_after(list, (n - 1) as usize);
        if list[n - 1].is_gt(&held) {
            list[n - 1]
        } else {
            held
        }
    }
}

/// The largest item of a list that is not empty: the item that a pass over
/// the list is left with, for any type whose comparison keeps to its
/// specification, and an item of the list in any case.
pub fn get_largest<T: PartialOrd + Copy>(list: Vec<T>) -> (largest: T)
    requires
        list@.len() > 0,
    ensures
        T::obeys_partial_cmp_spec() ==> largest == largest_after(list@, list.len()),
        exists|i: int| 0 <= i < list@.len() && list@[i] == largest,
{
    let mut largest: T = list[0];
    let mut at: usize = 0;
    while at < list.len()
        invariant
            at <= list@.len(),
            list@.len() > 0,
            T::obeys_partial_cmp_spec() ==> largest == largest_after(list@, at),
            exists|i: int| 0 <= i < list@.len() && list@[i] == largest,
        decreases list@.len() - at,
    {
        let item: T = list[at];
        if item > largest {
            largest = item;
        }
        at = at + 1;
    }
    largest
}

} // verus!
