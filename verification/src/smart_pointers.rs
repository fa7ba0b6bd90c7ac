//! A box of one's own.

use std::ops::Deref;
use vstd::prelude::*;

verus! {

/// A value in a wrapper that gives it back on request.
pub struct MyBox<T>(pub T);

impl<T> MyBox<T> {
    pub fn new(x: T) -> (boxed: MyBox<T>)
        ensures
            boxed.0 == x,
    {
        MyBox(x)
    }
}

impl<T> Deref for MyBox<T> {
    type Target = T;

    /// The value inside.
    fn deref(&self) -> (inner: &T)
        ensures
            *inner == self.0,
    {
        &self.0
    }
}

/// Five, read directly, through a reference, through a `Box` and through a
/// `MyBox`: always five.
pub fn deref_trait() -> (seen: (i32, i32, i32, i32))
    ensures
        seen == (5i32, 5i32, 5i32, 5i32),
{
    let x: i32 = 5;
    let y = &x;
    let z = Box::new(x);
    let w = MyBox::new(x);
    (x, *y, *z, *w)
}

} // verus!
