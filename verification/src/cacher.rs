//! A calculation that is made once and remembered.

use vstd::prelude::*;

verus! {

/// A calculation together with its result, once it has one.
#[verifier::reject_recursive_types(U)]
pub struct Cacher<T: Fn(U) -> U, U: Copy> {
    calculation: T,
    value: Option<U>,
}

impl<T: Fn(U) -> U, U: Copy> Cacher<T, U> {
    pub closed spec fn calculation(&self) -> T {
        self.calculation
    }

    /// The result remembered, if the calculation has been made.
    pub closed spec fn cached(&self) -> Option<U> {
        self.value
    }

    /// A cacher that has not calculated anything yet.
    pub fn new(calculation: T) -> (cacher: Cacher<T, U>)
        ensures
            cacher.calculation() == calculation,
            cacher.cached() is None,
    {
        Cacher { calculation, value: None }
    }

    /// The remembered result, whatever `arg` is; on the first call the
    /// calculation is made on `arg` and its result remembered.
    pub fn value(&mut self, arg: U) -> (v: U)
        requires
            old(self).cached() is None ==> call_requires(old(self).calculation(), (arg,)),
        ensures
            final(self).calculation() == old(self).calculation(),
            final(self).cached() == Some(v),
            old(self).cached() matches Some(known) ==> v == known,
            old(self).cached() is None ==> call_ensures(old(self).calculation(), (arg,), v),
    {
        match self.value {
            Some(v) => v,
            None => {
                let v = (self.calculation)(arg);
                self.value = Some(v);
                v
            },
        }
    }
}

} // verus!
