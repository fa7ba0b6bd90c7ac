//! A counter that hands out the numbers from one to five.

use vstd::prelude::*;

verus! {

/// The last number that a counter hands out.
pub const LIMIT: u32 = 5;

pub struct Counter {
    pub count: u32,
}

impl Counter {
    pub fn new() -> (counter: Counter)
        ensures
            counter.count == 0,
    {
        Counter { count: 0 }
    }

    /// The next number, until the limit has been handed out; after that
    /// nothing, and the counter stays where it is.
    pub fn next(&mut self) -> (item: Option<u32>)
        ensures
            old(self).count < LIMIT ==> final(self).count == old(self).count + 1 && item == Some(
                final(self).count,
            ),
            old(self).count >= LIMIT ==> final(self).count == old(self).count && item is None,
    {
        if self.count < LIMIT {
            self.count += 1;
            Some(self.count)
        } else {
            None
        }
    }
}

/// The sum, over the pairs of neighbours that two counters hand out side by
/// side, the second one step ahead, of the products that three divides.
pub open spec fn neighbour_products(upto: nat) -> nat
    decreases upto,
{
    if upto == 0 {
        0
    } else {
        let product = upto * (upto + 1);
        neighbour_products((upto - 1) as nat) + if product % 3 == 0 {
            product
        } else {
            0
        }
    }
}

/// Runs two counters side by side, the second one step ahead, multiplies what
/// they hand out pair by pair, and adds up the products that three divides.
pub fn sum_of_neighbour_products() -> (sum: u32)
    ensures
        sum == neighbour_products((LIMIT - 1) as nat),
        sum == 18,
{
    let mut first = Counter::new();
    let mut second = Counter::new();
    let _skipped = second.next();
    let mut sum: u32 = 0;
    loop
        invariant
            first.count < LIMIT,
            second.count == first.count + 1,
            sum == neighbour_products(first.count as nat),
            sum <= 20 * first.count,
        decreases LIMIT - first.count,
    {
        let a = first.next();
        let b = second.next();
        match (a, b) {
            (Some(a), Some(b)) => {
                assert(a * b == a * (a + 1) && a * b <= 20) by (nonlinear_arith)
                    requires
                        1 <= a <= 4,
                        b == a + 1,
                ;
                let product: u32 = a * b;
                if product % 3 == 0 {
                    sum = sum + product;
                }
            },
            _ => {
                proof {
                    reveal_with_fuel(neighbour_products, 5);
                }
                return sum;
            },
        }
    }
}

} // verus!
