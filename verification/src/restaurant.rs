//! A restaurant, front of house and back.

pub mod house;

use vstd::prelude::*;
use crate::random::{random_byte, random_in_range};
use crate::restaurant::house::back_of_house::{fix_incorrect_order, Appetizer, Breakfast};
use crate::restaurant::house::hosting::add_to_waitlist;

verus! {

/// What a guest ends up with: the breakfast and the two appetizers ordered.
pub struct Order {
    pub meal: Breakfast,
    pub first: Appetizer,
    pub second: Appetizer,
}

/// A visit: onto the waitlist, a wrong order put right, then a summer
/// breakfast with rye toast, a soup and a salad.
pub fn eat_at_restaurant() -> (order: Order)
    ensures
        order.meal.toast@ == "Rye"@,
        order.meal.seasonal_fruit@ == "peaches"@,
        order.first == Appetizer::Soup,
        order.second == Appetizer::Salad,
{
    add_to_waitlist();
    add_to_waitlist();
    fix_incorrect_order();
    let meal = Breakfast::summer("Rye");
    Order { meal, first: Appetizer::Soup, second: Appetizer::Salad }
}

/// A visit on a whim: two throws of the dice, then onto the waitlist.
pub fn eat_at_restaurant2() {
    let _secret_number: i32 = random_in_range(1, 100);
    let _random_value: u8 = random_byte();
    add_to_waitlist();
}

} // verus!
