//! The kitchen.

use vstd::prelude::*;
use vstd::string::*;
use crate::restaurant::house::serving::serve_order;

verus! {

/// Cooks the order again and has it served.
pub fn fix_incorrect_order() {
    _cook_order();
    serve_order();
}

fn _cook_order() {
}

pub struct Breakfast {
    pub toast: String,
    pub seasonal_fruit: String,
}

impl Breakfast {
    /// A summer breakfast: the toast is the guest's choice, the fruit is not.
    pub fn summer(toast: &str) -> (breakfast: Breakfast)
        ensures
            breakfast.toast@ == toast@,
            breakfast.seasonal_fruit@ == "peaches"@,
    {
        Breakfast { toast: String::from_str(toast), seasonal_fruit: String::from_str("peaches") }
    }
}

#[derive(Clone, Copy, Debug, PartialEq, Eq, Structural)]
pub enum Appetizer {
    Soup,
    Salad,
}

} // verus!
