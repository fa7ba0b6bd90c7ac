//! Sums, quotients and a few things to test them with.

use vstd::prelude::*;
use vstd::string::*;

verus! {

pub fn add(left: usize, right: usize) -> (sum: usize)
    requires
        left + right <= usize::MAX,
    ensures
        sum == left + right,
{
    left + right
}

/// Divides `left` by `right`, or says that it cannot.
pub fn divide(left: usize, right: usize) -> (quotient: Result<usize, String>)
    ensures
        right == 0 <==> quotient is Err,
        quotient matches Ok(q) ==> q == left / right,
        quotient matches Err(why) ==> why@ == "Cannot divide by zero"@,
{
    if right == 0 {
        return Err(String::from_str("Cannot divide by zero"));
    }
    Ok(left / right)
}

#[derive(Debug)]
pub struct Rectangle {
    pub width: u32,
    pub height: u32,
}

impl Rectangle {
    /// Whether `other` fits inside with room to spare on every side.
    pub fn can_hold(&self, other: &Rectangle) -> (holds: bool)
        ensures
            holds == (self.width > other.width && self.height > other.height),
    {
        self.width > other.width && self.height > other.height
    }
}

pub fn greetings(name: &str) -> (greeting: String)
    ensures
        greeting@ == "Hello, "@ + name@ + "!"@,
{
    let mut greeting = String::from_str("Hello, ");
    greeting.append(name);
    greeting.append("!");
    greeting
}

} // verus!
