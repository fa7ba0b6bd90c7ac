//! References that live as long as what they are chosen from.

use vstd::prelude::*;
use vstd::std_specs::cmp::{PartialOrdIs, PartialOrdSpec};
use vstd::string::*;

verus! {

/// The longer of two strings, by their length in bytes; the second where they
/// are equally long.
pub fn longest<'a>(x: &'a str, y: &'a str) -> (longer: &'a str)
    ensures
        longer@ == if x.spec_bytes().len() > y.spec_bytes().len() {
            x@
        } else {
            y@
        },
{
    if x.as_bytes().len() > y.as_bytes().len() {
        x
    } else {
        y
    }
}

/// How two values stand to each other.
#[derive(Clone, Copy, Debug, PartialEq, Eq, Structural)]
pub enum Standing {
    FirstGreater,
    SecondGreater,
    /// Neither is greater: they are equal, or cannot be compared.
    Level,
}

impl Standing {
    /// What is said of the value that came out on top, before it is shown.
    pub open spec fn caption_text(self) -> Seq<char> {
        match self {
            Standing::FirstGreater => "First is greater: "@,
            Standing::SecondGreater => "Second is greater: "@,
            Standing::Level => "Both are equal: "@,
        }
    }

    pub fn caption(&self) -> (text: &'static str)
        ensures
            text@ == self.caption_text(),
    {
        match self {
            Standing::FirstGreater => "First is greater: ",
            Standing::SecondGreater => "Second is greater: ",
            Standing::Level => "Both are equal: ",
        }
    }
}

/// How `first` and `second` stand to each other.
pub open spec fn standing_of<T: PartialOrd>(first: &T, second: &T) -> Standing {
    if first.is_gt(second) {
        Standing::FirstGreater
    } else if first.is_lt(second) {
        Standing::SecondGreater
    } else {
        Standing::Level
    }
}

/// The value that is shown under `standing`: the second where it is greater,
/// the first in every other case.
pub open spec fn shown_for<'a, T>(standing: Standing, first: &'a T, second: &'a T) -> &'a T {
    if standing == Standing::SecondGreater {
        second
    } else {
        first
    }
}

/// Compares two values. What comes out is their standing, for any type whose
/// comparison keeps to its specification.
pub fn compare<'a, T: PartialOrd>(first: &'a T, second: &'a T) -> (standing: Standing)
    ensures
        T::obeys_partial_cmp_spec() ==> standing == standing_of(first, second),
{
    if first > second {
        Standing::FirstGreater
    } else if first < second {
        Standing::SecondGreater
    } else {
        Standing::Level
    }
}

/// Compares two values and says in a line which is greater, showing it. The
/// line is a caption followed by one of the two values as shown; for any type
/// whose comparison keeps to its specification, they are the caption and the
/// value that go with the standing of the two.
pub fn compare_and_display<'a, T: std::fmt::Display + PartialOrd>(
    first: &'a T,
    second: &'a T,
) -> (line: String)
    ensures
        exists|standing: Standing, shown: String| #[trigger]
            to_string_from_display_ensures::<T>(shown_for(standing, first, second), shown)
                && line@ == standing.caption_text() + shown@ && (T::obeys_partial_cmp_spec()
                ==> standing == standing_of(first, second)),
{
    let standing = compare(first, second);
    let shown = match standing {
        Standing::SecondGreater => second.to_string(),
        _ => first.to_string(),
    };
    let mut line = String::from_str(standing.caption());
    line.append(shown.as_str());
    assert(to_string_from_display_ensures::<T>(shown_for(standing, first, second), shown)
        && line@ == standing.caption_text() + shown@);
    line
}

} // verus!
