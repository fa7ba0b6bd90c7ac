//! Strings given, taken, borrowed and sliced.

use vstd::prelude::*;
use vstd::string::*;
use vstd::utf8::*;

verus! {

/// The byte that separates words.
pub const SPACE: u8 = 32;

pub fn gives_ownership() -> (some_string: String)
    ensures
        some_string@ == "Hello"@,
{
    let some_string: String = String::from_str("Hello");
    some_string
}

pub fn takes_and_gives_back(a_string: String) -> (back: String)
    ensures
        back == a_string,
{
    a_string
}

/// The length of `s` in bytes.
pub fn calculate_length(s: &String) -> (len: usize)
    ensures
        len == encode_utf8(s@).len(),
{
    s.as_str().as_bytes().len()
}

/// Appends to `s` without taking it over.
pub fn change(s: &mut String)
    ensures
        final(s)@ == old(s)@ + " World!"@,
{
    s.append(" World!");
}

/// The first word of `s`: everything before its first space, or all of it
/// where it has none.
pub fn first_word(s: &str) -> (word: &str)
    ensures
        word.spec_bytes().len() <= s.spec_bytes().len(),
        word.spec_bytes() == s.spec_bytes().take(word.spec_bytes().len() as int),
        forall|i: int| 0 <= i < word.spec_bytes().len() ==> s.spec_bytes()[i] != SPACE,
        word.spec_bytes().len() < s.spec_bytes().len() ==> s.spec_bytes()[word.spec_bytes().len()
            as int] == SPACE,
{
    let bytes = s.as_bytes();
    let mut i: usize = 0;
    while i < bytes.len()
        invariant
            i <= bytes@.len(),
            bytes@ == s.spec_bytes(),
            forall|k: int| 0 <= k < i ==> bytes@[k] != SPACE,
        decreases bytes@.len() - i,
    {
        if bytes[i] == SPACE {
            proof {
                encode_utf8_valid_utf8(s@);
                is_char_boundary_iff_not_is_continuation_byte(s.spec_bytes(), i as int);
            }
            let (word, _) = s.split_at(i);
            return word;
        }
        i = i + 1;
    }
    assert(s.spec_bytes() =~= s.spec_bytes().take(s.spec_bytes().len() as int));
    s
}

} // verus!
