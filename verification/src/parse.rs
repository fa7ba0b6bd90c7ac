//! Numbers read from text.

use vstd::prelude::*;
use vstd::string::*;

verus! {

/// Whether `c` is white space, as Unicode's property `White_Space` has it.
pub open spec fn is_whitespace(c: char) -> bool {
    let u = c as u32;
    (0x09 <= u <= 0x0d) || u == 0x20 || u == 0x85 || u == 0xa0 || u == 0x1680 || (0x2000 <= u
        <= 0x200a) || u == 0x2028 || u == 0x2029 || u == 0x202f || u == 0x205f || u == 0x3000
}

/// `s` without the white space that it begins with.
pub open spec fn trim_start(s: Seq<char>) -> Seq<char>
    decreases s.len(),
{
    if s.len() > 0 && is_whitespace(s[0]) {
        trim_start(s.skip(1))
    } else {
        s
    }
}

/// `s` without the white space that it ends with.
pub open spec fn trim_end(s: Seq<char>) -> Seq<char>
    decreases s.len(),
{
    if s.len() > 0 && is_whitespace(s.last()) {
        trim_end(s.drop_last())
    } else {
        s
    }
}

/// `s` without the white space around it.
pub open spec fn trimmed(s: Seq<char>) -> Seq<char> {
    trim_end(trim_start(s))
}

/// The value of `c` as a decimal digit.
pub open spec fn digit_value(c: char) -> Option<nat> {
    let u = c as u32;
    if 0x30 <= u <= 0x39 {
        Some((u - 0x30) as nat)
    } else {
        None
    }
}

/// Whether `s` consists of decimal digits only.
pub open spec fn all_digits(s: Seq<char>) -> bool {
    forall|i: int| 0 <= i < s.len() ==> digit_value(#[trigger] s[i]) is Some
}

/// The number that the digits of `s` write.
pub open spec fn number_of(s: Seq<char>) -> nat
    decreases s.len(),
{
    if s.len() == 0 {
        0
    } else {
        10 * number_of(s.drop_last()) + digit_value(s.last()).unwrap_or(0)
    }
}

/// The integer that `s` writes: an optional sign, `+` or `-`, followed by at
/// least one decimal digit and nothing else.
pub open spec fn parsed_int(s: Seq<char>) -> Option<int> {
    let signed = s.len() > 0 && (s[0] == '-' || s[0] == '+');
    let digits = if signed {
        s.skip(1)
    } else {
        s
    };
    if digits.len() > 0 && all_digits(digits) {
        if s[0] == '-' {
            Some(-(number_of(digits) as int))
        } else {
            Some(number_of(digits) as int)
        }
    } else {
        None
    }
}

/// The integer that `s` writes, if it writes one that an `i32` can hold.
pub open spec fn parsed_i32(s: Seq<char>) -> Option<i32> {
    match parsed_int(s) {
        Some(v) => if i32::MIN <= v <= i32::MAX {
            Some(v as i32)
        } else {
            None
        },
        None => None,
    }
}

/// The natural number that `s` writes, if it writes one that a `u32` can
/// hold. A minus sign makes it none, even before zero.
pub open spec fn parsed_u32(s: Seq<char>) -> Option<u32> {
    match parsed_int(s) {
        Some(v) => if s[0] != '-' && v <= u32::MAX {
            Some(v as u32)
        } else {
            None
        },
        None => None,
    }
}

/// A number only grows as digits are added.
pub proof fn lemma_number_grows(s: Seq<char>, n: int)
    requires
        0 <= n <= s.len(),
    ensures
        number_of(s.take(n)) <= number_of(s),
    decreases s.len() - n,
{
    if n < s.len() {
        lemma_number_grows(s, n + 1);
        assert(s.take(n + 1).drop_last() =~= s.take(n));
    } else {
        assert(s.take(n) =~= s);
    }
}

/// The characters of `s`, one by one.
pub fn chars_of(s: &str) -> (chars: Vec<char>)
    ensures
        chars@ == s@,
{
    let mut chars: Vec<char> = Vec::new();
    for c in it: s.chars()
        invariant
            it.seq() == s@,
            chars@ == s@.take(it.index() as int),
    {
        chars.push(c);
        assert(s@.take(it.index() + 1) =~= s@.take(it.index() as int).push(c));
    }
    assert(s@.take(s@.len() as int) =~= s@);
    chars
}

pub fn is_space(c: char) -> (space: bool)
    ensures
        space == is_whitespace(c),
{
    let u: u32 = c as u32;
    (0x09 <= u && u <= 0x0d) || u == 0x20 || u == 0x85 || u == 0xa0 || u == 0x1680 || (0x2000
        <= u && u <= 0x200a) || u == 0x2028 || u == 0x2029 || u == 0x202f || u == 0x205f || u
        == 0x3000
}

/// Where the text of `chars` begins and ends once the white space around it
/// is left out.
pub fn trim_bounds(chars: &Vec<char>) -> (bounds: (usize, usize))
    ensures
        bounds.0 <= bounds.1 <= chars@.len(),
        chars@.subrange(bounds.0 as int, bounds.1 as int) == trimmed(chars@),
{
    let mut start: usize = 0;
    assert(chars@.skip(0) =~= chars@);
    while start < chars.len() && is_space(chars[start])
        invariant
            start <= chars@.len(),
            trim_start(chars@) == trim_start(chars@.skip(start as int)),
        decreases chars@.len() - start,
    {
        assert(chars@.skip(start as int).skip(1) =~= chars@.skip(start + 1));
        start = start + 1;
    }
    assert(trim_start(chars@) == chars@.skip(start as int));
    let mut end: usize = chars.len();
    while end > start && is_space(chars[end - 1])
        invariant
            start <= end <= chars@.len(),
            trim_end(chars@.skip(start as int)) == trim_end(
                chars@.subrange(start as int, end as int),
            ),
        decreases end,
    {
        assert(chars@.subrange(start as int, end as int).drop_last() =~= chars@.subrange(
            start as int,
            end - 1,
        ));
        end = end - 1;
    }
    proof {
        let kept = chars@.subrange(start as int, end as int);
        assert(chars@.skip(start as int) =~= chars@.subrange(
            start as int,
            chars@.len() as int,
        ));
        assert(trim_end(kept) == kept);
    }
    (start, end)
}

/// Reads the number that the digits `chars[from..to]` write. Gives nothing
/// where something else than digits stands there, or nothing at all, or where
/// the number is above `limit`.
pub fn read_digits(chars: &Vec<char>, from: usize, to: usize, limit: u32) -> (number: Option<
    u32,
>)
    requires
        from <= to <= chars@.len(),
    ensures
        number == ({
            let digits = chars@.subrange(from as int, to as int);
            if digits.len() > 0 && all_digits(digits) && number_of(digits) <= limit {
                Some(number_of(digits) as u32)
            } else {
                None
            }
        }),
{
    let ghost digits = chars@.subrange(from as int, to as int);
    if from == to {
        return None;
    }
    let mut number: u64 = 0;
    let mut at: usize = from;
    while at < to
        invariant
            from <= at <= to <= chars@.len(),
            digits == chars@.subrange(from as int, to as int),
            all_digits(digits.take(at - from)),
            number == number_of(digits.take(at - from)),
            number <= limit,
        decreases to - at,
    {
        let u: u32 = chars[at] as u32;
        assert(chars@[at as int] == digits[at - from]);
        if u < 0x30 || u > 0x39 {
            assert(!all_digits(digits));
            return None;
        }
        proof {
            let longer = digits.take(at - from + 1);
            assert(longer.drop_last() =~= digits.take(at - from));
            assert(longer.last() == digits[at - from]);
            assert forall|i: int| 0 <= i < longer.len() implies digit_value(
                #[trigger] longer[i],
            ) is Some by {
                if i < at - from {
                    assert(longer[i] == digits.take(at - from)[i]);
                }
            }
        }
        number = number * 10 + (u - 0x30) as u64;
        if number > limit as u64 {
            proof {
                lemma_number_grows(digits, at - from + 1);
            }
            return None;
        }
        at = at + 1;
    }
    assert(digits.take(to - from) =~= digits);
    Some(number as u32)
}

/// Reads the integer that `chars[from..to]` writes: an optional sign followed
/// by decimal digits. Gives nothing where that is not what stands there, or
/// where the integer is beyond what an `i32` can hold.
pub fn read_i32(chars: &Vec<char>, from: usize, to: usize) -> (number: Option<i32>)
    requires
        from <= to <= chars@.len(),
    ensures
        number == parsed_i32(chars@.subrange(from as int, to as int)),
{
    let ghost text = chars@.subrange(from as int, to as int);
    if from == to {
        return None;
    }
    let first: char = chars[from];
    assert(first == text[0]);
    let negative = first == '-';
    let signed = negative || first == '+';
    let begin: usize = if signed {
        from + 1
    } else {
        from
    };
    assert(chars@.subrange(begin as int, to as int) =~= if signed {
        text.skip(1)
    } else {
        text
    });
    match read_digits(chars, begin, to, 2147483648) {
        Some(magnitude) => {
            if negative {
                Some((-(magnitude as i64)) as i32)
            } else if magnitude == 2147483648 {
                None
            } else {
                Some(magnitude as i32)
            }
        },
        None => None,
    }
}

/// Reads the natural number that `chars[from..to]` writes: decimal digits,
/// with a `+` before them or without. Gives nothing where that is not what
/// stands there, or where the number is beyond what a `u32` can hold.
pub fn read_u32(chars: &Vec<char>, from: usize, to: usize) -> (number: Option<u32>)
    requires
        from <= to <= chars@.len(),
    ensures
        number == parsed_u32(chars@.subrange(from as int, to as int)),
{
    let ghost text = chars@.subrange(from as int, to as int);
    if from == to {
        return None;
    }
    let first: char = chars[from];
    assert(first == text[0]);
    if first == '-' {
        return None;
    }
    let begin: usize = if first == '+' {
        from + 1
    } else {
        from
    };
    assert(chars@.subrange(begin as int, to as int) =~= if first == '+' {
        text.skip(1)
    } else {
        text
    });
    read_digits(chars, begin, to, u32::MAX)
}

/// Reads the integer that `line` writes, white space around it left aside.
pub fn parse_i32(line: &str) -> (number: Option<i32>)
    ensures
        number == parsed_i32(trimmed(line@)),
{
    let chars = chars_of(line);
    let (from, to) = trim_bounds(&chars);
    read_i32(&chars, from, to)
}

/// Reads the natural number that `line` writes, white space around it left
/// aside.
pub fn parse_u32(line: &str) -> (number: Option<u32>)
    ensures
        number == parsed_u32(trimmed(line@)),
{
    let chars = chars_of(line);
    let (from, to) = trim_bounds(&chars);
    read_u32(&chars, from, to)
}

} // verus!
