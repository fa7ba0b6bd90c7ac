//! Guess the number: the rules of the game, without the talking.

use vstd::prelude::*;
use vstd::string::*;
use crate::parse::{parse_i32, parsed_i32, trimmed};
use crate::random::random_in_range;
use crate::text::{push_signed_decimal, signed_decimal};

verus! {

/// The smallest number that can be guessed.
pub const LOWEST: i32 = 1;

/// The largest number that can be guessed.
pub const HIGHEST: i32 = 100;

/// A guess that is known to lie between 1 and 100.
pub struct Guess {
    value: i32,
}

/// How a guess compares with the secret number.
#[derive(Clone, Copy, Debug, PartialEq, Eq, Structural)]
pub enum Verdict {
    TooSmall,
    TooBig,
    Win,
}

/// What the game makes of one line of input.
pub enum Turn {
    /// The line was no number.
    NotANumber,
    /// The number cannot be a guess; the text says why.
    Rejected(String),
    /// A guess, and how it compares with the secret number.
    Judged(Guess, Verdict),
}

/// What is said of a number that cannot be a guess.
pub open spec fn out_of_range_text(value: int) -> Seq<char> {
    "Guess value must be between 1 and 100, got "@ + signed_decimal(value) + "."@
}

/// How `guess` compares with `secret`.
pub open spec fn verdict_of(guess: int, secret: int) -> Verdict {
    if guess < secret {
        Verdict::TooSmall
    } else if guess > secret {
        Verdict::TooBig
    } else {
        Verdict::Win
    }
}

impl Guess {
    #[verifier::type_invariant]
    spec fn in_range(self) -> bool {
        LOWEST <= self.value <= HIGHEST
    }

    pub closed spec fn spec_value(&self) -> i32 {
        self.value
    }

    /// Accepts `value` as a guess if it lies between 1 and 100, and says what
    /// is wrong with it if not.
    pub fn new(value: i32) -> (guess: Result<Guess, String>)
        ensures
            LOWEST <= value <= HIGHEST <==> guess is Ok,
            guess matches Ok(g) ==> g.value() == value,
            guess matches Err(why) ==> why@ == out_of_range_text(value as int),
    {
        if value < LOWEST || value > HIGHEST {
            let mut why = String::from_str("Guess value must be between 1 and 100, got ");
            push_signed_decimal(&mut why, value as i64);
            why.append(".");
            return Err(why);
        }
        Ok(Guess { value })
    }

    #[verifier::when_used_as_spec(spec_value)]
    pub fn value(&self) -> (value: i32)
        ensures
            value == self.spec_value(),
            LOWEST <= value <= HIGHEST,
    {
        proof {
            use_type_invariant(self);
        }
        self.value
    }
}

impl Verdict {
    /// What the player is told.
    pub fn message(&self) -> (text: &'static str)
        ensures
            text@ == match self {
                Verdict::TooSmall => "Too small..."@,
                Verdict::TooBig => "Too big!"@,
                Verdict::Win => "You win!!!"@,
            },
    {
        match self {
            Verdict::TooSmall => "Too small...",
            Verdict::TooBig => "Too big!",
            Verdict::Win => "You win!!!",
        }
    }
}

/// Picks the number to be guessed: any from 1 to 100.
pub fn secret_number() -> (secret: i32)
    ensures
        LOWEST <= secret <= HIGHEST,
{
    random_in_range(LOWEST, HIGHEST + 1)
}

/// Compares a guess with the secret number.
pub fn judge(guess: &Guess, secret: i32) -> (verdict: Verdict)
    ensures
        verdict == verdict_of(guess.value() as int, secret as int),
{
    let value: i32 = guess.value();
    if value < secret {
        Verdict::TooSmall
    } else if value > secret {
        Verdict::TooBig
    } else {
        Verdict::Win
    }
}

/// Whether `turn` is what the game makes of a line that reads as `parsed`:
/// no number is no guess, a number from 1 to 100 is a guess and is compared
/// with the secret number, and any other number is turned down.
pub open spec fn is_turn(parsed: Option<i32>, secret: i32, turn: Turn) -> bool {
    match parsed {
        None => turn is NotANumber,
        Some(value) => if LOWEST <= value <= HIGHEST {
            turn matches Turn::Judged(guess, verdict) && guess.value() == value && verdict
                == verdict_of(value as int, secret as int)
        } else {
            turn matches Turn::Rejected(why) && why@ == out_of_range_text(value as int)
        },
    }
}

/// One turn of the game, given what the player's line reads as.
pub fn respond(parsed: Option<i32>, secret: i32) -> (turn: Turn)
    ensures
        is_turn(parsed, secret, turn),
{
    match parsed {
        None => Turn::NotANumber,
        Some(value) => match Guess::new(value) {
            Ok(guess) => {
                let verdict = judge(&guess, secret);
                Turn::Judged(guess, verdict)
            },
            Err(why) => Turn::Rejected(why),
        },
    }
}

/// One turn of the game on the line that the player typed.
pub fn play(line: &str, secret: i32) -> (turn: Turn)
    ensures
        is_turn(parsed_i32(trimmed(line@)), secret, turn),
{
    respond(parse_i32(line), secret)
}

} // verus!
