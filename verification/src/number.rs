//! Decimal numbers as they are written on the command line.

use vstd::prelude::*;

verus! {

/// Why a text is not a number that fits `usize`.
#[derive(Clone, Copy, Debug, PartialEq, Eq, Structural)]
pub enum NumberError {
    /// The text is empty.
    Empty,
    /// The text is not an optional `+` followed by one or more of the digits
    /// `0` to `9`.
    InvalidDigit,
    /// The text is a well-formed number larger than `usize::MAX`.
    Overflow,
}

/// `c` is one of the ten ASCII digits.
pub open spec fn is_digit(c: char) -> bool {
    '0' <= c <= '9'
}

/// The value of an ASCII digit.
pub open spec fn digit_value(c: char) -> nat {
    (c as u32 - '0' as u32) as nat
}

/// Every character of `s` is an ASCII digit.
pub open spec fn all_digits(s: Seq<char>) -> bool {
    forall|i: int| 0 <= i < s.len() ==> is_digit(#[trigger] s[i])
}

/// The number that a string of digits denotes in base ten, leading zeros
/// allowed.
pub open spec fn decimal_value(s: Seq<char>) -> nat
    decreases s.len(),
{
    if s.len() == 0 {
        0
    } else {
        10 * decimal_value(s.drop_last()) + digit_value(s.last())
    }
}

/// The text without its leading `+`, if it has one.
pub open spec fn unsigned_part(s: Seq<char>) -> Seq<char> {
    if s.len() > 0 && s[0] == '+' {
        s.subrange(1, s.len() as int)
    } else {
        s
    }
}

/// What a text denotes: the number written as an optional `+` and at least
/// one digit, or the reason why there is none.
pub open spec fn parse_decimal_spec(s: Seq<char>) -> Result<usize, NumberError> {
    let digits = unsigned_part(s);
    if s.len() == 0 {
        Err(NumberError::Empty)
    } else if digits.len() == 0 || !all_digits(digits) {
        Err(NumberError::InvalidDigit)
    } else if decimal_value(digits) > usize::MAX {
        Err(NumberError::Overflow)
    } else {
        Ok(decimal_value(digits) as usize)
    }
}

/// Reads a decimal number: an optional `+`, then one or more ASCII digits,
/// nothing before, between or after them.
pub fn parse_decimal(text: &str) -> (r: Result<usize, NumberError>)
    ensures
        r == parse_decimal_spec(text@),
{
    let mut value: usize = 0;
    let mut overflowed = false;
    let mut first = true;
    let mut any_digit = false;
    let ghost mut start: int = 0;
    for c in it: text.chars()
        invariant
            it.seq() == text@,
            first == (it.index() == 0),
            start == (if it.index() > 0 && text@[0] == '+' { 1int } else { 0int }),
            start <= it.index(),
            any_digit == (it.index() > start),
            all_digits(text@.subrange(start, it.index() as int)),
            !overflowed ==> value == decimal_value(text@.subrange(start, it.index() as int)),
            overflowed ==> decimal_value(text@.subrange(start, it.index() as int)) > usize::MAX,
    {
        let ghost i = it.index() as int;
        if first && c == '+' {
            proof {
                start = 1;
            }
        } else if '0' <= c && c <= '9' {
            let d = (c as u32 - '0' as u32) as usize;
            proof {
                let grown = text@.subrange(start, i + 1);
                assert(grown.drop_last() =~= text@.subrange(start, i));
            }
            any_digit = true;
            if !overflowed {
                match value.checked_mul(10) {
                    Some(tens) => match tens.checked_add(d) {
                        Some(sum) => {
                            value = sum;
                        },
                        None => {
                            overflowed = true;
                        },
                    },
                    None => {
                        overflowed = true;
                    },
                }
            }
        } else {
            proof {
                assert(unsigned_part(text@)[i - start] == c);
            }
            return Err(NumberError::InvalidDigit);
        }
        first = false;
    }
    proof {
        assert(text@.subrange(start, text@.len() as int) =~= unsigned_part(text@));
    }
    if first {
        Err(NumberError::Empty)
    } else if !any_digit {
        Err(NumberError::InvalidDigit)
    } else if overflowed {
        Err(NumberError::Overflow)
    } else {
        Ok(value)
    }
}

} // verus!
