//! Whole numbers as they are typed on the command line.

use vstd::prelude::*;

use crate::text::{append, chars_of, owned, signed_decimal, signed_of};

verus! {

/// Why a word is not the number that was wanted.
#[derive(Debug, Clone, Copy, PartialEq, Eq, Structural)]
pub enum NumberFault {
    /// There is nothing to read.
    Empty,
    /// A character is not a digit.
    Digit,
    /// The number does not fit, it is too large.
    TooLarge,
    /// The number does not fit, it is too small.
    TooSmall,
    /// The number is outside the range it has to be in.
    Outside {
        /// The number.
        value: i64,
        /// The smallest number that is wanted.
        low: i64,
        /// The largest number that is wanted.
        high: i64,
    },
}

impl NumberFault {
    /// What is wrong with the number, in words.
    pub open spec fn message(self) -> Seq<char> {
        match self {
            NumberFault::Empty => "cannot parse integer from empty string"@,
            NumberFault::Digit => "invalid digit found in string"@,
            NumberFault::TooLarge => "number too large to fit in target type"@,
            NumberFault::TooSmall => "number too small to fit in target type"@,
            NumberFault::Outside { value, low, high } => signed_of(value as int) + " is not in "@
                + signed_of(low as int) + "..="@ + signed_of(high as int),
        }
    }

    /// What is wrong with the number, in words.
    #[must_use]
    pub fn to_string(&self) -> (r: String)
        ensures
            r@ == self.message(),
    {
        match self {
            NumberFault::Empty => owned("cannot parse integer from empty string"),
            NumberFault::Digit => owned("invalid digit found in string"),
            NumberFault::TooLarge => owned("number too large to fit in target type"),
            NumberFault::TooSmall => owned("number too small to fit in target type"),
            NumberFault::Outside { value, low, high } => {
                let mut r = signed_decimal(*value);
                append(&mut r, " is not in ");
                append(&mut r, signed_decimal(*low).as_str());
                append(&mut r, "..=");
                append(&mut r, signed_decimal(*high).as_str());
                r
            },
        }
    }
}

/// The number the decimal digits of `s` add to what was read so far: each digit
/// makes it ten times larger, away from zero. A number beyond `low` or `high` is
/// refused as soon as it is.
pub open spec fn digits_after(
    s: Seq<char>,
    so_far: int,
    negative: bool,
    low: int,
    high: int,
) -> Result<int, NumberFault>
    decreases s.len(),
{
    if s.len() == 0 {
        Ok(so_far)
    } else if !('0' <= s[0] && s[0] <= '9') {
        Err(NumberFault::Digit)
    } else {
        let digit = s[0] as int - 48;
        let next = if negative {
            10 * so_far - digit
        } else {
            10 * so_far + digit
        };
        if next > high {
            Err(NumberFault::TooLarge)
        } else if next < low {
            Err(NumberFault::TooSmall)
        } else {
            digits_after(s.skip(1), next, negative, low, high)
        }
    }
}

/// The number a word stands for, when it is one between `low` and `high`: decimal
/// digits, with a plus sign in front or, where negative numbers can be meant, a
/// minus sign.
pub open spec fn number_in(s: Seq<char>, low: int, high: int) -> Result<int, NumberFault> {
    if s.len() == 0 {
        Err(NumberFault::Empty)
    } else if s.len() == 1 && (s[0] == '+' || s[0] == '-') {
        Err(NumberFault::Digit)
    } else if s[0] == '+' {
        digits_after(s.skip(1), 0, false, low, high)
    } else if s[0] == '-' && low < 0 {
        digits_after(s.skip(1), 0, true, low, high)
    } else {
        digits_after(s, 0, false, low, high)
    }
}

/// The number a word stands for, read as a 64 bit number first and then held
/// against a narrower range.
pub open spec fn ranged(s: Seq<char>, low: int, high: int) -> Result<int, NumberFault> {
    match number_in(s, i64::MIN as int, i64::MAX as int) {
        Ok(value) => if low <= value <= high {
            Ok(value)
        } else {
            Err(NumberFault::Outside { value: value as i64, low: low as i64, high: high as i64 })
        },
        Err(fault) => Err(fault),
    }
}

/// A number that was read is in its range.
pub proof fn a_number_is_in_its_range(s: Seq<char>, low: int, high: int)
    requires
        low <= 0 <= high,
    ensures
        number_in(s, low, high) matches Ok(value) ==> low <= value <= high,
        ranged(s, low, high) matches Ok(value) ==> low <= value <= high,
{
    if s.len() > 0 {
        lemma_digits_stay_in_range(s, 0, false, low, high);
        lemma_digits_stay_in_range(s.skip(1), 0, false, low, high);
        lemma_digits_stay_in_range(s.skip(1), 0, true, low, high);
    }
}

proof fn lemma_digits_stay_in_range(
    s: Seq<char>,
    so_far: int,
    negative: bool,
    low: int,
    high: int,
)
    requires
        low <= so_far <= high,
    ensures
        digits_after(s, so_far, negative, low, high) matches Ok(value) ==> low <= value <= high,
    decreases s.len(),
{
    if s.len() > 0 && '0' <= s[0] && s[0] <= '9' {
        let digit = s[0] as int - 48;
        let next = if negative {
            10 * so_far - digit
        } else {
            10 * so_far + digit
        };
        if low <= next <= high {
            lemma_digits_stay_in_range(s.skip(1), next, negative, low, high);
        }
    }
}

/// The number a word stands for, when it is one between `low` and `high`.
pub fn read_number(s: &str, low: i128, high: i128) -> (r: Result<i128, NumberFault>)
    requires
        -0x1_0000_0000_0000_0000 <= low <= 0 <= high <= 0x1_0000_0000_0000_0000,
    ensures
        match r {
            Ok(value) => number_in(s@, low as int, high as int) == Ok::<int, NumberFault>(
                value as int,
            ) && low <= value <= high,
            Err(fault) => number_in(s@, low as int, high as int) == Err::<int, NumberFault>(fault),
        },
{
    let chars = chars_of(s);
    if chars.len() == 0 {
        return Err(NumberFault::Empty);
    }
    if chars.len() == 1 && (chars[0] == '+' || chars[0] == '-') {
        return Err(NumberFault::Digit);
    }
    let negative = chars[0] == '-' && low < 0;
    let start: usize = if chars[0] == '+' || negative {
        1
    } else {
        0
    };
    let mut i: usize = start;
    let mut so_far: i128 = 0;
    assert(chars@.skip(0) =~= chars@);
    while i < chars.len()
        invariant
            chars@ == s@,
            i <= chars.len(),
            -0x1_0000_0000_0000_0000 <= low <= so_far <= high <= 0x1_0000_0000_0000_0000,
            number_in(s@, low as int, high as int) == digits_after(
                s@.skip(i as int),
                so_far as int,
                negative,
                low as int,
                high as int,
            ),
        decreases chars.len() - i,
    {
        let c = chars[i];
        assert(s@.skip(i as int)[0] == c);
        if !('0' <= c && c <= '9') {
            return Err(NumberFault::Digit);
        }
        let digit: i128 = c as i128 - 48;
        let next: i128 = if negative {
            10 * so_far - digit
        } else {
            10 * so_far + digit
        };
        if next > high {
            return Err(NumberFault::TooLarge);
        }
        if next < low {
            return Err(NumberFault::TooSmall);
        }
        assert(s@.skip(i as int).skip(1) =~= s@.skip(i + 1));
        so_far = next;
        i = i + 1;
    }
    assert(s@.skip(i as int).len() == 0);
    Ok(so_far)
}

/// The number a word stands for, held against a narrower range.
pub fn read_ranged(s: &str, low: i64, high: i64) -> (r: Result<i64, NumberFault>)
    requires
        low <= 0 <= high,
    ensures
        match r {
            Ok(value) => ranged(s@, low as int, high as int) == Ok::<int, NumberFault>(
                value as int,
            ) && low <= value <= high,
            Err(fault) => ranged(s@, low as int, high as int) == Err::<int, NumberFault>(fault),
        },
{
    match read_number(s, i64::MIN as i128, i64::MAX as i128) {
        Ok(value) => {
            let value = value as i64;
            if low <= value && value <= high {
                Ok(value)
            } else {
                Err(NumberFault::Outside { value, low, high })
            }
        },
        Err(fault) => Err(fault),
    }
}

/// `true` for a text that is taken for a number when a minus sign stands in front
/// of it: digits, with at most one point and at most one exponent behind the
/// first of them.
pub open spec fn looks_numeric(s: Seq<char>, point: bool, exponent: bool, first: bool) -> bool
    decreases s.len(),
{
    if s.len() == 0 {
        true
    } else if '0' <= s[0] && s[0] <= '9' {
        looks_numeric(s.skip(1), point, exponent, false)
    } else if s[0] == '.' && !point && !exponent && !first {
        looks_numeric(s.skip(1), true, exponent, false)
    } else if (s[0] == 'e' || s[0] == 'E') && !exponent && !first {
        s.len() > 1 && looks_numeric(s.skip(1), point, true, false)
    } else {
        false
    }
}

/// `true` when the characters from `start` on look like a number.
pub fn is_numeric(chars: &Vec<char>, start: usize) -> (r: bool)
    requires
        start <= chars@.len(),
    ensures
        r == looks_numeric(chars@.skip(start as int), false, false, true),
{
    let mut i: usize = start;
    let mut point = false;
    let mut exponent = false;
    let mut first = true;
    while i < chars.len()
        invariant
            start <= i <= chars@.len(),
            looks_numeric(chars@.skip(start as int), false, false, true) == looks_numeric(
                chars@.skip(i as int),
                point,
                exponent,
                first,
            ),
        decreases chars.len() - i,
    {
        let c = chars[i];
        let ghost rest = chars@.skip(i as int);
        assert(rest[0] == c);
        assert(rest.skip(1) =~= chars@.skip(i + 1));
        if '0' <= c && c <= '9' {
        } else if c == '.' && !point && !exponent && !first {
            point = true;
        } else if (c == 'e' || c == 'E') && !exponent && !first {
            if i + 1 == chars.len() {
                return false;
            }
            exponent = true;
        } else {
            return false;
        }
        first = false;
        i = i + 1;
    }
    assert(chars@.skip(i as int).len() == 0);
    true
}

} // verus!
