//! The count a user asks for, and how it is written.
//!
//! A count is written as an optional sign followed by decimal digits. A
//! number without a sign counts from the end, exactly as one with a minus
//! sign does; only an explicit plus sign makes a count a starting position.

use vstd::prelude::*;
use vstd::string::*;
use vstd::utf8::is_ascii_chars;
use crate::decimal::{decimal_value, is_decimal, is_digit, parse_magnitude};

verus! {

/// How many lines or bytes to select, and from which end.
///
/// `TakeNum(n)` with a negative `n` selects the last `|n|` items; with a
/// positive `n` it selects everything from the `n`-th item (counted from one)
/// up to the end; `TakeNum(0)` selects nothing. `PlusZero` selects everything
/// and is a value of its own, distinct from `TakeNum(0)`.
#[derive(Debug, Clone, Copy, PartialEq, Eq, Structural)]
pub enum TakeValue {
    PlusZero,
    TakeNum(i64),
}

/// The text of a count that could not be read.
#[derive(Debug, PartialEq, Eq)]
pub struct InvalidCount {
    pub offending: String,
}

impl InvalidCount {
    /// The text that was refused, unchanged.
    pub fn to_string(&self) -> (s: String)
        ensures
            s@ == self.offending@,
    {
        self.offending.clone()
    }
}

/// The text begins with a plus sign.
pub open spec fn has_plus(s: Seq<char>) -> bool {
    s.len() > 0 && s[0] == '+'
}

/// The text begins with a minus sign.
pub open spec fn has_minus(s: Seq<char>) -> bool {
    s.len() > 0 && s[0] == '-'
}

/// The text begins with a sign.
pub open spec fn has_sign(s: Seq<char>) -> bool {
    has_plus(s) || has_minus(s)
}

/// What follows the sign, or the whole text where there is no sign.
pub open spec fn digits_of(s: Seq<char>) -> Seq<char> {
    if has_sign(s) {
        s.skip(1)
    } else {
        s
    }
}

/// The text is an optional sign followed by at least one digit, and holds
/// nothing else.
pub open spec fn is_count(s: Seq<char>) -> bool {
    is_decimal(digits_of(s))
}

/// The number that the digits of the text denote, whatever its sign.
pub open spec fn magnitude(s: Seq<char>) -> nat {
    decimal_value(digits_of(s))
}

/// The number that the text denotes as a count: positive only behind a plus
/// sign, and negative both behind a minus sign and without a sign.
pub open spec fn count_value(s: Seq<char>) -> int {
    if has_plus(s) {
        magnitude(s) as int
    } else {
        -(magnitude(s) as int)
    }
}

/// The number that the text denotes as an ordinary signed numeral: negative
/// only behind a minus sign.
pub open spec fn written_value(s: Seq<char>) -> int {
    if has_minus(s) {
        -(magnitude(s) as int)
    } else {
        magnitude(s) as int
    }
}

/// The digits of the text denote a number of 64 bits with a sign. This is
/// asked of the digits as they stand, before any sign is applied, so the
/// least number of 64 bits cannot be written: its digits denote one more
/// than the greatest.
pub open spec fn fits(s: Seq<char>) -> bool {
    magnitude(s) <= i64::MAX
}

/// The count that the text denotes: zero behind a plus sign is `PlusZero`,
/// everything else is the number under the sign convention of counts.
pub open spec fn take_value(s: Seq<char>) -> TakeValue {
    if has_plus(s) && magnitude(s) == 0 {
        TakeValue::PlusZero
    } else {
        TakeValue::TakeNum(count_value(s) as i64)
    }
}

/// What a text gives when it is read as a count: the count that it denotes,
/// where it is an optional sign followed by digits that denote a number of 64
/// bits with a sign, and nothing otherwise.
pub open spec fn count_of(s: Seq<char>) -> Option<TakeValue> {
    if is_count(s) && fits(s) {
        Some(take_value(s))
    } else {
        None
    }
}

/// A count is written in ASCII.
pub proof fn lemma_count_is_ascii(s: Seq<char>)
    requires
        is_count(s),
    ensures
        is_ascii_chars(s),
{
    assert forall|i: int| 0 <= i < s.len() implies '\0' <= #[trigger] s[i] <= '\u{7f}' by {
        if has_sign(s) && i > 0 {
            assert(is_digit(digits_of(s)[i - 1]));
        }
    }
}

/// The sign that the text begins with, if it begins with one.
fn leading_sign(val: &str) -> (r: Option<char>)
    ensures
        r == if has_plus(val@) {
            Some('+')
        } else if has_minus(val@) {
            Some('-')
        } else {
            None
        },
{
    if val.is_empty() {
        None
    } else {
        let c = val.get_char(0);
        if c == '+' || c == '-' {
            Some(c)
        } else {
            None
        }
    }
}

/// Reads the digits of `val`, which start at `from`, as a number of 64 bits
/// with a sign, and negates it where `negative` is set.
fn parse_signed(val: &str, from: usize, negative: bool) -> (r: Option<i64>)
    requires
        is_ascii(val),
        from <= val@.len(),
    ensures
        match r {
            Some(n) => {
                &&& is_decimal(val@.skip(from as int))
                &&& decimal_value(val@.skip(from as int)) <= i64::MAX
                &&& n == if negative {
                    -(decimal_value(val@.skip(from as int)) as int)
                } else {
                    decimal_value(val@.skip(from as int)) as int
                }
            },
            None => !is_decimal(val@.skip(from as int)) || decimal_value(val@.skip(from as int))
                > i64::MAX,
        },
{
    match parse_magnitude(val, from, 0x7fff_ffff_ffff_ffff) {
        Some(m) => {
            if negative {
                Some(-(m as i64))
            } else {
                Some(m as i64)
            }
        },
        None => None,
    }
}

/// Reads `val` as an ordinary signed numeral: an optional sign, then digits
/// that denote a number of 64 bits with a sign, negative behind a minus sign.
fn parse_i64(val: &str) -> (r: Option<i64>)
    ensures
        match r {
            Some(n) => is_count(val@) && fits(val@) && n == written_value(val@),
            None => !(is_count(val@) && fits(val@)),
        },
{
    if !val.is_ascii() {
        proof {
            if is_count(val@) {
                lemma_count_is_ascii(val@);
            }
        }
        return None;
    }
    let sign = leading_sign(val);
    let from: usize = if sign.is_some() {
        1
    } else {
        0
    };
    let negative = match sign {
        Some(c) => c == '-',
        None => false,
    };
    assert(val@.skip(from as int) =~= digits_of(val@));
    parse_signed(val, from, negative)
}

fn invalid(val: &str) -> (e: InvalidCount)
    ensures
        e.offending@ == val@,
{
    InvalidCount { offending: val.to_owned() }
}

/// Reads a count: an optional sign followed by digits.
///
/// The digits are read as a number from zero up, which must fit in 64 bits
/// with a sign, and the number is then negated unless a plus sign is written:
/// `"3"` and `"-3"` both give `TakeNum(-3)` and `"+3"` gives `TakeNum(3)`.
/// Zero behind a plus sign gives `PlusZero`. Every other text is refused, and
/// the error holds the text.
pub fn parse_num(val: &str) -> (r: Result<TakeValue, InvalidCount>)
    ensures
        match r {
            Ok(v) => count_of(val@) == Some(v),
            Err(e) => count_of(val@) is None && e.offending@ == val@,
        },
        // Nothing but an optional sign followed by digits is accepted.
        !is_count(val@) ==> r is Err,
        // Digits that denote more than the greatest number of 64 bits with a
        // sign are refused, whatever the sign.
        magnitude(val@) > i64::MAX ==> r is Err,
{
    if !val.is_ascii() {
        proof {
            if is_count(val@) {
                lemma_count_is_ascii(val@);
            }
        }
        return Err(invalid(val));
    }
    let sign = leading_sign(val);
    let from: usize = if sign.is_some() {
        1
    } else {
        0
    };
    let negative = match sign {
        Some(c) => c != '+',
        None => true,
    };
    assert(val@.skip(from as int) =~= digits_of(val@));
    match parse_signed(val, from, negative) {
        Some(num) => {
            if !negative && num == 0 {
                Ok(TakeValue::PlusZero)
            } else {
                Ok(TakeValue::TakeNum(num))
            }
        },
        None => Err(invalid(val)),
    }
}

/// Reads a count as [`parse_num`] does and gives the same for every text, by
/// way of the ordinary signed numeral: a text that begins with a sign is read
/// as it stands, and one without a sign is read as a number from zero up and
/// then negated.
pub fn parse_num_without_regex_book_version(val: &str) -> (r: Result<TakeValue, InvalidCount>)
    ensures
        match r {
            Ok(v) => count_of(val@) == Some(v),
            Err(e) => count_of(val@) is None && e.offending@ == val@,
        },
        // Nothing but an optional sign followed by digits is accepted.
        !is_count(val@) ==> r is Err,
        // Digits that denote more than the greatest number of 64 bits with a
        // sign are refused, whatever the sign.
        magnitude(val@) > i64::MAX ==> r is Err,
{
    let sign = leading_sign(val);
    let result = if sign.is_some() {
        parse_i64(val)
    } else {
        match parse_i64(val) {
            Some(num) => Some(-num),
            None => None,
        }
    };
    match result {
        Some(num) => {
            if num == 0 && sign == Some('+') {
                Ok(TakeValue::PlusZero)
            } else {
                Ok(TakeValue::TakeNum(num))
            }
        },
        None => Err(invalid(val)),
    }
}

/// Reads a count as [`parse_num`] does and gives the same for every text: the
/// text must first be an ordinary signed numeral, and its sign then decides
/// what the number means.
pub fn parse_num_without_regex_my_version(val: &str) -> (r: Result<TakeValue, InvalidCount>)
    ensures
        match r {
            Ok(v) => count_of(val@) == Some(v),
            Err(e) => count_of(val@) is None && e.offending@ == val@,
        },
        // Nothing but an optional sign followed by digits is accepted.
        !is_count(val@) ==> r is Err,
        // Digits that denote more than the greatest number of 64 bits with a
        // sign are refused, whatever the sign.
        magnitude(val@) > i64::MAX ==> r is Err,
{
    let num = match parse_i64(val) {
        Some(num) => num,
        None => {
            return Err(invalid(val));
        },
    };
    let result = match leading_sign(val) {
        Some('+') => {
            if num == 0 {
                TakeValue::PlusZero
            } else {
                TakeValue::TakeNum(num)
            }
        },
        Some(_) => TakeValue::TakeNum(num),
        None => TakeValue::TakeNum(-num),
    };
    Ok(result)
}

} // verus!
