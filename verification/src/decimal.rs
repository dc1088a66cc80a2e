//! Decimal numerals: what a run of digits denotes, and reading one without
//! overflow.

use vstd::prelude::*;
use vstd::string::*;

verus! {

/// The byte of the digit `0`.
const ZERO: u8 = 48;

/// The byte of the digit `9`.
const NINE: u8 = 57;

/// One of the ten ASCII digits.
pub open spec fn is_digit(c: char) -> bool {
    '0' <= c && c <= '9'
}

/// The number that a digit stands for.
pub open spec fn digit_value(c: char) -> nat
    recommends
        is_digit(c),
{
    (c as int - '0' as int) as nat
}

/// A numeral: at least one character, and nothing but digits.
pub open spec fn is_decimal(s: Seq<char>) -> bool {
    s.len() > 0 && forall|i: int| 0 <= i < s.len() ==> is_digit(#[trigger] s[i])
}

/// The number that a run of digits denotes, the most significant digit
/// first. Leading zeros add nothing; the empty run denotes zero.
pub open spec fn decimal_value(s: Seq<char>) -> nat
    decreases s.len(),
{
    if s.len() == 0 {
        0
    } else {
        10 * decimal_value(s.drop_last()) + digit_value(s.last())
    }
}

/// A run of digits denotes at least what any run it begins with denotes.
pub proof fn lemma_decimal_value_grows(s: Seq<char>, k: int)
    requires
        0 <= k <= s.len(),
    ensures
        decimal_value(s.take(k)) <= decimal_value(s),
    decreases s.len() - k,
{
    if k == s.len() {
        assert(s.take(k) =~= s);
    } else {
        lemma_decimal_value_grows(s.drop_last(), k);
        assert(s.drop_last().take(k) =~= s.take(k));
    }
}

/// Reads the characters of `text` from position `from` on as a numeral that
/// denotes at most `limit`, and gives `None` for everything else.
pub(crate) fn parse_magnitude(text: &str, from: usize, limit: u64) -> (r: Option<u64>)
    requires
        is_ascii(text),
        from <= text@.len(),
    ensures
        match r {
            Some(v) => is_decimal(text@.skip(from as int)) && v == decimal_value(
                text@.skip(from as int),
            ) && v <= limit,
            None => !is_decimal(text@.skip(from as int)) || decimal_value(text@.skip(from as int))
                > limit,
        },
{
    broadcast use is_ascii_spec_bytes;

    let bytes = text.as_bytes();
    let n: usize = bytes.len();
    let ghost run = text@.skip(from as int);
    if from >= n {
        return None;
    }
    let mut i: usize = from;
    let mut acc: u64 = 0;
    while i < n
        invariant
            from <= i <= n,
            n == text@.len(),
            bytes@.len() == n,
            run == text@.skip(from as int),
            forall|j: int| 0 <= j < n ==> bytes@[j] as int == #[trigger] text@[j] as int,
            forall|j: int| 0 <= j < i - from ==> is_digit(#[trigger] run[j]),
            acc == decimal_value(run.take(i - from)),
            acc <= limit,
        decreases n - i,
    {
        let b: u8 = bytes[i];
        let ghost c = text@[i as int];
        assert(run[i - from] == c);
        if b < ZERO || b > NINE {
            return None;
        }
        let next: u128 = acc as u128 * 10 + (b - ZERO) as u128;
        proof {
            let longer = run.take(i - from + 1);
            assert(longer.drop_last() =~= run.take(i - from));
            lemma_decimal_value_grows(run, i - from + 1);
        }
        if next > limit as u128 {
            return None;
        }
        acc = next as u64;
        i += 1;
    }
    assert(run.take(i - from) =~= run);
    Some(acc)
}

/// What follows a leading plus sign, or the whole text where there is none.
pub open spec fn unsigned_digits(s: Seq<char>) -> Seq<char> {
    if s.len() > 0 && s[0] == '+' {
        s.skip(1)
    } else {
        s
    }
}

/// The text is a numeral, with or without a plus sign in front, that denotes
/// a number of 64 bits without a sign.
pub open spec fn is_u64_text(s: Seq<char>) -> bool {
    is_decimal(unsigned_digits(s)) && decimal_value(unsigned_digits(s)) <= u64::MAX
}

/// What is said of a text that is no such number.
pub open spec fn not_an_integer(s: Seq<char>) -> Seq<char> {
    "\""@ + s + "\" not a valid integer"@
}

/// Reads a number of 64 bits without a sign: digits, with or without a plus
/// sign in front. Every other text is refused with a message that quotes it.
pub fn parse_u64(val: &str) -> (r: Result<u64, String>)
    ensures
        match r {
            Ok(n) => is_u64_text(val@) && n == decimal_value(unsigned_digits(val@)),
            Err(msg) => !is_u64_text(val@) && msg@ == not_an_integer(val@),
        },
{
    if val.is_ascii() {
        let from: usize = if !val.is_empty() && val.get_char(0) == '+' {
            1
        } else {
            0
        };
        assert(val@.skip(from as int) =~= unsigned_digits(val@));
        if let Some(n) = parse_magnitude(val, from, u64::MAX) {
            return Ok(n);
        }
    } else {
        assert(!is_decimal(unsigned_digits(val@))) by {
            let i = choose|i: int| 0 <= i < val@.len() && !('\0' <= #[trigger] val@[i] <= '\u{7f}');
            if i > 0 && val@[0] == '+' {
                assert(!is_digit(unsigned_digits(val@)[i - 1]));
            }
        }
    }
    let mut msg = String::from_str("\"");
    msg.append(val);
    msg.append("\" not a valid integer");
    Err(msg)
}

} // verus!
