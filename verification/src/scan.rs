//! The content of a file as bytes: how many lines and bytes it holds, and
//! what is left of it when printing starts at a given line or byte.
//!
//! A line ends with a newline byte and includes it. What follows the last
//! newline, if anything does, is a line too.

use vstd::prelude::*;
use vstd::slice::{slice_subrange, slice_to_vec};
use crate::index::{get_start_index, start_index};
use crate::take::TakeValue;

verus! {

/// The byte that ends a line.
pub const NEWLINE: u8 = 10;

/// How many newline bytes the content holds.
pub open spec fn newlines(s: Seq<u8>) -> nat
    decreases s.len(),
{
    if s.len() == 0 {
        0
    } else if s[0] == NEWLINE {
        1 + newlines(s.drop_first())
    } else {
        newlines(s.drop_first())
    }
}

/// How many lines the content holds: one for each newline, and one more for
/// what follows the last newline where the content does not end with one.
pub open spec fn line_count(s: Seq<u8>) -> nat {
    if s.len() > 0 && s.last() != NEWLINE {
        newlines(s) + 1
    } else {
        newlines(s)
    }
}

/// The content without its first `k` lines; nothing where it holds no more
/// than `k` lines.
pub open spec fn skip_lines(s: Seq<u8>, k: nat) -> Seq<u8>
    decreases s.len(),
{
    if k == 0 || s.len() == 0 {
        s
    } else if s[0] == NEWLINE {
        skip_lines(s.drop_first(), (k - 1) as nat)
    } else {
        skip_lines(s.drop_first(), k)
    }
}

/// The content from byte `k` on; nothing where it holds no more than `k`
/// bytes.
pub open spec fn skip_bytes(s: Seq<u8>, k: nat) -> Seq<u8> {
    if k <= s.len() {
        s.skip(k as int)
    } else {
        Seq::empty()
    }
}

/// Counts the lines and the bytes of a file in one pass over its content.
pub fn count_lines_bytes(data: &[u8]) -> (totals: (i64, i64))
    requires
        data@.len() <= i64::MAX,
    ensures
        totals.0 == line_count(data@),
        totals.1 == data@.len(),
{
    let n: usize = data.len();
    let mut num_lines: i64 = 0;
    let mut i: usize = 0;
    assert(data@.skip(0) =~= data@);
    while i < n
        invariant
            i <= n,
            n == data@.len(),
            n <= i64::MAX,
            0 <= num_lines <= i,
            i > 0 && data@[i - 1] != NEWLINE ==> num_lines < i,
            num_lines + newlines(data@.skip(i as int)) == newlines(data@),
        decreases n - i,
    {
        assert(data@.skip(i as int).drop_first() =~= data@.skip(i + 1));
        if data[i] == NEWLINE {
            num_lines += 1;
        }
        i += 1;
    }
    if n > 0 && data[n - 1] != NEWLINE {
        num_lines += 1;
    }
    (num_lines, n as i64)
}

/// What is printed of a file in line mode: the content from the line at which
/// a count and a total of lines say to start, up to the end.
pub open spec fn selected_lines(s: Seq<u8>, take_val: TakeValue, total: int) -> Seq<u8> {
    match start_index(take_val, total) {
        Some(start) => skip_lines(s, start),
        None => Seq::empty(),
    }
}

/// What is printed of a file in byte mode: the content from the byte at which
/// a count and a total of bytes say to start, up to the end.
pub open spec fn selected_bytes(s: Seq<u8>, take_val: TakeValue, total: int) -> Seq<u8> {
    match start_index(take_val, total) {
        Some(start) => skip_bytes(s, start),
        None => Seq::empty(),
    }
}

/// Selects the lines to print: walks the content from its beginning, passes
/// over the lines before the starting line, and gives back every byte from
/// there on as it stands.
pub fn print_lines(data: &[u8], num_lines: &TakeValue, total_lines: i64) -> (out: Vec<u8>)
    ensures
        out@ == selected_lines(data@, *num_lines, total_lines as int),
{
    match get_start_index(num_lines, total_lines) {
        Some(start) => {
            let n: usize = data.len();
            let mut i: usize = 0;
            let mut left: u64 = start;
            assert(data@.skip(0) =~= data@);
            while i < n && left > 0
                invariant
                    i <= n,
                    n == data@.len(),
                    skip_lines(data@.skip(i as int), left as nat) == skip_lines(
                        data@,
                        start as nat,
                    ),
                decreases n - i,
            {
                assert(data@.skip(i as int).drop_first() =~= data@.skip(i + 1));
                if data[i] == NEWLINE {
                    left -= 1;
                }
                i += 1;
            }
            slice_to_vec(slice_subrange(data, i, n))
        },
        None => Vec::new(),
    }
}

/// Selects the bytes to print: goes straight to the starting byte and gives
/// back every byte from there on as it stands.
pub fn print_bytes(data: &[u8], num_bytes: &TakeValue, total_bytes: i64) -> (out: Vec<u8>)
    ensures
        out@ == selected_bytes(data@, *num_bytes, total_bytes as int),
{
    match get_start_index(num_bytes, total_bytes) {
        Some(start) => {
            let n: usize = data.len();
            if start <= n as u64 {
                slice_to_vec(slice_subrange(data, start as usize, n))
            } else {
                Vec::new()
            }
        },
        None => Vec::new(),
    }
}

/// What is left after skipping lines is the end of the content: the bytes
/// that are skipped and the bytes that are left make up the content, in this
/// order and unchanged.
pub proof fn lemma_skip_lines_is_suffix(s: Seq<u8>, k: nat)
    ensures
        skip_lines(s, k).len() <= s.len(),
        skip_lines(s, k) == s.skip(s.len() - skip_lines(s, k).len()),
    decreases s.len(),
{
    if k > 0 && s.len() > 0 {
        if s[0] == NEWLINE {
            lemma_skip_lines_is_suffix(s.drop_first(), (k - 1) as nat);
        } else {
            lemma_skip_lines_is_suffix(s.drop_first(), k);
        }
    }
}

/// Skipping `k` lines leaves `k` lines fewer, and none where the content
/// holds no more than `k`.
pub proof fn lemma_skip_lines_line_count(s: Seq<u8>, k: nat)
    ensures
        line_count(skip_lines(s, k)) == if k <= line_count(s) {
            line_count(s) - k
        } else {
            0
        },
    decreases s.len(),
{
    if k > 0 && s.len() > 0 {
        if s[0] == NEWLINE {
            lemma_skip_lines_line_count(s.drop_first(), (k - 1) as nat);
        } else {
            lemma_skip_lines_line_count(s.drop_first(), k);
        }
    }
}

/// The bytes that skipping `k` lines passes over are `k` whole lines, where
/// the content holds that many newlines: they hold `k` newlines and end with
/// one.
pub proof fn lemma_skip_lines_passes_whole_lines(s: Seq<u8>, k: nat)
    requires
        k <= newlines(s),
    ensures
        ({
            let passed = s.take(s.len() - skip_lines(s, k).len());
            newlines(passed) == k && (passed.len() > 0 ==> passed.last() == NEWLINE)
        }),
    decreases s.len(),
{
    lemma_skip_lines_is_suffix(s, k);
    if k > 0 && s.len() > 0 {
        let rest = s.drop_first();
        let k1 = if s[0] == NEWLINE {
            (k - 1) as nat
        } else {
            k
        };
        lemma_skip_lines_passes_whole_lines(rest, k1);
        lemma_skip_lines_is_suffix(rest, k1);
        let passed = s.take(s.len() - skip_lines(s, k).len());
        assert(passed.drop_first() =~= rest.take(rest.len() - skip_lines(rest, k1).len()));
    }
}

/// Content that holds a byte holds a line.
proof fn lemma_nonempty_has_line(s: Seq<u8>)
    requires
        s.len() > 0,
    ensures
        line_count(s) > 0,
    decreases s.len(),
{
    if s[0] != NEWLINE && s.len() > 1 {
        lemma_nonempty_has_line(s.drop_first());
    }
}

/// A negative count selects the last lines of a file: with the file's own
/// total of lines, what is printed is the end of the content and holds
/// `|n|` lines, or all its lines where the file holds fewer.
pub proof fn lemma_last_lines(s: Seq<u8>, n: i64)
    requires
        n < 0,
    ensures
        ({
            let out = selected_lines(s, TakeValue::TakeNum(n), line_count(s) as int);
            &&& out.len() <= s.len()
            &&& out == s.skip(s.len() - out.len())
            &&& line_count(out) == if -n <= line_count(s) {
                -n
            } else {
                line_count(s) as int
            }
        }),
{
    if let Some(start) = start_index(TakeValue::TakeNum(n), line_count(s) as int) {
        lemma_skip_lines_is_suffix(s, start);
        lemma_skip_lines_line_count(s, start);
    }
}

/// A positive count selects from a line on: with the file's own total of
/// lines, what is printed is the end of the content and holds every line but
/// the first `n - 1`, and nothing where the file holds fewer than `n` lines.
pub proof fn lemma_lines_from(s: Seq<u8>, n: i64)
    requires
        n > 0,
    ensures
        ({
            let out = selected_lines(s, TakeValue::TakeNum(n), line_count(s) as int);
            &&& out.len() <= s.len()
            &&& out == s.skip(s.len() - out.len())
            &&& line_count(out) == if n <= line_count(s) {
                line_count(s) - (n - 1)
            } else {
                0
            }
        }),
{
    if let Some(start) = start_index(TakeValue::TakeNum(n), line_count(s) as int) {
        lemma_skip_lines_is_suffix(s, start);
        lemma_skip_lines_line_count(s, start);
    }
}

/// A negative count selects the last bytes of a file: with the file's own
/// total of bytes, what is printed is its last `|n|` bytes, or all of it
/// where the file holds fewer.
pub proof fn lemma_last_bytes(s: Seq<u8>, n: i64)
    requires
        n < 0,
    ensures
        selected_bytes(s, TakeValue::TakeNum(n), s.len() as int) == if -n <= s.len() {
            s.skip(s.len() + n)
        } else {
            s
        },
{
}

/// A positive count selects from a byte on: with the file's own total of
/// bytes, what is printed starts at byte `n`, counted from one, and is
/// nothing where the file holds fewer than `n` bytes.
pub proof fn lemma_bytes_from(s: Seq<u8>, n: i64)
    requires
        n > 0,
    ensures
        selected_bytes(s, TakeValue::TakeNum(n), s.len() as int) == if n <= s.len() {
            s.skip(n - 1)
        } else {
            Seq::empty()
        },
{
}

/// A file is printed whole and unchanged, in either mode and with its own
/// totals, by `PlusZero` and by every count from the end that asks for at
/// least as many items as the file holds.
pub proof fn lemma_whole_file(s: Seq<u8>, take_val: TakeValue)
    ensures
        take_val == TakeValue::PlusZero || (take_val matches TakeValue::TakeNum(n) && -n
            >= line_count(s)) ==> selected_lines(s, take_val, line_count(s) as int) == s,
        take_val == TakeValue::PlusZero || (take_val matches TakeValue::TakeNum(n) && -n
            >= s.len()) ==> selected_bytes(s, take_val, s.len() as int) == s,
{
    if s.len() > 0 {
        lemma_nonempty_has_line(s);
    }
}

} // verus!
