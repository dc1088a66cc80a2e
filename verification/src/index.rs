//! From a requested count and the size of a file to the place where printing
//! starts.

use vstd::prelude::*;
use crate::take::TakeValue;

verus! {

/// The zero-based index of the first item to print, or `None` when nothing is
/// to be printed, for a file that holds `total` items (lines or bytes).
///
/// The cases are tried in this order:
/// * `PlusZero` starts at the very beginning, unless the file is empty;
/// * a count of zero selects nothing;
/// * an empty file has nothing to select;
/// * a count above `total` selects nothing: as a starting position it lies
///   behind the end;
/// * a negative count `n` asks for the last `|n|` items and starts at
///   `total + n`, or at the beginning when the file holds fewer than that;
/// * a positive count `n` is a starting position counted from one, so it
///   starts at `n - 1`.
pub open spec fn start_index(take_val: TakeValue, total: int) -> Option<nat> {
    match take_val {
        TakeValue::PlusZero => if total > 0 {
            Some(0)
        } else {
            None
        },
        TakeValue::TakeNum(n) => if n == 0 || total == 0 || n > total {
            None
        } else if n < 0 {
            if total + n < 0 {
                Some(0)
            } else {
                Some((total + n) as nat)
            }
        } else {
            Some((n - 1) as nat)
        },
    }
}

/// Finds where to start printing: see [`start_index`], which this computes
/// for every count and every total without overflow.
pub fn get_start_index(take_val: &TakeValue, total: i64) -> (r: Option<u64>)
    ensures
        match r {
            Some(i) => start_index(*take_val, total as int) == Some(i as nat),
            None => start_index(*take_val, total as int) is None,
        },
        // Everything is selected from a file that holds something.
        *take_val == TakeValue::PlusZero ==> r == if total > 0 {
            Some(0u64)
        } else {
            None
        },
        // A count of zero selects nothing.
        *take_val == TakeValue::TakeNum(0) ==> r is None,
        // Nothing can be selected from an empty file.
        total == 0 ==> r is None,
        // A count above the total selects nothing.
        *take_val matches TakeValue::TakeNum(n) ==> (n > total ==> r is None),
        // A starting position within the file: one less, counted from zero.
        *take_val matches TakeValue::TakeNum(n) ==> (1 <= n <= total ==> r == Some(
            (n - 1) as u64,
        )),
        // The last `|n|` items of a file that holds at least as many.
        *take_val matches TakeValue::TakeNum(n) ==> (n < 0 && -n <= total ==> r == Some(
            (total + n) as u64,
        )),
        // More trailing items than the file holds: the whole file. The two
        // cases before this one come first: an empty file, and a count above
        // a total that is itself below zero.
        *take_val matches TakeValue::TakeNum(n) ==> (n < 0 && -n > total && total != 0 && n
            <= total ==> r == Some(0u64)),
{
    match take_val {
        TakeValue::PlusZero => {
            if total > 0 {
                Some(0)
            } else {
                None
            }
        },
        TakeValue::TakeNum(num) => {
            let num: i64 = *num;
            if num == 0 || total == 0 || num > total {
                None
            } else if num < 0 {
                if total < 0 {
                    Some(0)
                } else {
                    let start: i64 = total + num;
                    Some(
                        if start < 0 {
                            0
                        } else {
                            start as u64
                        },
                    )
                }
            } else {
                Some((num - 1) as u64)
            }
        },
    }
}

} // verus!
