//! Vim-style list motions.
use vstd::prelude::*;

verus! {

/// A navigation motion over a list.
#[derive(Debug, Clone, Copy, PartialEq, Eq, Structural)]
pub enum Motion {
    /// Move by a signed number of rows (multiplied by the count prefix).
    Relative(isize),
    /// Jump to the first row.
    First,
    /// Jump to the last row.
    Last,
    /// Jump to a 1-based row number (0 means the first row).
    Absolute(usize),
    /// Move down by ten rows per count.
    HalfPageDown,
    /// Move up by ten rows per count.
    HalfPageUp,
}

/// `v` clamped into `[lo, hi]`.
pub open spec fn clamp(v: int, lo: int, hi: int) -> int {
    if v < lo {
        lo
    } else if v > hi {
        hi
    } else {
        v
    }
}

/// `isize::saturating_mul` on mathematical integers.
pub open spec fn sat_isize(v: int) -> int {
    clamp(v, isize::MIN as int, isize::MAX as int)
}

/// The half-page step for a count prefix: ten rows per count, at least one.
pub open spec fn half_page_step(count: int) -> int {
    let s = if count * 10 > usize::MAX { usize::MAX as int } else { count * 10 };
    if s < 1 { 1 } else { s }
}

/// Inputs on which the target computation stays within `isize`: the row
/// index and count convert to `isize` unchanged and the sums do not overflow.
pub open spec fn motion_in_range(current: usize, count: usize, motion: Motion) -> bool {
    &&& current <= isize::MAX
    &&& count <= isize::MAX
    &&& match motion {
        Motion::Relative(step) => current + sat_isize(step * count) <= isize::MAX,
        Motion::HalfPageDown => half_page_step(count as int) <= isize::MAX && current
            + half_page_step(count as int) <= isize::MAX,
        Motion::HalfPageUp => half_page_step(count as int) <= isize::MAX,
        _ => true,
    }
}

/// The 0-based target row of `motion` from `current` in a list of `len`
/// rows (`len > 0`), clamped to `[0, len - 1]`.
pub open spec fn motion_target(current: int, len: int, motion: Motion, count: int) -> int {
    let last = len - 1;
    match motion {
        Motion::Relative(step) => clamp(current + sat_isize(step * count), 0, last),
        Motion::First => 0,
        Motion::Last => last,
        Motion::Absolute(n) => if n == 0 {
            0
        } else {
            clamp(n - 1, 0, last)
        },
        Motion::HalfPageDown => clamp(current + half_page_step(count), 0, last),
        Motion::HalfPageUp => clamp(current - half_page_step(count), 0, last),
    }
}

/// Calculates the target 0-based index for a motion, clamped to
/// `[0, len - 1]`; `None` for an empty list.
pub fn calculate_target_index(current: usize, len: usize, motion: Motion, count: usize) -> (r:
    Option<usize>)
    requires
        motion_in_range(current, count, motion),
    ensures
        len == 0 ==> r is None,
        len > 0 ==> r == Some(motion_target(current as int, len as int, motion, count as int) as usize),
{
    if len == 0 {
        return None;
    }
    let last = len - 1;
    let target: usize = match motion {
        Motion::Relative(step) => {
            let total_step = sat_mul_isize(step, count as isize);
            let next = current as isize + total_step;
            clamp_exec(next, last)
        },
        Motion::First => 0,
        Motion::Last => last,
        Motion::Absolute(target_1based) => {
            if target_1based == 0 {
                0
            } else {
                let t = target_1based - 1;
                if t < last {
                    t
                } else {
                    last
                }
            }
        },
        Motion::HalfPageDown => {
            let s = sat_mul_usize(count, 10);
            let step = if s < 1 { 1 } else { s };
            let next = current as isize + step as isize;
            clamp_exec(next, last)
        },
        Motion::HalfPageUp => {
            let s = sat_mul_usize(count, 10);
            let step = if s < 1 { 1 } else { s };
            let next = current as isize - step as isize;
            clamp_exec(next, last)
        },
    };
    Some(target)
}

/// `isize::saturating_mul`.
fn sat_mul_isize(a: isize, b: isize) -> (r: isize)
    ensures
        r == sat_isize(a * b),
{
    match a.checked_mul(b) {
        Some(v) => v,
        None => {
            if (a < 0) != (b < 0) {
                proof {
                    assert(a * b < 0) by (nonlinear_arith)
                        requires
                            (a < 0) != (b < 0),
                            a != 0,
                            b != 0,
                    ;
                }
                isize::MIN
            } else {
                proof {
                    assert(a * b >= 0) by (nonlinear_arith)
                        requires
                            (a < 0) == (b < 0),
                    ;
                }
                isize::MAX
            }
        },
    }
}

/// `usize::saturating_mul`.
fn sat_mul_usize(a: usize, b: usize) -> (r: usize)
    ensures
        r == if a * b > usize::MAX { usize::MAX as int } else { a * b },
{
    match a.checked_mul(b) {
        Some(v) => v,
        None => usize::MAX,
    }
}

/// `next.clamp(0, last)` as an index.
/// Whether a motion from row `current` with count `count` stays within the
/// machine integers (`motion_in_range`).
pub fn motion_fits(current: usize, count: usize, motion: Motion) -> (b: bool)
    ensures
        b == motion_in_range(current, count, motion),
{
    if current > isize::MAX as usize || count > isize::MAX as usize {
        return false;
    }
    match motion {
        Motion::Relative(step) => {
            let s = sat_mul_isize(step, count as isize);
            s <= 0 || current as isize <= isize::MAX - s
        },
        Motion::HalfPageDown => {
            let h: usize = match count.checked_mul(10) {
                Some(v) => if v < 1 { 1 } else { v },
                None => usize::MAX,
            };
            h <= isize::MAX as usize && current <= isize::MAX as usize - h
        },
        Motion::HalfPageUp => {
            let h: usize = match count.checked_mul(10) {
                Some(v) => if v < 1 { 1 } else { v },
                None => usize::MAX,
            };
            h <= isize::MAX as usize
        },
        _ => true,
    }
}

fn clamp_exec(next: isize, last: usize) -> (r: usize)
    ensures
        r == clamp(next as int, 0, last as int),
{
    if next < 0 {
        0
    } else if next as usize > last {
        last
    } else {
        next as usize
    }
}

/// The pending count after typing one more digit: `current * 10 + digit`,
/// saturating, capped at 999 999.
pub open spec fn next_count(current: int, digit: int) -> int {
    let m = if current * 10 > usize::MAX { usize::MAX as int } else { current * 10 };
    let a = if m + digit > usize::MAX { usize::MAX as int } else { m + digit };
    if a > 999_999 { 999_999 } else { a }
}

/// Accumulates a count prefix digit.
pub fn accumulate_count(current: usize, digit: usize) -> (r: usize)
    ensures
        r == next_count(current as int, digit as int),
        r <= 999_999,
{
    let m = sat_mul_usize(current, 10);
    let a = m.saturating_add(digit);
    if a > 999_999 {
        999_999
    } else {
        a
    }
}

/// A motion never leaves the list: every target is a valid row.
pub proof fn lemma_target_in_bounds(current: int, len: int, motion: Motion, count: int)
    requires
        len > 0,
    ensures
        0 <= motion_target(current, len, motion, count) < len,
{
}

/// `First` and `Last` do not depend on where the cursor stands, and jumping
/// to row `n` (1-based, within the list) lands on index `n - 1`.
pub proof fn lemma_absolute_motion(current: int, len: int, n: usize, count: int)
    requires
        1 <= n <= len,
    ensures
        motion_target(current, len, Motion::Absolute(n), count) == n - 1,
        motion_target(current, len, Motion::First, count) == 0,
        motion_target(current, len, Motion::Last, count) == len - 1,
{
}

/// A half page is ten rows per count (one row at least): from row `current`
/// of a list of `len` rows, `HalfPageDown` lands `10 * count` rows further
/// down, or on the last row, and `HalfPageUp` as far up, or on the first.
pub proof fn lemma_half_page_moves_ten_per_count(current: int, len: int, count: int)
    requires
        0 <= current < len,
        0 <= count,
        count * 10 <= usize::MAX,
    ensures
        motion_target(current, len, Motion::HalfPageDown, count) == (if current + (if count * 10 >= 1 {
            count * 10
        } else {
            1
        }) <= len - 1 {
            current + (if count * 10 >= 1 {
                count * 10
            } else {
                1
            })
        } else {
            len - 1
        }),
        motion_target(current, len, Motion::HalfPageUp, count) == (if current - (if count * 10 >= 1 {
            count * 10
        } else {
            1
        }) >= 0 {
            current - (if count * 10 >= 1 {
                count * 10
            } else {
                1
            })
        } else {
            0
        }),
{
}

/// A half page with a larger count moves at least as far, and a count of
/// `k + 1` moves ten rows more than `k` while the list has room.
pub proof fn lemma_half_page_grows_with_count(current: int, len: int, k: int)
    requires
        0 <= current < len,
        1 <= k,
        (k + 1) * 10 <= usize::MAX,
        current + (k + 1) * 10 <= len - 1,
    ensures
        motion_target(current, len, Motion::HalfPageDown, k + 1) == motion_target(
            current,
            len,
            Motion::HalfPageDown,
            k,
        ) + 10,
{
}

} // verus!
