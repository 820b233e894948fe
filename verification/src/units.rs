//! Fixed-point quantities.
//!
//! Every fractional quantity of the simulation (a position, a speed, a gap,
//! a frame rate) is held as a signed count of millionths, so that the
//! arithmetic is exact and the same on every machine. Sums saturate at the
//! ends of the `i64` range instead of wrapping.

use vstd::prelude::*;

verus! {

/// Fixed-point units in one whole: one cell, one tick, one hertz.
pub const SCALE: i64 = 1_000_000;

/// The `i64` nearest to `v`.
pub open spec fn saturate(v: int) -> i64 {
    if v < i64::MIN {
        i64::MIN
    } else if v > i64::MAX {
        i64::MAX
    } else {
        v as i64
    }
}

/// The quotient of `n` by `d`, rounded toward zero.
pub open spec fn quotient(n: int, d: int) -> int
    recommends
        d != 0,
{
    let magnitude = (if n >= 0 { n } else { -n }) / (if d >= 0 { d } else { -d });
    if (n >= 0) == (d >= 0) {
        magnitude
    } else {
        -magnitude
    }
}

/// The fixed-point value of a whole number of cells.
pub open spec fn units_of(cells: int) -> i64 {
    saturate(cells * SCALE)
}

/// The cell on which the fixed-point position `x` falls. Positions left of
/// the origin fall on cell zero; the fraction of a cell is dropped.
pub open spec fn cell_of(x: int) -> usize {
    if x <= 0 {
        0
    } else if x / (SCALE as int) > usize::MAX {
        usize::MAX
    } else {
        (x / (SCALE as int)) as usize
    }
}

/// Saturating sum.
pub fn sat_add(a: i64, b: i64) -> (sum: i64)
    ensures
        sum == saturate(a + b),
{
    match a.checked_add(b) {
        Some(sum) => sum,
        None => if b > 0 {
            i64::MAX
        } else {
            i64::MIN
        },
    }
}

/// Saturating difference.
pub fn sat_sub(a: i64, b: i64) -> (difference: i64)
    ensures
        difference == saturate(a - b),
{
    match a.checked_sub(b) {
        Some(difference) => difference,
        None => if b < 0 {
            i64::MAX
        } else {
            i64::MIN
        },
    }
}

/// Divides the fixed-point `value` by the fixed-point `divisor`, rounding
/// toward zero and saturating.
pub fn scaled_div(value: i64, divisor: i64) -> (ratio: i64)
    requires
        divisor != 0,
    ensures
        ratio == saturate(quotient(value * SCALE, divisor as int)),
{
    let n: i128 = (value as i128) * 1_000_000i128;
    let d: i128 = divisor as i128;
    let n_mag: u128 = if n >= 0 {
        n as u128
    } else {
        (-n) as u128
    };
    let d_mag: u128 = if d >= 0 {
        d as u128
    } else {
        (-d) as u128
    };
    let q: u128 = n_mag / d_mag;
    if (n >= 0) == (d >= 0) {
        if q > 0x7fff_ffff_ffff_ffffu128 {
            i64::MAX
        } else {
            q as i64
        }
    } else {
        if q > 0x8000_0000_0000_0000u128 {
            i64::MIN
        } else {
            (-(q as i128)) as i64
        }
    }
}

/// Converts a whole number of cells to fixed point.
pub fn from_cells(cells: usize) -> (units: i64)
    ensures
        units == units_of(cells as int),
{
    if cells as u64 > 9_223_372_036_854u64 {
        i64::MAX
    } else {
        (cells as i64) * 1_000_000i64
    }
}

/// The cell on which a fixed-point position falls.
pub fn to_cell(x: i64) -> (cell: usize)
    ensures
        cell == cell_of(x as int),
{
    if x <= 0 {
        0
    } else {
        let whole: u64 = (x / 1_000_000i64) as u64;
        if whole > usize::MAX as u64 {
            usize::MAX
        } else {
            whole as usize
        }
    }
}

} // verus!
