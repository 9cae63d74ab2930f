use vstd::prelude::*;

verus! {

// Prices, money amounts, percentages and scores are fixed-point numbers:
// an `i64` counts ten-thousandths, so 12.5 is held as 125000 and 3.25% as
// 32500.

/// The number of fixed-point units in one whole unit.
pub const SCALE: i64 = 10000;

/// Truncating division, rounding toward zero as Rust's `/` does.
pub open spec fn div_toward_zero(a: int, b: int) -> int
    recommends
        b != 0,
{
    let q = abs(a) / abs(b);
    if (a >= 0) == (b > 0) || q == 0 {
        q
    } else {
        -q
    }
}

pub open spec fn abs(a: int) -> int {
    if a < 0 {
        -a
    } else {
        a
    }
}

/// `change / base * 100`, as a fixed-point percentage, rounded toward zero.
pub open spec fn percent_of(change: int, base: int) -> int {
    div_toward_zero(change * 100 * SCALE, base)
}

/// `a` can be held in an `i64`.
pub open spec fn fits_i64(a: int) -> bool {
    i64::MIN <= a <= i64::MAX
}

/// Divides, rounding toward zero.
pub fn div_round_to_zero(a: i128, b: i128) -> (r: i128)
    requires
        b != 0,
        a > i128::MIN,
        b > i128::MIN,
    ensures
        r == div_toward_zero(a as int, b as int),
{
    let ua: i128 = if a < 0 { -a } else { a };
    let ub: i128 = if b < 0 { -b } else { b };
    let q: i128 = ua / ub;
    if (a >= 0) == (b > 0) || q == 0 {
        q
    } else {
        -q
    }
}

/// `change / base * 100` as a fixed-point percentage, rounded toward zero.
pub fn percent_change(change: i128, base: i128) -> (r: i64)
    requires
        base != 0,
        -0x1_0000_0000_0000_0000 <= base <= 0x1_0000_0000_0000_0000,
        -0x1_0000_0000_0000_0000 <= change <= 0x1_0000_0000_0000_0000,
        fits_i64(percent_of(change as int, base as int)),
    ensures
        r == percent_of(change as int, base as int),
{
    let scaled: i128 = change * 100 * (SCALE as i128);
    div_round_to_zero(scaled, base) as i64
}

} // verus!
