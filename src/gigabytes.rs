//! Byte counts in tenths of a binary gigabyte (2^30 bytes), rounded half
//! away from zero.

use vstd::prelude::*;
use vstd::arithmetic::div_mod::{lemma_fundamental_div_mod, lemma_hoist_over_denominator};

verus! {

/// Bytes in one binary gigabyte.
pub const BYTES_PER_GB: u128 = 1073741824;

/// `bytes` in gigabytes, times ten, rounded to the nearest integer with
/// halves going up (away from zero, as `bytes` is never negative).
pub open spec fn tenths_of_gb(bytes: nat) -> nat {
    ((bytes * 10 + BYTES_PER_GB as int / 2) / (BYTES_PER_GB as int)) as nat
}

/// `bytes` as a count of tenths of a gigabyte, rounded to the nearest tenth.
pub fn gb_tenths(bytes: u128) -> (r: u128)
    ensures
        r == tenths_of_gb(bytes as nat),
{
    let whole: u128 = bytes / BYTES_PER_GB;
    let rest: u128 = bytes % BYTES_PER_GB;
    let part: u128 = (rest * 10 + BYTES_PER_GB / 2) / BYTES_PER_GB;
    proof {
        let g = BYTES_PER_GB as int;
        let b = bytes as int;
        lemma_fundamental_div_mod(b, g);
        assert(b * 10 + g / 2 == (whole as int * 10) * g + (rest as int * 10 + g / 2))
            by (nonlinear_arith)
            requires
                b == g * (whole as int) + rest as int,
        ;
        lemma_div_shift(whole as int * 10, rest as int * 10 + g / 2, g);
        assert(whole * 10 <= u128::MAX) by (nonlinear_arith)
            requires
                whole as int == b / g,
                g == 1073741824,
                0 <= b <= u128::MAX,
        ;
    }
    whole * 10 + part
}

proof fn lemma_div_shift(k: int, x: int, g: int)
    requires
        g > 0,
        k >= 0,
        x >= 0,
    ensures
        (k * g + x) / g == k + x / g,
{
    lemma_hoist_over_denominator(x, k, g as nat);
    assert(k * g + x == x + k * g);
}

/// Rounding to tenths moves a value by at most half a tenth: the rounded
/// gigabyte count differs from the exact one, `bytes / 2^30`, by no more
/// than 0.05.
pub proof fn lemma_tenths_within_half_step(bytes: nat)
    ensures
        2 * (tenths_of_gb(bytes) * BYTES_PER_GB - 10 * bytes) <= BYTES_PER_GB,
        2 * (10 * bytes - tenths_of_gb(bytes) * BYTES_PER_GB) <= BYTES_PER_GB,
{
    let g = BYTES_PER_GB as int;
    let x = bytes * 10 + g / 2;
    lemma_fundamental_div_mod(x, g);
    let t = tenths_of_gb(bytes) as int;
    assert(t == x / g);
    assert(0 <= x % g < g);
    assert(x == g * t + x % g);
}

} // verus!
