use vstd::prelude::*;

verus! {

use vstd::arithmetic::div_mod::{
    lemma_basic_div, lemma_div_by_multiple, lemma_div_is_ordered,
    lemma_div_multiples_vanish_fancy, lemma_div_pos_is_pos, lemma_fundamental_div_mod,
    lemma_mod_bound,
};

/// Quotient of `x` by `d` rounded toward positive infinity, for `d > 0`.
pub open spec fn spec_ceil_div(x: int, d: int) -> int {
    (x + d - 1) / d
}

/// A floor-rounded fraction of a nonnegative amount, with the fraction at
/// most one, never exceeds the amount.
pub proof fn lemma_fraction_floor_bounds(a: int, n: int, d: int)
    requires
        0 <= a,
        0 <= n <= d,
        0 < d,
    ensures
        0 <= a * n / d <= a,
{
    assert(0 <= a * n <= a * d) by (nonlinear_arith)
        requires
            0 <= a,
            0 <= n <= d;
    lemma_div_pos_is_pos(a * n, d);
    lemma_div_is_ordered(a * n, a * d, d);
    lemma_div_by_multiple(a, d);
}

/// Floor division is monotonic in the amount being divided.
pub proof fn lemma_fraction_floor_monotonic(a1: int, a2: int, n: int, d: int)
    requires
        0 <= a1 <= a2,
        0 <= n,
        0 < d,
    ensures
        a1 * n / d <= a2 * n / d,
{
    assert(a1 * n <= a2 * n) by (nonlinear_arith)
        requires
            0 <= a1 <= a2,
            0 <= n;
    lemma_div_is_ordered(a1 * n, a2 * n, d);
}

/// Basic range facts about the ceiling quotient: it is nonnegative, it is at
/// least the floor quotient, scaling it back up reaches the dividend, and it
/// is zero exactly on a zero dividend.
pub proof fn lemma_ceil_div_bounds(x: int, d: int)
    requires
        0 <= x,
        0 < d,
    ensures
        0 <= spec_ceil_div(x, d),
        x / d <= spec_ceil_div(x, d),
        spec_ceil_div(x, d) * d >= x,
        x == 0 ==> spec_ceil_div(x, d) == 0,
        x > 0 ==> spec_ceil_div(x, d) >= 1,
        spec_ceil_div(x, d) <= x,
{
    let q = spec_ceil_div(x, d);
    lemma_div_pos_is_pos(x + d - 1, d);
    lemma_div_is_ordered(x, x + d - 1, d);
    assert(x + d - 1 <= d * x + (d - 1)) by (nonlinear_arith)
        requires
            0 <= x,
            0 < d;
    lemma_div_is_ordered(x + d - 1, d * x + (d - 1), d);
    lemma_div_multiples_vanish_fancy(x, d - 1, d);
    lemma_fundamental_div_mod(x + d - 1, d);
    lemma_mod_bound(x + d - 1, d);
    assert(q * d == d * q) by (nonlinear_arith);
    if x == 0 {
        lemma_basic_div(d - 1, d);
    }
    if x > 0 {
        assert(q >= 1) by (nonlinear_arith)
            requires
                0 <= q,
                0 < d,
                q * d >= x,
                x > 0;
    }
}

/// A ceiling quotient reaches any bound the dividend covers when scaled.
pub proof fn lemma_ceil_div_ge(x: int, y: int, d: int)
    requires
        0 <= x,
        0 <= y,
        0 < d,
        y * d <= x,
    ensures
        spec_ceil_div(x, d) >= y,
{
    lemma_div_is_ordered(y * d, x, d);
    lemma_div_by_multiple(y, d);
    lemma_ceil_div_bounds(x, d);
}

/// A ceiling quotient stays below any bound whose scaled value covers the
/// dividend.
pub proof fn lemma_ceil_div_le(x: int, y: int, d: int)
    requires
        0 <= x,
        0 < d,
        x <= y * d,
    ensures
        spec_ceil_div(x, d) <= y,
{
    assert(0 <= y) by (nonlinear_arith)
        requires
            0 < d,
            0 <= x,
            x <= y * d;
    assert(y * d + d - 1 == d * y + (d - 1)) by (nonlinear_arith);
    lemma_div_is_ordered(x + d - 1, y * d + d - 1, d);
    lemma_div_multiples_vanish_fancy(y, d - 1, d);
}

/// Widening product of two 64-bit amounts; the 128-bit domain always holds it.
pub fn mul_u64(a: u64, b: u64) -> (r: u128)
    ensures
        r == a as int * b as int,
{
    proof {
        lemma_u64_mul_in_range(a as int, b as int);
    }
    (a as u128) * (b as u128)
}

/// The product of two 64-bit values fits in 128 bits.
pub proof fn lemma_u64_mul_in_range(a: int, b: int)
    requires
        0 <= a <= u64::MAX,
        0 <= b <= u64::MAX,
    ensures
        0 <= a * b <= u64::MAX * u64::MAX,
{
    assert(0 <= a * b && a * b <= u64::MAX * u64::MAX) by (nonlinear_arith)
        requires
            0 <= a <= u64::MAX,
            0 <= b <= u64::MAX;
}

/// Ceiling division in the wide domain.
pub fn ceil_div_u128(x: u128, d: u128) -> (r: u128)
    requires
        0 < d,
        x + d - 1 <= u128::MAX,
    ensures
        r == spec_ceil_div(x as int, d as int),
{
    (x + (d - 1)) / d
}

} // verus!
