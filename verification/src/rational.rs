//! Floor and rounding of a fraction of two integers.
//!
//! A fraction `a / b` is always given with a positive denominator `b`.

use vstd::prelude::*;

verus! {

/// The greatest integer that is not above `a / b`.
pub open spec fn floor_div(a: int, b: int) -> int
    recommends
        b > 0,
{
    a / b
}

/// The integer nearest to `a / b`; a fraction that lies exactly halfway
/// between two integers goes to the one farther from zero.
pub open spec fn round_div(a: int, b: int) -> int
    recommends
        b > 0,
{
    if a >= 0 {
        (2 * a + b) / (2 * b)
    } else {
        -((2 * (-a) + b) / (2 * b))
    }
}

/// `floor_div(a, b)` is the one integer `q` with `q <= a / b < q + 1`.
pub proof fn lemma_floor_div_bounds(a: int, b: int)
    requires
        b > 0,
    ensures
        floor_div(a, b) * b <= a < (floor_div(a, b) + 1) * b,
{
    vstd::arithmetic::div_mod::lemma_fundamental_div_mod(a, b);
    vstd::arithmetic::div_mod::lemma_mod_bound(a, b);
    assert(floor_div(a, b) * b == b * (a / b)) by (nonlinear_arith);
    assert((floor_div(a, b) + 1) * b == b * (a / b) + b) by (nonlinear_arith);
}

/// `round_div(a, b)` lies within one half of `a / b`, and where `a / b` is
/// exactly halfway it is the neighbour farther from zero.
pub proof fn lemma_round_div_bounds(a: int, b: int)
    requires
        b > 0,
    ensures
        a >= 0 ==> (2 * round_div(a, b) - 1) * b <= 2 * a < (2 * round_div(a, b) + 1) * b,
        a < 0 ==> (2 * round_div(a, b) - 1) * b < 2 * a <= (2 * round_div(a, b) + 1) * b,
        a >= 0 ==> round_div(a, b) >= 0,
        a < 0 ==> round_div(a, b) <= 0,
{
    let m: int = if a >= 0 { a } else { -a };
    let h: int = (2 * m + b) / (2 * b);
    lemma_floor_div_bounds(2 * m + b, 2 * b);
    assert(h * (2 * b) <= 2 * m + b < (h + 1) * (2 * b));
    assert(h * (2 * b) == (2 * h - 1) * b + b) by (nonlinear_arith);
    assert((h + 1) * (2 * b) == (2 * h + 1) * b + b) by (nonlinear_arith);
    assert(h >= 0) by (nonlinear_arith)
        requires
            (h + 1) * (2 * b) > 2 * m + b,
            m >= 0,
            b > 0,
    ;
    if a < 0 {
        assert((2 * (-h) - 1) * b == -((2 * h + 1) * b)) by (nonlinear_arith);
        assert((2 * (-h) + 1) * b == -((2 * h - 1) * b)) by (nonlinear_arith);
    }
}

/// Rounding a non-negative fraction splits into its whole part, counted in
/// eighths, and the rounding of what is left over.
pub proof fn lemma_round_eighths_split(m: int, d: int)
    requires
        m >= 0,
        d > 0,
    ensures
        round_div(8 * m, d) == 8 * (m / d) + round_div(8 * (m % d), d),
        0 <= round_div(8 * (m % d), d) <= 8,
{
    let q: int = m / d;
    let r: int = m % d;
    vstd::arithmetic::div_mod::lemma_fundamental_div_mod(m, d);
    vstd::arithmetic::div_mod::lemma_mod_bound(m, d);
    let y: int = 16 * r + d;
    let h: int = y / (2 * d);
    let s: int = y % (2 * d);
    vstd::arithmetic::div_mod::lemma_fundamental_div_mod(y, 2 * d);
    vstd::arithmetic::div_mod::lemma_mod_bound(y, 2 * d);
    let x: int = 16 * m + d;
    assert(x == (8 * q + h) * (2 * d) + s) by (nonlinear_arith)
        requires
            x == 16 * m + d,
            m == d * q + r,
            y == 16 * r + d,
            y == (2 * d) * h + s,
    ;
    vstd::arithmetic::div_mod::lemma_fundamental_div_mod_converse(x, 2 * d, 8 * q + h, s);
    assert(0 <= h <= 8) by (nonlinear_arith)
        requires
            y == (2 * d) * h + s,
            0 <= s < 2 * d,
            d <= y < 17 * d,
            d > 0,
    ;
}

/// Taking `full` whole units out of a non-negative fraction before rounding
/// lowers the rounded eighths by `8 * full`.
pub proof fn lemma_round_eighths_left_over(m: int, d: int, full: int)
    requires
        m >= 0,
        d > 0,
        0 <= full <= m / d,
    ensures
        8 * m - 8 * full * d >= 0,
        round_div(8 * m - 8 * full * d, d) == 8 * (m / d - full) + round_div(8 * (m % d), d),
{
    let q: int = m / d;
    let r: int = m % d;
    let left: int = m - full * d;
    vstd::arithmetic::div_mod::lemma_fundamental_div_mod(m, d);
    vstd::arithmetic::div_mod::lemma_mod_bound(m, d);
    assert(left == (q - full) * d + r) by (nonlinear_arith)
        requires
            left == m - full * d,
            m == d * q + r,
    ;
    assert((q - full) * d >= 0) by (nonlinear_arith)
        requires
            q - full >= 0,
            d > 0,
    ;
    vstd::arithmetic::div_mod::lemma_fundamental_div_mod_converse(left, d, q - full, r);
    assert(8 * m - 8 * full * d == 8 * left) by (nonlinear_arith)
        requires
            left == m - full * d,
    ;
    lemma_round_eighths_split(left, d);
}

/// Rounding keeps the order of fractions with one denominator.
pub proof fn lemma_round_div_monotonic(a1: int, a2: int, b: int)
    requires
        b > 0,
        a1 <= a2,
    ensures
        round_div(a1, b) <= round_div(a2, b),
{
    lemma_round_div_bounds(a1, b);
    lemma_round_div_bounds(a2, b);
    if a1 >= 0 {
        vstd::arithmetic::div_mod::lemma_div_is_ordered(2 * a1 + b, 2 * a2 + b, 2 * b);
    } else if a2 < 0 {
        vstd::arithmetic::div_mod::lemma_div_is_ordered(2 * (-a2) + b, 2 * (-a1) + b, 2 * b);
    }
}

} // verus!
