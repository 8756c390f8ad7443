//! Fixed-point arithmetic. Every quantity that is fractional by nature (a
//! temperature, a pixel coordinate, a probability, an angle) is held as a whole
//! number of thousandths, so each division has to say how it rounds.

use vstd::prelude::*;
use vstd::arithmetic::div_mod::lemma_div_is_ordered;
use vstd::arithmetic::div_mod::lemma_fundamental_div_mod;

verus! {

/// `a * b / d`, rounded towards negative infinity.
pub open spec fn mul_div(a: int, b: int, d: int) -> int {
    (a * b) / d
}

/// `a / d`, rounded to the nearest integer, a tie going up.
pub open spec fn round_div(a: int, d: int) -> int {
    (2 * a + d) / (2 * d)
}

/// The value between `lo` and `hi` that is nearest to `v`; where `lo` is
/// above `hi`, a value below `lo` gives `lo` and any other gives `hi` or itself.
pub open spec fn clamp_int(v: int, lo: int, hi: int) -> int {
    if v < lo {
        lo
    } else if v > hi {
        hi
    } else {
        v
    }
}

/// Floor division is monotone in the dividend.
pub proof fn lemma_div_monotone(a: int, b: int, d: int)
    requires
        d > 0,
        a <= b,
    ensures
        a / d <= b / d,
{
    lemma_div_is_ordered(a, b, d);
}

/// A quotient by a positive divisor lies between the dividend and zero.
pub proof fn lemma_div_bounds(a: int, d: int)
    requires
        d > 0,
    ensures
        a >= 0 ==> 0 <= a / d <= a,
        a <= 0 ==> a <= a / d <= 0,
{
    lemma_fundamental_div_mod(a, d);
    let q = a / d;
    let r = a % d;
    assert(0 <= r < d);
    assert(a == d * q + r);
    if a >= 0 {
        assert(q >= 0) by (nonlinear_arith)
            requires
                a == d * q + r,
                0 <= r < d,
                a >= 0,
                d > 0,
        ;
        assert(q <= a) by (nonlinear_arith)
            requires
                a == d * q + r,
                0 <= r,
                q >= 0,
                d >= 1,
        ;
    }
    if a <= 0 {
        assert(q <= 0) by (nonlinear_arith)
            requires
                a == d * q + r,
                0 <= r,
                a <= 0,
                d > 0,
        ;
        assert(q >= a) by (nonlinear_arith)
            requires
                a == d * q + r,
                0 <= r < d,
                q <= 0,
                a <= 0,
                d >= 1,
        ;
    }
}

/// Quotient of `a` by a positive `d`, rounded towards negative infinity.
pub fn div_floor(a: i64, d: i64) -> (q: i64)
    requires
        d > 0,
    ensures
        q == a as int / d as int,
{
    proof {
        lemma_div_bounds(a as int, d as int);
    }
    match a.checked_div_euclid(d) {
        Some(q) => q,
        None => 0,
    }
}

/// `a * b / d` rounded towards negative infinity, the product taken in 128 bits.
pub fn mul_div_floor(a: i64, b: i64, d: i64) -> (q: i64)
    requires
        d > 0,
        i64::MIN <= mul_div(a as int, b as int, d as int) <= i64::MAX,
    ensures
        q == mul_div(a as int, b as int, d as int),
{
    let wide_a: i128 = a as i128;
    let wide_b: i128 = b as i128;
    assert(-0x4000_0000_0000_0000_0000_0000_0000_0000 <= wide_a * wide_b
        <= 0x4000_0000_0000_0000_0000_0000_0000_0000) by (nonlinear_arith)
        requires
            -0x8000_0000_0000_0000 <= wide_a <= 0x8000_0000_0000_0000,
            -0x8000_0000_0000_0000 <= wide_b <= 0x8000_0000_0000_0000,
    ;
    let product: i128 = wide_a * wide_b;
    let wide_d: i128 = d as i128;
    match product.checked_div_euclid(wide_d) {
        Some(q) => q as i64,
        None => 0,
    }
}

/// `a / d` rounded to the nearest integer, a tie going up.
pub fn div_round(a: i64, d: i64) -> (q: i64)
    requires
        d > 0,
    ensures
        q == round_div(a as int, d as int),
{
    let wide: i128 = 2 * (a as i128) + (d as i128);
    let twice: i128 = 2 * (d as i128);
    proof {
        let n = 2 * (a as int) + (d as int);
        let m = 2 * (d as int);
        lemma_fundamental_div_mod(n, m);
        let q = n / m;
        let r = n % m;
        assert(0 <= r < m);
        assert(n == m * q + r);
        assert(q <= i64::MAX) by (nonlinear_arith)
            requires
                n == m * q + r,
                0 <= r,
                m == 2 * d,
                n == 2 * a + d,
                d >= 1,
                a <= i64::MAX,
        ;
        assert(q >= i64::MIN) by (nonlinear_arith)
            requires
                n == m * q + r,
                r < m,
                m == 2 * d,
                n == 2 * a + d,
                d >= 1,
                a >= i64::MIN,
        ;
    }
    match wide.checked_div_euclid(twice) {
        Some(q) => q as i64,
        None => 0,
    }
}

/// The value between `lo` and `hi` that is nearest to `v`.
pub fn clamp(v: i64, lo: i64, hi: i64) -> (r: i64)
    ensures
        r == clamp_int(v as int, lo as int, hi as int),
{
    if v < lo {
        lo
    } else if v > hi {
        hi
    } else {
        v
    }
}

} // verus!
