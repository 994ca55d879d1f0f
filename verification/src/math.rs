//! Fixed-point helpers: truncating division as Rust computes it on `i64`,
//! an exact integer square root, and small min/max utilities.

use vstd::prelude::*;
use vstd::math::{abs, max, min};

verus! {

/// Number of fixed-point counts in one world unit.
pub const SCALE: i64 = 1000;

/// The quotient that Rust's `/` yields on `i64` operands: rounded toward
/// zero.  In specifications `/` is Euclidean, so the negative case is
/// written out.
pub open spec fn trunc_div(a: int, b: int) -> int {
    if a >= 0 {
        a / b
    } else {
        -((-a) / b)
    }
}

/// Basic facts about the truncating quotient for a positive divisor:
/// `b * q` stays between 0 and `a`, and misses `a` by less than `b`.
pub proof fn lemma_trunc_div_facts(a: int, b: int)
    requires
        b >= 1,
    ensures
        a >= 0 ==> 0 <= trunc_div(a, b) * b <= a && a - trunc_div(a, b) * b < b,
        a < 0 ==> a <= trunc_div(a, b) * b <= 0 && trunc_div(a, b) * b - a < b,
        abs(trunc_div(a, b) * b) <= abs(a),
{
    if a >= 0 {
        vstd::arithmetic::div_mod::lemma_fundamental_div_mod(a, b);
        vstd::arithmetic::div_mod::lemma_mod_division_less_than_divisor(a, b);
        vstd::arithmetic::div_mod::lemma_div_pos_is_pos(a, b);
        vstd::arithmetic::mul::lemma_mul_is_commutative(trunc_div(a, b), b);
        vstd::arithmetic::mul::lemma_mul_nonnegative(b, a / b);
    } else {
        let m = -a;
        vstd::arithmetic::div_mod::lemma_fundamental_div_mod(m, b);
        vstd::arithmetic::div_mod::lemma_mod_division_less_than_divisor(m, b);
        vstd::arithmetic::div_mod::lemma_div_pos_is_pos(m, b);
        vstd::arithmetic::mul::lemma_mul_is_commutative(trunc_div(a, b), b);
        vstd::arithmetic::mul::lemma_mul_unary_negation(m / b, b);
        vstd::arithmetic::mul::lemma_mul_is_commutative(m / b, b);
        vstd::arithmetic::mul::lemma_mul_nonnegative(b, m / b);
    }
}

/// The truncating quotient is monotone in the dividend.
pub proof fn lemma_trunc_div_ordered(a1: int, a2: int, b: int)
    requires
        b >= 1,
        a1 <= a2,
    ensures
        trunc_div(a1, b) <= trunc_div(a2, b),
{
    if a1 >= 0 {
        vstd::arithmetic::div_mod::lemma_div_is_ordered(a1, a2, b);
    } else if a2 < 0 {
        vstd::arithmetic::div_mod::lemma_div_is_ordered(-a2, -a1, b);
    } else {
        vstd::arithmetic::div_mod::lemma_div_pos_is_pos(-a1, b);
        vstd::arithmetic::div_mod::lemma_div_pos_is_pos(a2, b);
    }
}

/// A dividend at an exact multiple divides exactly.
pub proof fn lemma_trunc_div_multiple(q: int, b: int)
    requires
        b >= 1,
    ensures
        trunc_div(q * b, b) == q,
{
    if q >= 0 {
        assert(q * b >= 0) by (nonlinear_arith)
            requires q >= 0 && b >= 1;
        vstd::arithmetic::div_mod::lemma_div_by_multiple(q, b);
    } else {
        assert(q * b < 0) by (nonlinear_arith)
            requires q < 0 && b >= 1;
        assert(-(q * b) == (-q) * b) by (nonlinear_arith);
        vstd::arithmetic::div_mod::lemma_div_by_multiple(-q, b);
    }
}

/// The absolute value of a product splits into a product of absolute values.
pub proof fn lemma_abs_mul(a: int, b: int)
    ensures
        abs(a * b) == abs(a) * abs(b),
{
    if a >= 0 && b >= 0 {
        vstd::arithmetic::mul::lemma_mul_nonnegative(a, b);
    } else if a >= 0 && b < 0 {
        vstd::arithmetic::mul::lemma_mul_unary_negation(a, b);
        vstd::arithmetic::mul::lemma_mul_nonnegative(a, -b);
        assert(a * b == -(a * (-b))) by (nonlinear_arith);
    } else if a < 0 && b >= 0 {
        vstd::arithmetic::mul::lemma_mul_unary_negation(a, b);
        vstd::arithmetic::mul::lemma_mul_nonnegative(-a, b);
    } else {
        vstd::arithmetic::mul::lemma_mul_nonnegative(-a, -b);
        assert(a * b == (-a) * (-b)) by (nonlinear_arith);
    }
}

/// A square equals the square of the absolute value.
pub proof fn lemma_sq_abs(a: int)
    ensures
        a * a == abs(a) * abs(a),
{
    if a < 0 {
        assert(a * a == (-a) * (-a)) by (nonlinear_arith);
    }
}

/// Cancelling a positive common factor preserves order.
pub proof fn lemma_cancel_factor(x: int, y: int, m: int)
    requires
        m >= 1,
    ensures
        x * m <= y * m ==> x <= y,
        x * m < y * m ==> x < y,
{
    if y < x {
        vstd::arithmetic::mul::lemma_mul_strict_inequality(y, x, m);
    }
    if y <= x {
        vstd::arithmetic::mul::lemma_mul_inequality(y, x, m);
    }
}

/// A truncating quotient is at most `c` once the dividend is at most
/// `c * b + (b - 1)`.
pub proof fn lemma_trunc_div_upper(a: int, c: int, b: int)
    requires
        b >= 1,
        c >= 0,
        a <= c * b + (b - 1),
    ensures
        trunc_div(a, b) <= c,
{
    vstd::arithmetic::mul::lemma_mul_nonnegative(c, b);
    lemma_trunc_div_ordered(a, c * b + (b - 1), b);
    vstd::arithmetic::div_mod::lemma_fundamental_div_mod_converse(c * b + (b - 1), b, c, b - 1);
}

/// The magnitude of a truncating quotient, scaled back by the divisor,
/// never exceeds the magnitude of the dividend.
pub proof fn lemma_trunc_div_abs(a: int, b: int)
    requires
        b >= 1,
    ensures
        abs(trunc_div(a, b)) * b <= abs(a),
        abs(trunc_div(a, b)) <= abs(a),
{
    lemma_trunc_div_facts(a, b);
    lemma_abs_mul(trunc_div(a, b), b);
    let q = abs(trunc_div(a, b));
    assert(q <= q * b) by (nonlinear_arith)
        requires b >= 1 && q >= 0;
}

/// `r` is the floor of the square root of `n`.
pub open spec fn is_sqrt(n: int, r: int) -> bool {
    0 <= r && r * r <= n && n < (r + 1) * (r + 1)
}

/// The floor of the square root of a nonnegative `n`.
pub open spec fn sqrt_floor(n: int) -> int {
    choose|r: int| is_sqrt(n, r)
}

/// Every nonnegative integer has a square-root floor, and `sqrt_floor`
/// denotes it.
pub proof fn lemma_sqrt_floor_exists(n: int)
    requires
        n >= 0,
    ensures
        is_sqrt(n, sqrt_floor(n)),
    decreases n,
{
    if n == 0 {
        assert(is_sqrt(0, 0));
    } else {
        lemma_sqrt_floor_exists(n - 1);
        let r0 = sqrt_floor(n - 1);
        if (r0 + 1) * (r0 + 1) <= n {
            assert(n == (r0 + 1) * (r0 + 1));
            assert((r0 + 1) * (r0 + 1) < (r0 + 2) * (r0 + 2)) by (nonlinear_arith)
                requires r0 >= 0;
            assert(is_sqrt(n, r0 + 1));
        } else {
            assert(is_sqrt(n, r0));
        }
    }
}

/// Two square-root floors of the same number agree.
pub proof fn lemma_sqrt_unique(n: int, r1: int, r2: int)
    requires
        is_sqrt(n, r1),
        is_sqrt(n, r2),
    ensures
        r1 == r2,
{
    assert(r1 == r2) by (nonlinear_arith)
        requires
            0 <= r1 && r1 * r1 <= n && n < (r1 + 1) * (r1 + 1),
            0 <= r2 && r2 * r2 <= n && n < (r2 + 1) * (r2 + 1);
}

/// Squaring preserves order on nonnegative integers.
pub proof fn lemma_square_ordered(a: int, b: int)
    requires
        0 <= a,
        0 <= b,
    ensures
        a <= b ==> a * a <= b * b,
        a * a < b * b ==> a < b,
{
    assert(a <= b ==> a * a <= b * b) by (nonlinear_arith)
        requires 0 <= a && 0 <= b;
    assert(b <= a ==> b * b <= a * a) by (nonlinear_arith)
        requires 0 <= a && 0 <= b;
}

/// `sqrt_floor` is monotone.
pub proof fn lemma_sqrt_floor_ordered(n1: int, n2: int)
    requires
        0 <= n1 <= n2,
    ensures
        sqrt_floor(n1) <= sqrt_floor(n2),
{
    lemma_sqrt_floor_exists(n1);
    lemma_sqrt_floor_exists(n2);
    let r1 = sqrt_floor(n1);
    let r2 = sqrt_floor(n2);
    if r1 > r2 {
        lemma_square_ordered(r2 + 1, r1);
        assert(n2 < (r2 + 1) * (r2 + 1) <= r1 * r1 <= n1);
    }
}

/// Floor of the square root, by binary search.
pub fn isqrt(n: i64) -> (r: i64)
    requires
        0 <= n <= 9_000_000_000_000_000_000,
    ensures
        r == sqrt_floor(n as int),
        is_sqrt(n as int, r as int),
{
    let mut lo: i64 = 0;
    let mut hi: i64 = 3_000_000_001;
    proof {
        assert(n < 3_000_000_001 * 3_000_000_001) by (nonlinear_arith)
            requires n <= 9_000_000_000_000_000_000;
    }
    while lo + 1 < hi
        invariant
            0 <= lo < hi <= 3_000_000_001,
            lo * lo <= n,
            n < hi * hi,
        decreases hi - lo,
    {
        let mid = lo + (hi - lo) / 2;
        proof {
            assert(mid * mid <= 3_000_000_000 * 3_000_000_000) by (nonlinear_arith)
                requires 0 <= mid <= 3_000_000_000;
            assert(3_000_000_000int * 3_000_000_000 <= 9_223_372_036_854_775_807) by (nonlinear_arith);
        }
        if mid * mid <= n {
            lo = mid;
        } else {
            hi = mid;
        }
    }
    proof {
        assert(is_sqrt(n as int, lo as int));
        lemma_sqrt_floor_exists(n as int);
        lemma_sqrt_unique(n as int, lo as int, sqrt_floor(n as int));
    }
    lo
}

/// The smaller of two fixed-point values.
pub fn min_i64(a: i64, b: i64) -> (r: i64)
    ensures
        r == min(a as int, b as int),
{
    if a <= b {
        a
    } else {
        b
    }
}

/// The larger of two fixed-point values.
pub fn max_i64(a: i64, b: i64) -> (r: i64)
    ensures
        r == max(a as int, b as int),
{
    if a >= b {
        a
    } else {
        b
    }
}

/// Absolute value.
pub fn abs_i64(a: i64) -> (r: i64)
    requires
        a > i64::MIN,
    ensures
        r == abs(a as int),
{
    if a >= 0 {
        a
    } else {
        -a
    }
}

} // verus!
