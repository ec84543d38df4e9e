//! Fixed-point arithmetic for the physics core.
//!
//! Continuous quantities are stored as `i64` values scaled by `FP_ONE`
//! (one unit of the quantity is `FP_ONE` sub-units).  Angles are radians
//! scaled the same way, normalized to `[0, TWO_PI_FP)`.  Division truncates
//! toward zero, like Rust's integer division.

use vstd::prelude::*;

verus! {

/// Sub-units per unit: all fixed-point values are scaled by this.
pub const FP_ONE: i64 = 1000;

/// The circle constant, fixed-point (3.142).
pub const PI_FP: i64 = 3142;

/// Half of `PI_FP`, exact since `PI_FP` is even.
pub const HALF_PI_FP: i64 = 1571;

/// A full turn, fixed-point.
pub const TWO_PI_FP: i64 = 6284;

/// The fixed angular rate of a flip, one eighteenth of a half turn per
/// tick (174 is `PI_FP` divided by eighteen).
pub const OMEGA_FP: i64 = 174;

/// Absolute value over the mathematical integers.
pub open spec fn iabs(a: int) -> int {
    if a >= 0 {
        a
    } else {
        -a
    }
}

/// Division truncating toward zero, the semantics of Rust's `/` on
/// signed integers.  (The `/` of specifications rounds toward
/// negative infinity instead.)
pub open spec fn tdiv(a: int, b: int) -> int {
    if (a >= 0) == (b >= 0) {
        iabs(a) / iabs(b)
    } else {
        -(iabs(a) / iabs(b))
    }
}

/// The magnitude of a truncating quotient never exceeds the magnitude
/// of the dividend (for a nonzero divisor).
pub proof fn lemma_tdiv_bound(a: int, b: int)
    requires
        b != 0,
    ensures
        iabs(tdiv(a, b)) <= iabs(a),
        iabs(a) < iabs(b) ==> tdiv(a, b) == 0,
{
    let ua = iabs(a);
    let ub = iabs(b);
    assert(ua / ub <= ua && (ua < ub ==> ua / ub == 0)) by (nonlinear_arith)
        requires
            ua >= 0 && ub >= 1,
    ;
}

/// Truncating division, computed through unsigned arithmetic.
pub fn tdiv_i128(a: i128, b: i128) -> (r: i128)
    requires
        b != 0,
        a > i128::MIN,
        b > i128::MIN,
    ensures
        r == tdiv(a as int, b as int),
{
    proof {
        lemma_tdiv_bound(a as int, b as int);
    }
    let neg: bool = (a < 0) != (b < 0);
    let ua: u128 = if a >= 0 {
        a as u128
    } else {
        (-a) as u128
    };
    let ub: u128 = if b >= 0 {
        b as u128
    } else {
        (-b) as u128
    };
    let q: u128 = ua / ub;
    proof {
        assert(q <= ua) by (nonlinear_arith)
            requires
                q == ua / ub && ub >= 1,
        ;
    }
    if neg {
        -(q as i128)
    } else {
        q as i128
    }
}

/// Truncating division on `i64`, mirror of `tdiv`.
pub fn tdiv_i64(a: i64, b: i64) -> (r: i64)
    requires
        b != 0,
        a > i64::MIN,
    ensures
        r == tdiv(a as int, b as int),
        iabs(r as int) <= iabs(a as int),
{
    proof {
        lemma_tdiv_bound(a as int, b as int);
    }
    let r = tdiv_i128(a as i128, b as i128);
    r as i64
}

/// A quotient of a value within `bound * b` stays within `bound`.
pub proof fn lemma_tdiv_shrink(a: int, b: int, bound: int)
    requires
        b > 0,
        bound >= 0,
        iabs(a) <= bound * b,
    ensures
        iabs(tdiv(a, b)) <= bound,
{
    assert(iabs(a) / b <= bound) by (nonlinear_arith)
        requires
            b > 0 && bound >= 0 && 0 <= iabs(a) <= bound * b,
    ;
}

/// Largest angle magnitude the angle helpers accept; generous enough for
/// any accumulated rotation the simulation can produce.
pub const ANGLE_LIMIT: i64 = 0x4000_0000_0000;

/// An angle reduced to the equivalent value in `[0, TWO_PI_FP)`.
pub open spec fn norm_angle(a: int) -> int {
    a % (TWO_PI_FP as int)
}

/// Reduces an angle to `[0, TWO_PI_FP)`.
pub fn norm_angle_fp(a: i64) -> (r: i64)
    requires
        -ANGLE_LIMIT - TWO_PI_FP <= a <= ANGLE_LIMIT + TWO_PI_FP,
    ensures
        r == norm_angle(a as int),
        0 <= r < TWO_PI_FP,
{
    let q = tdiv_i64(a, TWO_PI_FP);
    proof {
        lemma_trunc_remainder(a as int, TWO_PI_FP as int);
    }
    let m = a - q * TWO_PI_FP;
    if m < 0 {
        m + TWO_PI_FP
    } else {
        m
    }
}

/// A remainder computed with the given quotient and lying in `[0, b)`
/// is the mathematical remainder.
proof fn lemma_mod_unique(a: int, b: int, q: int, s: int)
    requires
        b > 0,
        a == b * q + s,
        0 <= s < b,
    ensures
        a % b == s,
{
    assert(a % b == s) by (nonlinear_arith)
        requires
            b > 0 && a == b * q + s && 0 <= s < b,
    ;
}

/// The truncating quotient leaves a remainder within the divisor's
/// magnitude, and adding the divisor to a negative remainder lands on the
/// mathematical remainder.
pub proof fn lemma_trunc_remainder(a: int, b: int)
    requires
        b > 0,
    ensures
        -b < a - tdiv(a, b) * b < b,
        a - tdiv(a, b) * b >= 0 ==> a - tdiv(a, b) * b == a % b,
        a - tdiv(a, b) * b < 0 ==> a - tdiv(a, b) * b + b == a % b,
{
    let ua = iabs(a);
    assert(ua == b * (ua / b) + ua % b && 0 <= ua % b < b) by (nonlinear_arith)
        requires
            b > 0 && ua >= 0,
    ;
    if a >= 0 {
        assert(tdiv(a, b) * b == b * (ua / b)) by (nonlinear_arith)
            requires
                tdiv(a, b) == ua / b,
        ;
        lemma_mod_unique(a, b, ua / b, a - tdiv(a, b) * b);
    } else {
        let m = ua % b;
        assert(tdiv(a, b) == -(ua / b));
        assert(tdiv(a, b) * b == -((ua / b) * b)) by (nonlinear_arith)
            requires
                tdiv(a, b) == -(ua / b),
        ;
        assert((ua / b) * b == b * (ua / b)) by (nonlinear_arith);
        assert(a - tdiv(a, b) * b == -m);
        if m == 0 {
            lemma_mod_unique(a, b, -(ua / b), 0);
        } else {
            assert(a == b * (-(ua / b) - 1) + (b - m)) by (nonlinear_arith)
                requires
                    a == -(b * (ua / b) + m),
            ;
            lemma_mod_unique(a, b, -(ua / b) - 1, b - m);
        }
    }
}

/// Negating an angle reflects its normal form: zero stays zero, and any
/// other remainder lands at the far side of the turn.
proof fn lemma_norm_neg(a: int)
    ensures
        norm_angle(-a) == if norm_angle(a) == 0 {
            0int
        } else {
            TWO_PI_FP - norm_angle(a)
        },
{
    let m = TWO_PI_FP as int;
    let n = norm_angle(a);
    vstd::arithmetic::div_mod::lemma_fundamental_div_mod(a, m);
    if n == 0 {
        lemma_mod_unique(-a, m, -(a / m), 0);
    } else {
        lemma_mod_unique(-a, m, -(a / m) - 1, m - n);
    }
}

/// Advancing an angle by half a turn moves its normal form by half a
/// turn, wrapping once past the full turn.
proof fn lemma_norm_shift_half(a: int)
    ensures
        norm_angle(a + PI_FP) == if norm_angle(a) < PI_FP {
            norm_angle(a) + PI_FP
        } else {
            norm_angle(a) - PI_FP
        },
{
    let m = TWO_PI_FP as int;
    let n = norm_angle(a);
    vstd::arithmetic::div_mod::lemma_fundamental_div_mod(a, m);
    if n < PI_FP {
        lemma_mod_unique(a + PI_FP, m, a / m, n + PI_FP);
    } else {
        lemma_mod_unique(a + PI_FP, m, a / m + 1, n - PI_FP);
    }
}

/// The rational approximation is symmetric about the quarter turn.
proof fn lemma_bhaskara_reflect(x: int)
    requires
        0 <= x <= PI_FP,
    ensures
        bhaskara(PI_FP - x) == bhaskara(x),
{
    assert((PI_FP - x) * (PI_FP as int - (PI_FP - x)) == x * (PI_FP - x)) by (nonlinear_arith);
}

/// The sine is an odd function of the angle.
pub proof fn lemma_sin_fp_odd(a: int)
    ensures
        sin_fp_of(-a) == -sin_fp_of(a),
{
    let n = norm_angle(a);
    lemma_norm_neg(a);
    if n == 0 {
        assert(bhaskara(0) == 0);
    } else if n < PI_FP {
        lemma_bhaskara_reflect(n);
    } else if n == PI_FP {
        assert(PI_FP as int * (PI_FP as int - PI_FP as int) == 0) by (nonlinear_arith);
        assert(bhaskara(PI_FP as int) == 0);
    } else {
        lemma_bhaskara_reflect(n - PI_FP);
    }
}

/// Advancing the angle by half a turn negates the sine.
pub proof fn lemma_sin_fp_shift_pi(a: int)
    ensures
        sin_fp_of(a + PI_FP) == -sin_fp_of(a),
{
    let n = norm_angle(a);
    lemma_norm_shift_half(a);
    assert(PI_FP as int * (PI_FP as int - PI_FP as int) == 0) by (nonlinear_arith);
    assert(bhaskara(PI_FP as int) == 0);
    assert(bhaskara(0) == 0);
    if n == 0 {
        assert(sin_fp_of(a + PI_FP) == bhaskara(PI_FP as int));
    } else if n == PI_FP {
        assert(sin_fp_of(a + PI_FP) == bhaskara(0));
    }
}

/// The cosine is an even function of the angle.
pub proof fn lemma_cos_fp_even(a: int)
    ensures
        cos_fp_of(-a) == cos_fp_of(a),
{
    lemma_sin_fp_odd(a - HALF_PI_FP);
    lemma_sin_fp_shift_pi(a - HALF_PI_FP);
}

/// Rational sine approximation on `[0, PI_FP]`, exact at the ends and at
/// the midpoint, within a few sub-units elsewhere.
pub open spec fn bhaskara(x: int) -> int {
    let u = x * (PI_FP - x);
    tdiv(16 * u * FP_ONE, 5 * PI_FP * PI_FP - 4 * u)
}

/// Sine of an angle in fixed-point radians, scaled by `FP_ONE`.
pub open spec fn sin_fp_of(a: int) -> int {
    let n = norm_angle(a);
    if n <= PI_FP {
        bhaskara(n)
    } else {
        -bhaskara(n - PI_FP)
    }
}

/// Cosine of an angle in fixed-point radians, scaled by `FP_ONE`.
pub open spec fn cos_fp_of(a: int) -> int {
    sin_fp_of(a + HALF_PI_FP)
}

/// The approximation stays within `[0, FP_ONE]` on `[0, PI_FP]`.
proof fn lemma_bhaskara_bounds(x: int)
    requires
        0 <= x <= PI_FP,
    ensures
        0 <= bhaskara(x) <= FP_ONE,
{
    let u = x * (PI_FP - x);
    assert(0 <= u && 4 * u <= PI_FP * PI_FP) by (nonlinear_arith)
        requires
            0 <= x <= PI_FP,
            u == x * (PI_FP - x),
    ;
    let num = 16 * u * FP_ONE;
    let den = 5 * PI_FP * PI_FP - 4 * u;
    assert(den >= 4 * PI_FP * PI_FP);
    assert(num <= den * FP_ONE) by (nonlinear_arith)
        requires
            num == 16 * u * FP_ONE,
            den == 5 * PI_FP * PI_FP - 4 * u,
            4 * u <= PI_FP * PI_FP,
            u >= 0,
    ;
    assert(num / den <= FP_ONE) by (nonlinear_arith)
        requires
            num >= 0 && den > 0 && num <= den * FP_ONE,
    ;
}

/// The sine stays within one in magnitude, whatever the angle.
pub proof fn lemma_sin_fp_bounds(a: int)
    ensures
        -FP_ONE <= sin_fp_of(a) <= FP_ONE,
{
    let m = TWO_PI_FP as int;
    let n = norm_angle(a);
    assert(0 <= n < m) by (nonlinear_arith)
        requires
            n == a % m && m > 0,
    ;
    if n <= PI_FP {
        lemma_bhaskara_bounds(n);
    } else {
        lemma_bhaskara_bounds(n - PI_FP);
    }
}

/// The cosine stays within one in magnitude, whatever the angle.
pub proof fn lemma_cos_fp_bounds(a: int)
    ensures
        -FP_ONE <= cos_fp_of(a) <= FP_ONE,
{
    lemma_sin_fp_bounds(a + HALF_PI_FP);
}

/// Sine, scaled by `FP_ONE`.  Never exceeds one in magnitude, and is
/// exactly zero at zero.
pub fn sin_fp(a: i64) -> (r: i64)
    requires
        -ANGLE_LIMIT - HALF_PI_FP <= a <= ANGLE_LIMIT + HALF_PI_FP,
    ensures
        r == sin_fp_of(a as int),
        -FP_ONE <= r <= FP_ONE,
{
    let n = norm_angle_fp(a);
    if n <= PI_FP {
        bhaskara_fp(n)
    } else {
        -bhaskara_fp(n - PI_FP)
    }
}

/// Cosine, scaled by `FP_ONE`.
pub fn cos_fp(a: i64) -> (r: i64)
    requires
        -ANGLE_LIMIT <= a <= ANGLE_LIMIT,
    ensures
        r == cos_fp_of(a as int),
        -FP_ONE <= r <= FP_ONE,
{
    sin_fp(a + HALF_PI_FP)
}

/// Evaluates the rational approximation on `[0, PI_FP]`.
fn bhaskara_fp(x: i64) -> (r: i64)
    requires
        0 <= x <= PI_FP,
    ensures
        r == bhaskara(x as int),
        0 <= r <= FP_ONE,
{
    proof {
        lemma_bhaskara_bounds(x as int);
        assert(0 <= x * (PI_FP - x) <= PI_FP * PI_FP) by (nonlinear_arith)
            requires
                0 <= x <= PI_FP,
        ;
    }
    let u: i64 = x * (PI_FP - x);
    let num: i64 = 16 * u * FP_ONE;
    let den: i64 = 5 * PI_FP * PI_FP - 4 * u;
    tdiv_i64(num, den)
}

} // verus!
