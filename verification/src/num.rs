//! Scalar fixed-point arithmetic: truncating division, saturation, sign and
//! absolute value, and the lemmas the solvers need about them.

use vstd::prelude::*;

verus! {

/// Fixed-point unit for dimensionless coefficients (drag, restitution,
/// jump boost): a coefficient of `COEF_ONE` means 1.0.
pub const COEF_ONE: i64 = 1024;

/// Largest admissible tick rate: the tick duration is `1 / tps` seconds with
/// `1 <= tps <= TPS_MAX`.
pub const TPS_MAX: i64 = 1024;

/// Internal headroom for velocities inside the integrator: the quadratic drag
/// term squares a velocity, so the intermediate is kept well inside the wide
/// range.
pub const VEL_SAT: i64 = 72057594037927936;

/// Truncating division (rounds toward zero), the rounding rule used for all
/// velocity and position updates. Spec-level `/` is Euclidean, so the
/// negative case is spelled out.
pub open spec fn div_t(a: int, b: int) -> int {
    if a >= 0 {
        a / b
    } else {
        -((-a) / b)
    }
}

/// Magnitude of an integer.
pub open spec fn abs_i(a: int) -> int {
    if a >= 0 {
        a
    } else {
        -a
    }
}

/// Sign of an integer, with `sgn(0) == 1`: the collision normal of a pair of
/// boxes with coinciding centers points along the positive axis.
pub open spec fn sgn(a: int) -> int {
    if a < 0 {
        -1
    } else {
        1
    }
}

/// Saturation to the `i64` range, applied to every stored result.
pub open spec fn sat64(a: int) -> int {
    if a > i64::MAX {
        i64::MAX as int
    } else if a < i64::MIN {
        i64::MIN as int
    } else {
        a
    }
}

/// Saturation to the symmetric range `[-m, m]`.
pub open spec fn sat_to(a: int, m: int) -> int {
    if a > m {
        m
    } else if a < -m {
        -m
    } else {
        a
    }
}

/// Bound on a product from bounds on its factors.
pub proof fn lemma_mul_le(a: int, b: int, ma: int, mb: int)
    requires
        -ma <= a <= ma,
        -mb <= b <= mb,
        0 <= ma,
        0 <= mb,
    ensures
        -(ma * mb) <= a * b <= ma * mb,
{
    assert(-(ma * mb) <= a * b <= ma * mb) by (nonlinear_arith)
        requires
            -ma <= a <= ma,
            -mb <= b <= mb,
            0 <= ma,
            0 <= mb,
    ;
}

/// Truncating division has magnitude no larger than the dividend's.
pub proof fn lemma_div_t_bound(a: int, b: int)
    requires
        b >= 1,
    ensures
        abs_i(div_t(a, b)) <= abs_i(a),
        a >= 0 ==> 0 <= div_t(a, b) <= a,
        a <= 0 ==> a <= div_t(a, b) <= 0,
{
    if a >= 0 {
        vstd::arithmetic::div_mod::lemma_div_nonincreasing(a, b);
        vstd::arithmetic::div_mod::lemma_div_pos_is_pos(a, b);
    } else {
        vstd::arithmetic::div_mod::lemma_div_nonincreasing(-a, b);
        vstd::arithmetic::div_mod::lemma_div_pos_is_pos(-a, b);
    }
}

/// Wide multiply with comfortable magnitude caps (`2^96` times `2^30`), so a
/// chain of solver products provably stays inside `i128`.
pub fn mul_i128(a: i128, b: i128) -> (r: i128)
    requires
        -0x1000000000000000000000000 <= a <= 0x1000000000000000000000000,
        -0x40000000 <= b <= 0x40000000,
    ensures
        r == a * b,
{
    proof {
        lemma_mul_le(a as int, b as int, 0x1000000000000000000000000, 0x40000000);
    }
    a * b
}

/// An inverse-mass share of an impulse is no larger than the impulse: scaling
/// by `w` and dividing by `wsum >= w` shrinks the magnitude.
pub proof fn lemma_div_t_scaled_bound(t: int, w: int, wsum: int)
    requires
        0 <= w <= wsum,
        1 <= wsum,
    ensures
        abs_i(div_t(t * w, wsum)) <= abs_i(t),
{
    let at = abs_i(t);
    let atw = abs_i(t * w);
    if t >= 0 {
        assert(t * w >= 0) by (nonlinear_arith)
            requires
                t >= 0,
                w >= 0,
        ;
        assert(atw == at * w);
    } else {
        assert(t * w <= 0) by (nonlinear_arith)
            requires
                t <= 0,
                w >= 0,
        ;
        assert(at * w == -(t * w)) by (nonlinear_arith)
            requires
                at == -t,
        ;
        assert(atw == at * w);
    }
    assert(at * w <= at * wsum) by (nonlinear_arith)
        requires
            0 <= w <= wsum,
            at >= 0,
    ;
    assert(at * w >= 0) by (nonlinear_arith)
        requires
            at >= 0,
            w >= 0,
    ;
    vstd::arithmetic::div_mod::lemma_div_is_ordered(at * w, at * wsum, wsum);
    vstd::arithmetic::div_mod::lemma_div_multiples_vanish(at, wsum);
    assert(at * wsum == wsum * at) by (nonlinear_arith);
    vstd::arithmetic::div_mod::lemma_div_pos_is_pos(at * w, wsum);
    if t * w >= 0 {
        assert(div_t(t * w, wsum) == (t * w) / wsum);
        assert(t * w == atw);
    } else {
        assert(div_t(t * w, wsum) == -((-(t * w)) / wsum));
        assert(-(t * w) == atw);
    }
}

/// Truncating division by a positive divisor, computed on `i128` so callers
/// can chain wide intermediates.
pub fn div_trunc(a: i128, b: i128) -> (r: i128)
    requires
        1 <= b,
    ensures
        r == div_t(a as int, b as int),
{
    proof {
        lemma_div_t_bound(a as int, b as int);
    }
    match a.checked_div(b) {
        Some(q) => q,
        None => 0,
    }
}

/// Saturates a wide intermediate to the `i64` range.
pub fn sat_i64(a: i128) -> (r: i64)
    ensures
        r == sat64(a as int),
{
    if a > i64::MAX as i128 {
        i64::MAX
    } else if a < i64::MIN as i128 {
        i64::MIN
    } else {
        a as i64
    }
}

/// Saturates a wide intermediate to `[-m, m]`.
pub fn sat_mag(a: i128, m: i128) -> (r: i128)
    requires
        0 <= m,
    ensures
        r == sat_to(a as int, m as int),
{
    if a > m {
        m
    } else if a < -m {
        -m
    } else {
        a
    }
}

/// A product with a factor in `[-1, 1]` is the other factor, its negation, or
/// zero, and never grows in magnitude.
pub proof fn lemma_unit_scale(nx: int, t: int)
    requires
        -1 <= nx <= 1,
    ensures
        nx * t == t || nx * t == -t || nx * t == 0,
        abs_i(nx * t) <= abs_i(t),
{
    if nx == 1 {
        assert(nx * t == t) by (nonlinear_arith)
            requires
                nx == 1,
        ;
    } else if nx == -1 {
        assert(nx * t == -t) by (nonlinear_arith)
            requires
                nx == -1,
        ;
    } else {
        assert(nx * t == 0) by (nonlinear_arith)
            requires
                nx == 0,
        ;
    }
}

/// A quotient of a bounded dividend is bounded by the cofactor: if
/// `|x| <= m * d` then `|div_t(x, d)| <= m`.
pub proof fn lemma_div_t_le_factor(x: int, m: int, d: int)
    requires
        abs_i(x) <= m * d,
        0 <= m,
        1 <= d,
    ensures
        abs_i(div_t(x, d)) <= m,
{
    vstd::arithmetic::div_mod::lemma_div_is_ordered(abs_i(x), m * d, d);
    vstd::arithmetic::div_mod::lemma_div_multiples_vanish(m, d);
    assert(m * d == d * m) by (nonlinear_arith);
    vstd::arithmetic::div_mod::lemma_div_pos_is_pos(abs_i(x), d);
    if x >= 0 {
        assert(div_t(x, d) == x / d);
        assert(abs_i(x) == x);
    } else {
        assert(div_t(x, d) == -((-x) / d));
        assert(abs_i(x) == -x);
    }
}

/// Flooring division stays between the dividend and zero.
pub proof fn lemma_div_floor_bound(a: int, b: int)
    requires
        1 <= b,
    ensures
        a >= 0 ==> 0 <= a / b <= a,
        a < 0 ==> a <= a / b <= 0,
{
    if a >= 0 {
        vstd::arithmetic::div_mod::lemma_div_nonincreasing(a, b);
        vstd::arithmetic::div_mod::lemma_div_pos_is_pos(a, b);
    } else {
        vstd::arithmetic::div_mod::lemma_div_is_ordered(a, 0, b);
        vstd::arithmetic::div_mod::lemma_div_of0(b);
        vstd::arithmetic::div_mod::lemma_fundamental_div_mod(a, b);
        vstd::arithmetic::div_mod::lemma_mod_division_less_than_divisor(a, b);
        assert(a / b >= a) by (nonlinear_arith)
            requires
                a == b * (a / b) + a % b,
                0 <= a % b < b,
                1 <= b,
                a < 0,
                a / b <= 0,
        ;
    }
}

/// Flooring division by a positive divisor: the quotient rounds toward
/// negative infinity, which is what the world-to-tile conversion needs for
/// negative coordinates. Matches the spec-level `/`.
pub fn div_floor(a: i128, b: i128) -> (r: i128)
    requires
        1 <= b,
    ensures
        r == a as int / b as int,
{
    proof {
        lemma_div_floor_bound(a as int, b as int);
    }
    match a.checked_div_euclid(b) {
        Some(q) => q,
        None => 0,
    }
}

/// Sign of a wide intermediate, with `sign_i128(0) == 1`.
pub fn sign_i128(a: i128) -> (r: i64)
    ensures
        r == sgn(a as int),
{
    if a < 0 {
        -1
    } else {
        1
    }
}

/// Magnitude of a wide intermediate.
pub fn abs_i128(a: i128) -> (r: i128)
    requires
        i128::MIN < a,
    ensures
        r == abs_i(a as int),
{
    if a < 0 {
        -a
    } else {
        a
    }
}

/// Magnitude of an `i64`, widened so `i64::MIN` needs no special case.
pub fn abs_i128_of(a: i64) -> (r: i128)
    ensures
        r == abs_i(a as int),
{
    if a < 0 {
        -(a as i128)
    } else {
        a as i128
    }
}

/// Smaller of two magnitudes, used by the deceleration clamp.
pub fn min_i128(a: i128, b: i128) -> (r: i128)
    ensures
        r == if a <= b { a as int } else { b as int },
{
    if a <= b {
        a
    } else {
        b
    }
}

} // verus!
