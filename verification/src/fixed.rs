//! Fixed-point scalar arithmetic.
//!
//! A physical quantity is stored as an `i64` counting millionths of the
//! quantity's SI unit, so `SCALE` steps make one unit. Products and
//! quotients round toward zero, exactly as the hardware integer division
//! does; the spec functions here (`tdiv`, `mulf`) state that rounding rule
//! precisely, and every executable operation is proved to return exactly
//! the specified value.

use vstd::arithmetic::div_mod::{
    lemma_div_is_ordered, lemma_div_multiples_vanish, lemma_div_nonincreasing,
    lemma_div_pos_is_pos, lemma_fundamental_div_mod, lemma_mod_bound,
};
use vstd::arithmetic::mul::{
    lemma_mul_is_commutative, lemma_mul_nonnegative, lemma_mul_upper_bound,
};
use vstd::prelude::*;

verus! {

/// Number of fixed-point steps in one SI unit.
pub const SCALE: i64 = 1_000_000;

/// The magnitude of an integer.
pub open spec fn absi(a: int) -> int {
    if a < 0 {
        -a
    } else {
        a
    }
}

/// Division truncated toward zero: the rounding of Rust's `/` on signed
/// integers, stated over mathematical integers.
pub open spec fn tdiv(a: int, b: int) -> int
    recommends
        b != 0,
{
    if (a < 0) != (b < 0) {
        -(absi(a) / absi(b))
    } else {
        absi(a) / absi(b)
    }
}

/// Fixed-point product of two scaled quantities: `a * b / SCALE`,
/// truncated toward zero.
pub open spec fn mulf(a: int, b: int) -> int {
    tdiv(a * b, SCALE as int)
}

/// `r` is the integer square root of `n`: the greatest integer whose
/// square does not exceed `n`.
pub open spec fn is_sqrt(r: int, n: int) -> bool {
    0 <= r && r * r <= n && n < (r + 1) * (r + 1)
}

/// The integer square root of `n`, as a spec-level value. It is pinned
/// down uniquely by `is_sqrt` (see `lemma_sqrt_of`).
pub open spec fn sqrt_of(n: int) -> int {
    choose|r: int| is_sqrt(r, n)
}

/// The squared Euclidean norm of a triple.
pub open spec fn norm2_3(x: int, y: int, z: int) -> int {
    x * x + y * y + z * z
}

/// The squared Euclidean norm of a quadruple.
pub open spec fn norm2_4(w: int, x: int, y: int, z: int) -> int {
    w * w + x * x + y * y + z * z
}

/// A number has at most one integer square root.
pub proof fn lemma_sqrt_unique(r1: int, r2: int, n: int)
    requires
        is_sqrt(r1, n),
        is_sqrt(r2, n),
    ensures
        r1 == r2,
{
    if r1 < r2 {
        assert((r1 + 1) * (r1 + 1) <= r2 * r2) by (nonlinear_arith)
            requires
                0 <= r1,
                r1 < r2,
        ;
    }
    if r2 < r1 {
        assert((r2 + 1) * (r2 + 1) <= r1 * r1) by (nonlinear_arith)
            requires
                0 <= r2,
                r2 < r1,
        ;
    }
}

/// Any witness of `is_sqrt` is the value `sqrt_of` denotes.
pub proof fn lemma_sqrt_of(r: int, n: int)
    requires
        is_sqrt(r, n),
    ensures
        sqrt_of(n) == r,
{
    let w: int = choose|w: int| is_sqrt(w, n);
    lemma_sqrt_unique(w, r, n);
}

/// The magnitude of a product is the product of the magnitudes.
pub proof fn lemma_abs_mul(a: int, b: int)
    ensures
        absi(a * b) == absi(a) * absi(b),
{
    if a >= 0 {
        if b >= 0 {
            assert(a * b >= 0) by (nonlinear_arith)
                requires
                    a >= 0,
                    b >= 0,
            ;
        } else {
            assert(a * b <= 0 && a * (-b) == -(a * b)) by (nonlinear_arith)
                requires
                    a >= 0,
                    b < 0,
            ;
        }
    } else {
        if b >= 0 {
            assert(a * b <= 0 && (-a) * b == -(a * b)) by (nonlinear_arith)
                requires
                    a < 0,
                    b >= 0,
            ;
        } else {
            assert(a * b >= 0 && (-a) * (-b) == a * b) by (nonlinear_arith)
                requires
                    a < 0,
                    b < 0,
            ;
        }
    }
}

/// A square is nonnegative and equals the square of the magnitude.
pub proof fn lemma_square_absi(x: int)
    ensures
        x * x == absi(x) * absi(x),
        x * x >= 0,
{
    lemma_abs_mul(x, x);
    if x >= 0 {
        lemma_mul_nonnegative(x, x);
    } else {
        assert(x * x == (-x) * (-x)) by (nonlinear_arith);
        lemma_mul_nonnegative(-x, -x);
    }
}

/// Truncating division by a positive divisor shrinks magnitudes:
/// `|a / d| == |a| / d`.
pub proof fn lemma_tdiv_absi(a: int, d: int)
    requires
        d >= 1,
    ensures
        absi(tdiv(a, d)) == absi(a) / d,
        tdiv(a, d) >= 0 <==> (a >= 0 || absi(a) / d == 0),
{
    lemma_div_pos_is_pos(absi(a), d);
}

/// Dividing a bounded nonnegative value keeps it under the divided bound.
pub proof fn lemma_div_bound(x: int, d: int, c: int)
    requires
        0 <= x,
        0 < d,
        0 <= c,
        x <= c * d,
    ensures
        x / d <= c,
{
    lemma_div_is_ordered(x, c * d, d);
    lemma_mul_is_commutative(c, d);
    lemma_div_multiples_vanish(c, d);
}

/// Bound on a truncated product-quotient from bounds on its factors.
pub proof fn lemma_tdiv_fits(a: int, b: int, d: int, ca: int, cb: int)
    requires
        absi(a) <= ca,
        absi(b) <= cb,
        1 <= d,
    ensures
        absi(tdiv(a * b, d)) <= (ca * cb) / d,
        absi(tdiv(a * b, d)) <= ca * cb,
        absi(a) * absi(b) <= ca * cb,
{
    lemma_abs_mul(a, b);
    lemma_mul_upper_bound(absi(a), ca, absi(b), cb);
    lemma_tdiv_absi(a * b, d);
    lemma_div_is_ordered(absi(a * b), ca * cb, d);
    lemma_mul_nonnegative(ca, cb);
    lemma_div_nonincreasing(ca * cb, d);
}

/// Every nonnegative integer has an integer square root, so `sqrt_of`
/// really denotes it.
pub proof fn lemma_sqrt_exists(n: int)
    requires
        n >= 0,
    ensures
        is_sqrt(sqrt_of(n), n),
    decreases n,
{
    if n == 0 {
        assert(is_sqrt(0, 0));
        assert(exists|r: int| is_sqrt(r, n));
    } else {
        lemma_sqrt_exists(n - 1);
        let r0 = sqrt_of(n - 1);
        if (r0 + 1) * (r0 + 1) <= n {
            assert((r0 + 2) * (r0 + 2) > (r0 + 1) * (r0 + 1)) by (nonlinear_arith)
                requires
                    r0 >= 0,
            ;
            assert(is_sqrt(r0 + 1, n));
        } else {
            assert(is_sqrt(r0, n));
        }
        assert(exists|r: int| is_sqrt(r, n));
    }
}

/// Scaling by a factor commutes with rounding down, up to the
/// direction that matters: `(x / d) * t <= (x * t) / d`.
pub proof fn lemma_div_mul_le(x: int, t: int, d: int)
    requires
        0 <= x,
        0 <= t,
        0 < d,
    ensures
        (x / d) * t <= (x * t) / d,
{
    let f = x / d;
    lemma_fundamental_div_mod(x, d);
    lemma_mod_bound(x, d);
    lemma_div_pos_is_pos(x, d);
    assert((f * t) * d <= x * t) by (nonlinear_arith)
        requires
            d * f <= x,
            0 <= t,
    ;
    lemma_mul_is_commutative(f, t);
    lemma_div_multiples_vanish(f * t, d);
    assert(d * (f * t) == (f * t) * d) by {
        lemma_mul_is_commutative(d, f * t);
    }
    lemma_div_is_ordered((f * t) * d, x * t, d);
}

/// A value whose square stays under `(m + 1)^2` has magnitude at most
/// `m`.
pub proof fn lemma_abs_le_of_sq(c: int, m: int)
    requires
        c * c < (m + 1) * (m + 1),
        0 <= m,
    ensures
        absi(c) <= m,
{
    lemma_square_absi(c);
    if absi(c) > m {
        assert((m + 1) * (m + 1) <= absi(c) * absi(c)) by (nonlinear_arith)
            requires
                0 <= m + 1 <= absi(c),
        ;
    }
}

/// One component of a quadruple divided by the quadruple's norm `m`:
/// two-sided bounds on the square of the quotient, scaled back by
/// `m^2`.
proof fn lemma_scaled_comp_sq(q: int, m: int)
    requires
        1 <= m,
        absi(q) <= m,
    ensures
        absi(tdiv(q * SCALE as int, m)) <= SCALE as int,
        (tdiv(q * SCALE as int, m) * tdiv(q * SCALE as int, m)) * (m * m) <= (q * q)
            * 1000000000000,
        (tdiv(q * SCALE as int, m) * tdiv(q * SCALE as int, m)) * (m * m) >= (q * q)
            * 1000000000000 - 2 * ((absi(q) * 1000000) * m),
{
    let s = SCALE as int;
    let u = tdiv(q * s, m);
    let p = absi(q);
    let a = p * s;
    lemma_abs_mul(q, s);
    lemma_tdiv_absi(q * s, m);
    let f = a / m;
    lemma_mul_nonnegative(p, s);
    lemma_fundamental_div_mod(a, m);
    lemma_mod_bound(a, m);
    lemma_div_pos_is_pos(a, m);
    assert((m * f) * (m * f) <= a * a) by (nonlinear_arith)
        requires
            0 <= m * f,
            m * f <= a,
    ;
    assert((m * f) * (m * f) >= a * a - 2 * a * m) by (nonlinear_arith)
        requires
            m * f > a - m,
            0 <= m * f,
            0 <= a,
    ;
    lemma_square_absi(u);
    assert((f * f) * (m * m) == (m * f) * (m * f)) by (nonlinear_arith);
    lemma_square_absi(q);
    assert(a * a == (q * q) * 1000000000000) by (nonlinear_arith)
        requires
            a == p * 1000000,
            p * p == q * q,
    ;
    assert((m * f) * (m * f) >= (q * q) * 1000000000000 - 2 * ((p * 1000000) * m))
        by (nonlinear_arith)
        requires
            (m * f) * (m * f) >= a * a - 2 * a * m,
            a == p * 1000000,
            a * a == (q * q) * 1000000000000,
    ;
    lemma_mul_upper_bound(p, m, s, s);
    lemma_mul_is_commutative(m, s);
    lemma_div_multiples_vanish(s, m);
    lemma_div_is_ordered(a, m * s, m);
}

/// Rescaling a quadruple by `SCALE / m`, where `m` is its own norm,
/// yields a quadruple whose norm lies within a few fixed-point steps
/// of `SCALE`: at most 3 below and 1 above. This is why one
/// renormalization pass is enough to keep an orientation quaternion on
/// the unit sphere.
pub proof fn lemma_scaled_norm_bounds(
    a: int,
    b: int,
    c: int,
    d: int,
    m: int,
    ua: int,
    ub: int,
    uc: int,
    ud: int,
)
    requires
        is_sqrt(m, norm2_4(a, b, c, d)),
        500_000 <= m,
        ua == tdiv(a * SCALE as int, m),
        ub == tdiv(b * SCALE as int, m),
        uc == tdiv(c * SCALE as int, m),
        ud == tdiv(d * SCALE as int, m),
    ensures
        999_997 <= sqrt_of(norm2_4(ua, ub, uc, ud)) <= 1_000_001,
        absi(ua) <= SCALE as int,
        absi(ub) <= SCALE as int,
        absi(uc) <= SCALE as int,
        absi(ud) <= SCALE as int,
{
    let n = norm2_4(a, b, c, d);
    let pa = absi(a);
    let pb = absi(b);
    let pc = absi(c);
    let pd = absi(d);
    lemma_square_absi(a);
    lemma_square_absi(b);
    lemma_square_absi(c);
    lemma_square_absi(d);
    lemma_abs_le_of_sq(a, m);
    lemma_abs_le_of_sq(b, m);
    lemma_abs_le_of_sq(c, m);
    lemma_abs_le_of_sq(d, m);
    lemma_scaled_comp_sq(a, m);
    lemma_scaled_comp_sq(b, m);
    lemma_scaled_comp_sq(c, m);
    lemma_scaled_comp_sq(d, m);
    let nu = norm2_4(ua, ub, uc, ud);
    lemma_square_absi(ua);
    lemma_square_absi(ub);
    lemma_square_absi(uc);
    lemma_square_absi(ud);
    assert(nu * (m * m) == ((ua * ua) * (m * m)) + ((ub * ub) * (m * m)) + ((uc * uc) * (m * m))
        + ((ud * ud) * (m * m))) by (nonlinear_arith)
        requires
            nu == ua * ua + ub * ub + uc * uc + ud * ud,
    ;
    assert(n * 1000000000000 == ((a * a) * 1000000000000) + ((b * b) * 1000000000000) + ((c * c)
        * 1000000000000) + ((d * d) * 1000000000000)) by (nonlinear_arith)
        requires
            n == a * a + b * b + c * c + d * d,
    ;
    assert((m + 1) * (m + 1) == m * m + 2 * m + 1) by (nonlinear_arith);
    // Upper side: the scaled squares cannot overshoot.
    assert(n * 1000000000000 <= (m * m + 2 * m) * 1000000000000) by (nonlinear_arith)
        requires
            n <= m * m + 2 * m,
    ;
    assert((m * m + 2 * m) * 1000000000000 <= 1000004000000 * (m * m)) by (nonlinear_arith)
        requires
            500000 <= m,
    ;
    assert(nu * (m * m) <= 1000004000000 * (m * m));
    assert(nu <= 1000004000000) by (nonlinear_arith)
        requires
            nu * (m * m) <= 1000004000000 * (m * m),
            1 <= m,
    ;
    // Lower side: the rounding losses stay small against the norm.
    let t = pa + pb + pc + pd;
    assert(t * t == pa * pa + pb * pb + pc * pc + pd * pd + 2 * (pa * pb) + 2 * (pa * pc) + 2 * (
    pa * pd) + 2 * (pb * pc) + 2 * (pb * pd) + 2 * (pc * pd)) by (nonlinear_arith)
        requires
            t == pa + pb + pc + pd,
    ;
    assert(2 * (pa * pb) <= pa * pa + pb * pb) by (nonlinear_arith);
    assert(2 * (pa * pc) <= pa * pa + pc * pc) by (nonlinear_arith);
    assert(2 * (pa * pd) <= pa * pa + pd * pd) by (nonlinear_arith);
    assert(2 * (pb * pc) <= pb * pb + pc * pc) by (nonlinear_arith);
    assert(2 * (pb * pd) <= pb * pb + pd * pd) by (nonlinear_arith);
    assert(2 * (pc * pd) <= pc * pc + pd * pd) by (nonlinear_arith);
    assert(t * t <= 4 * (pa * pa + pb * pb + pc * pc + pd * pd));
    assert((2 * m + 2) * (2 * m + 2) == 4 * (m * m) + 8 * m + 4) by (nonlinear_arith);
    if t >= 2 * m + 2 {
        assert((2 * m + 2) * (2 * m + 2) <= t * t) by (nonlinear_arith)
            requires
                0 <= 2 * m + 2,
                2 * m + 2 <= t,
        ;
        assert(false);
    }
    assert(2 * ((pa * 1000000) * m) + 2 * ((pb * 1000000) * m) + 2 * ((pc * 1000000) * m) + 2 * ((
    pd * 1000000) * m) == (2000000 * m) * t) by (nonlinear_arith)
        requires
            t == pa + pb + pc + pd,
    ;
    assert(nu * (m * m) >= n * 1000000000000 - (2000000 * m) * t);
    assert(n * 1000000000000 >= (m * m) * 1000000000000) by (nonlinear_arith)
        requires
            n >= m * m,
    ;
    assert((2000000 * m) * t <= 4000004 * (m * m)) by (nonlinear_arith)
        requires
            t <= 2 * m + 1,
            500000 <= m,
    ;
    assert(nu * (m * m) >= 999995999996 * (m * m));
    assert(nu >= 999995999996) by (nonlinear_arith)
        requires
            nu * (m * m) >= 999995999996 * (m * m),
            1 <= m,
    ;
    lemma_sqrt_exists(nu);
    let r = sqrt_of(nu);
    lemma_abs_le_of_sq(r, 1000001);
    if r + 1 <= 999997 {
        assert((r + 1) * (r + 1) <= 999997 * 999997) by (nonlinear_arith)
            requires
                0 <= r + 1,
                r + 1 <= 999997,
        ;
        assert(false);
    }
}

/// The magnitude of an `i64`, widened to `u128`.
fn abs_u128(a: i64) -> (r: u128)
    ensures
        r as int == absi(a as int),
        r <= 0x8000000000000000u128,
{
    if a < 0 {
        (-(a as i128)) as u128
    } else {
        a as u128
    }
}

/// `a * b / d` rounded toward zero, computed without intermediate
/// overflow. This is the one executable primitive behind every
/// fixed-point product and quotient in the library.
pub fn mul_div(a: i64, b: i64, d: i64) -> (r: i64)
    requires
        d != 0,
        absi(tdiv(a as int * b as int, d as int)) <= i64::MAX as int,
    ensures
        r as int == tdiv(a as int * b as int, d as int),
        absi(r as int) == absi(a as int * b as int) / absi(d as int),
{
    let pa: u128 = abs_u128(a);
    let pb: u128 = abs_u128(b);
    let pd: u128 = abs_u128(d);
    proof {
        lemma_abs_mul(a as int, b as int);
        assert(pa as int * pb as int <= 0x8000000000000000 * 0x8000000000000000)
            by (nonlinear_arith)
            requires
                pa <= 0x8000000000000000u128,
                pb <= 0x8000000000000000u128,
        ;
    }
    let p: u128 = pa * pb;
    let q: u128 = p / pd;
    proof {
        lemma_div_pos_is_pos(p as int, pd as int);
        assert((a != 0 && b != 0) ==> (((a as int) * (b as int) < 0) <==> ((a < 0) != (b < 0))))
            by (nonlinear_arith);
        assert(a as int * b as int == 0 ==> absi(a as int) * absi(b as int) == 0);
    }
    let mag: i64 = q as i64;
    if ((a < 0) != (b < 0)) != (d < 0) {
        -mag
    } else {
        mag
    }
}

/// `a * b / d` rounded toward zero, or `None` when the quotient would
/// not fit an `i64`. For stage values whose range depends on runtime
/// state, the integrator tests this instead of assuming a bound.
pub fn mul_div_opt(a: i64, b: i64, d: i64) -> (r: Option<i64>)
    requires
        d != 0,
    ensures
        r is Some <==> absi(tdiv(a as int * b as int, d as int)) <= i64::MAX as int,
        r matches Some(v) ==> v as int == tdiv(a as int * b as int, d as int),
{
    let pa: u128 = abs_u128(a);
    let pb: u128 = abs_u128(b);
    let pd: u128 = abs_u128(d);
    proof {
        lemma_abs_mul(a as int, b as int);
        assert(pa as int * pb as int <= 0x8000000000000000 * 0x8000000000000000)
            by (nonlinear_arith)
            requires
                pa <= 0x8000000000000000u128,
                pb <= 0x8000000000000000u128,
        ;
    }
    let p: u128 = pa * pb;
    let q: u128 = p / pd;
    proof {
        lemma_div_pos_is_pos(p as int, pd as int);
        assert((a != 0 && b != 0) ==> (((a as int) * (b as int) < 0) <==> ((a < 0) != (b < 0))))
            by (nonlinear_arith);
        assert(a as int * b as int == 0 ==> absi(a as int) * absi(b as int) == 0);
    }
    if q > i64::MAX as u128 {
        return None;
    }
    let mag: i64 = q as i64;
    if ((a < 0) != (b < 0)) != (d < 0) {
        Some(-mag)
    } else {
        Some(mag)
    }
}

/// Fixed-point product: `a * b / SCALE`, rounded toward zero.
pub fn mul_fixed(a: i64, b: i64) -> (r: i64)
    requires
        absi(a as int) * absi(b as int) <= SCALE as int * i64::MAX as int,
    ensures
        r as int == mulf(a as int, b as int),
{
    proof {
        lemma_abs_mul(a as int, b as int);
        lemma_tdiv_absi(a as int * b as int, SCALE as int);
        lemma_div_bound(absi(a as int * b as int), SCALE as int, i64::MAX as int);
    }
    mul_div(a, b, SCALE)
}

/// Euclidean norm of a triple of fixed-point components: the integer
/// square root of the sum of their squares.
pub fn sqrt_norm3(x: i64, y: i64, z: i64) -> (r: i64)
    requires
        absi(x as int) <= 0x4000000000000000,
        absi(y as int) <= 0x4000000000000000,
        absi(z as int) <= 0x4000000000000000,
    ensures
        r >= 0,
        is_sqrt(r as int, norm2_3(x as int, y as int, z as int)),
        r as int == sqrt_of(norm2_3(x as int, y as int, z as int)),
{
    let ax: u128 = abs_u128(x);
    let ay: u128 = abs_u128(y);
    let az: u128 = abs_u128(z);
    proof {
        lemma_square_absi(x as int);
        lemma_square_absi(y as int);
        lemma_square_absi(z as int);
        assert(ax as int * ax as int <= 0x4000000000000000 * 0x4000000000000000
            && ay as int * ay as int <= 0x4000000000000000 * 0x4000000000000000
            && az as int * az as int <= 0x4000000000000000 * 0x4000000000000000)
            by (nonlinear_arith)
            requires
                ax <= 0x4000000000000000u128,
                ay <= 0x4000000000000000u128,
                az <= 0x4000000000000000u128,
        ;
    }
    let n: u128 = ax * ax + ay * ay + az * az;
    let r64: u64 = isqrt128(n);
    proof {
        lemma_sqrt_of(r64 as int, n as int);
    }
    r64 as i64
}

/// Euclidean norm of a quadruple of fixed-point components.
pub fn sqrt_norm4(w: i64, x: i64, y: i64, z: i64) -> (r: i64)
    requires
        absi(w as int) <= 0x2000000000000000,
        absi(x as int) <= 0x2000000000000000,
        absi(y as int) <= 0x2000000000000000,
        absi(z as int) <= 0x2000000000000000,
    ensures
        r >= 0,
        is_sqrt(r as int, norm2_4(w as int, x as int, y as int, z as int)),
        r as int == sqrt_of(norm2_4(w as int, x as int, y as int, z as int)),
{
    let aw: u128 = abs_u128(w);
    let ax: u128 = abs_u128(x);
    let ay: u128 = abs_u128(y);
    let az: u128 = abs_u128(z);
    proof {
        lemma_square_absi(w as int);
        lemma_square_absi(x as int);
        lemma_square_absi(y as int);
        lemma_square_absi(z as int);
        assert(aw as int * aw as int <= 0x2000000000000000 * 0x2000000000000000
            && ax as int * ax as int <= 0x2000000000000000 * 0x2000000000000000
            && ay as int * ay as int <= 0x2000000000000000 * 0x2000000000000000
            && az as int * az as int <= 0x2000000000000000 * 0x2000000000000000)
            by (nonlinear_arith)
            requires
                aw <= 0x2000000000000000u128,
                ax <= 0x2000000000000000u128,
                ay <= 0x2000000000000000u128,
                az <= 0x2000000000000000u128,
        ;
    }
    let n: u128 = aw * aw + ax * ax + ay * ay + az * az;
    let r64: u64 = isqrt128(n);
    proof {
        lemma_sqrt_of(r64 as int, n as int);
    }
    r64 as i64
}

/// Integer square root of a `u128` below `2^126`.
pub fn isqrt128(n: u128) -> (r: u64)
    requires
        n < 85070591730234615865843651857942052864u128,
    ensures
        is_sqrt(r as int, n as int),
        r < 9223372036854775808u64,
{
    let mut lo: u64 = 0;
    let mut hi: u64 = 9223372036854775808u64;
    assert(9223372036854775808int * 9223372036854775808int
        == 85070591730234615865843651857942052864int);
    while lo + 1 < hi
        invariant
            lo < hi,
            hi <= 9223372036854775808u64,
            lo as int * lo as int <= n as int,
            (n as int) < hi as int * hi as int,
        decreases hi - lo,
    {
        let mid: u64 = lo + (hi - lo) / 2;
        proof {
            assert(mid as int * mid as int
                <= 9223372036854775808 * 9223372036854775808)
                by (nonlinear_arith)
                requires
                    mid <= 9223372036854775808u64,
            ;
        }
        let sq: u128 = (mid as u128) * (mid as u128);
        if sq <= n {
            lo = mid;
        } else {
            hi = mid;
        }
    }
    lo
}

} // verus!
