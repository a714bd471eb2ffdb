//! Fixed-point circular functions for quaternion construction.
//!
//! An angle arrives in millionths of a degree, is reduced to the
//! half-open turn `(-180, 180]` degrees, halved, and converted to
//! millionths of a radian; sine and cosine are then degree-seven and
//! degree-eight Taylor polynomials around zero, evaluated in fixed
//! point. Over the reduced range the polynomial truncation error stays
//! below two ten-thousandths, far inside the tolerance the simulator
//! needs, and every step of the evaluation (including each rounding) is
//! specified exactly by the mirror spec functions below.

use crate::fixed::{absi, lemma_tdiv_fits, mul_div, mul_fixed, mulf, tdiv, SCALE};
use vstd::arithmetic::div_mod::lemma_mod_bound;
use vstd::prelude::*;

verus! {

/// The circle constant, in millionths of a radian.
pub const PI_FIXED: i64 = 3_141_593;

/// Half a turn, in millionths of a degree.
pub const HALF_TURN: i64 = 180_000_000;

/// A full turn, in millionths of a degree.
pub const FULL_TURN: i64 = 360_000_000;

/// Largest argument magnitude the polynomials accept: a quarter turn
/// plus one step, in millionths of a radian.
pub const TRIG_IN_LIMIT: i64 = 1_570_797;

/// Magnitude bound on every value `sin_poly` can return.
pub const SIN_OUT_LIMIT: i64 = 2_302_000;

/// Magnitude bound on every value `cos_poly` can return.
pub const COS_OUT_LIMIT: i64 = 2_510_000;

/// The angle congruent to `d` modulo a full turn that lies in
/// `(-HALF_TURN, HALF_TURN]`, millionths of a degree.
pub open spec fn reduce_deg(d: int) -> int {
    let k = absi(d) % (FULL_TURN as int);
    if d >= 0 {
        if k > HALF_TURN as int {
            k - FULL_TURN as int
        } else {
            k
        }
    } else {
        let j = if k == 0 {
            0int
        } else {
            FULL_TURN as int - k
        };
        if j > HALF_TURN as int {
            j - FULL_TURN as int
        } else {
            j
        }
    }
}

/// Half the reduced angle, converted from millionths of a degree to
/// millionths of a radian.
pub open spec fn half_rad_of_deg(d: int) -> int {
    tdiv(tdiv(reduce_deg(d), 2) * PI_FIXED as int, HALF_TURN as int)
}

/// The fixed-point Taylor sine: `x - x^3/6 + x^5/120 - x^7/5040`, each
/// product and quotient truncated toward zero.
pub open spec fn sin_poly(x: int) -> int {
    let x2 = mulf(x, x);
    let x3 = mulf(x2, x);
    let x5 = mulf(x3, x2);
    let x7 = mulf(x5, x2);
    x - tdiv(x3, 6) + tdiv(x5, 120) - tdiv(x7, 5040)
}

/// The fixed-point Taylor cosine:
/// `1 - x^2/2 + x^4/24 - x^6/720 + x^8/40320`, each product and
/// quotient truncated toward zero.
pub open spec fn cos_poly(x: int) -> int {
    let x2 = mulf(x, x);
    let x4 = mulf(x2, x2);
    let x6 = mulf(x4, x2);
    let x8 = mulf(x4, x4);
    SCALE as int - tdiv(x2, 2) + tdiv(x4, 24) - tdiv(x6, 720) + tdiv(x8, 40320)
}

/// Reduce an angle in millionths of a degree to `(-HALF_TURN,
/// HALF_TURN]`, preserving it modulo a full turn.
pub fn reduce_degrees(d: i64) -> (r: i64)
    ensures
        r as int == reduce_deg(d as int),
        -(HALF_TURN as int) < r as int <= HALF_TURN as int,
{
    if d >= 0 {
        proof {
            lemma_mod_bound(d as int, FULL_TURN as int);
        }
        let k: i64 = ((d as u64) % 360_000_000u64) as i64;
        if k > HALF_TURN {
            k - FULL_TURN
        } else {
            k
        }
    } else {
        proof {
            lemma_mod_bound(-(d as int), FULL_TURN as int);
        }
        let k: i64 = (((-(d as i128)) as u128) % 360_000_000u128) as i64;
        let j: i64 = if k == 0 {
            0
        } else {
            FULL_TURN - k
        };
        if j > HALF_TURN {
            j - FULL_TURN
        } else {
            j
        }
    }
}

/// Fixed-point sine of `x` millionths of a radian.
pub fn sin_fixed(x: i64) -> (r: i64)
    requires
        absi(x as int) <= TRIG_IN_LIMIT as int,
    ensures
        r as int == sin_poly(x as int),
        absi(r as int) <= SIN_OUT_LIMIT as int,
{
    proof {
        lemma_tdiv_fits(x as int, x as int, SCALE as int, 1_570_797, 1_570_797);
    }
    let x2: i64 = mul_fixed(x, x);
    proof {
        lemma_tdiv_fits(x2 as int, x as int, SCALE as int, 2_467_403, 1_570_797);
    }
    let x3: i64 = mul_fixed(x2, x);
    proof {
        lemma_tdiv_fits(x3 as int, x2 as int, SCALE as int, 3_876_000, 2_467_403);
    }
    let x5: i64 = mul_fixed(x3, x2);
    proof {
        lemma_tdiv_fits(x5 as int, x2 as int, SCALE as int, 9_564_000, 2_467_403);
        lemma_tdiv_fits(x3 as int, 1, 6, 3_876_000, 1);
        lemma_tdiv_fits(x5 as int, 1, 120, 9_564_000, 1);
    }
    let x7: i64 = mul_fixed(x5, x2);
    proof {
        lemma_tdiv_fits(x7 as int, 1, 5040, 23_600_000, 1);
    }
    let t3: i64 = mul_div(x3, 1, 6);
    let t5: i64 = mul_div(x5, 1, 120);
    let t7: i64 = mul_div(x7, 1, 5040);
    x - t3 + t5 - t7
}

/// Fixed-point cosine of `x` millionths of a radian.
pub fn cos_fixed(x: i64) -> (r: i64)
    requires
        absi(x as int) <= TRIG_IN_LIMIT as int,
    ensures
        r as int == cos_poly(x as int),
        absi(r as int) <= COS_OUT_LIMIT as int,
{
    proof {
        lemma_tdiv_fits(x as int, x as int, SCALE as int, 1_570_797, 1_570_797);
    }
    let x2: i64 = mul_fixed(x, x);
    proof {
        lemma_tdiv_fits(x2 as int, x2 as int, SCALE as int, 2_467_403, 2_467_403);
    }
    let x4: i64 = mul_fixed(x2, x2);
    proof {
        lemma_tdiv_fits(x4 as int, x2 as int, SCALE as int, 6_089_000, 2_467_403);
        lemma_tdiv_fits(x4 as int, x4 as int, SCALE as int, 6_089_000, 6_089_000);
    }
    let x6: i64 = mul_fixed(x4, x2);
    let x8: i64 = mul_fixed(x4, x4);
    proof {
        lemma_tdiv_fits(x2 as int, 1, 2, 2_467_403, 1);
        lemma_tdiv_fits(x4 as int, 1, 24, 6_089_000, 1);
        lemma_tdiv_fits(x6 as int, 1, 720, 15_025_000, 1);
        lemma_tdiv_fits(x8 as int, 1, 40320, 37_076_000, 1);
    }
    let t2: i64 = mul_div(x2, 1, 2);
    let t4: i64 = mul_div(x4, 1, 24);
    let t6: i64 = mul_div(x6, 1, 720);
    let t8: i64 = mul_div(x8, 1, 40320);
    SCALE - t2 + t4 - t6 + t8
}

} // verus!
