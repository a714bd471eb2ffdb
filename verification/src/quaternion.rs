//! Unit-quaternion representation of a rotation in 3-dimensional space.
//!
//! A quaternion here always stands for a rotation about an axis through
//! the origin: the scalar part is the cosine of half the rotation
//! angle, and the axis part is the rotation axis scaled by the sine of
//! half the angle. Composing and integrating rotations this way never
//! meets the gimbal-lock singularities of Euler angles, at any
//! attitude. Numerical integration drifts a quaternion off the unit
//! sphere, so `renormalize` rescales it; `lemma_renormalize_bounds`
//! proves that the rescaled magnitude always lands within three
//! fixed-point steps of one.

use crate::fixed::{
    absi, is_sqrt, lemma_abs_le_of_sq, lemma_div_bound, lemma_sqrt_of, lemma_square_absi,
    lemma_tdiv_fits, mul_div, mul_fixed, mulf, norm2_3, norm2_4, sqrt_norm3, sqrt_norm4, sqrt_of,
    tdiv, SCALE,
};
use crate::trig::{
    cos_fixed, cos_poly, half_rad_of_deg, reduce_degrees, sin_fixed, sin_poly, COS_OUT_LIMIT,
    HALF_TURN, PI_FIXED, SIN_OUT_LIMIT, TRIG_IN_LIMIT,
};
use vstd::arithmetic::div_mod::lemma_div_multiples_vanish;
use vstd::arithmetic::mul::lemma_mul_is_commutative;
use vstd::prelude::*;

verus! {

/// Largest axis component magnitude accepted by `Quaternion::new`. The
/// axis is meant to be a unit vector, so this leaves room to spare.
pub const AXIS_LIMIT: i64 = 1_000_000_000_000;

/// Largest component magnitude accepted by the Hamilton product: four
/// fixed-point products of values under `10^12` sum well inside an
/// `i64`.
pub const QMUL_LIMIT: i64 = 1_000_000_000_000;

/// Largest component magnitude accepted where a squared norm must fit
/// the 128-bit accumulator: `2^61`.
pub const QNORM_LIMIT: i64 = 0x2000000000000000;

/// How far the magnitude of a well-formed orientation quaternion may
/// sit from one, in fixed-point steps.
pub const UNIT_TOL: i64 = 3;

/// The scalar (real) part of a quaternion: the cosine of half the
/// rotation angle, in fixed point.
#[derive(Clone, Copy, Debug, PartialEq, Eq, Structural)]
pub struct Angle(pub i64);

/// The axis part of a quaternion: the rotation axis scaled by the sine
/// of half the rotation angle.
#[derive(Clone, Copy, Debug, PartialEq, Eq, Structural)]
pub struct Axis3D {
    pub x: i64,
    pub y: i64,
    pub z: i64,
}

impl Axis3D {
    pub fn new(x: i64, y: i64, z: i64) -> (r: Self)
        ensures
            r.x == x && r.y == y && r.z == z,
    {
        Self { x, y, z }
    }

    /// The Euclidean norm of the axis triple, rounded down to a whole
    /// fixed-point step.
    pub fn magnitude(&self) -> (r: i64)
        requires
            absi(self.x as int) <= 0x4000000000000000,
            absi(self.y as int) <= 0x4000000000000000,
            absi(self.z as int) <= 0x4000000000000000,
        ensures
            r >= 0,
            is_sqrt(r as int, norm2_3(self.x as int, self.y as int, self.z as int)),
            r as int == sqrt_of(norm2_3(self.x as int, self.y as int, self.z as int)),
    {
        sqrt_norm3(self.x, self.y, self.z)
    }
}

/// A rotation, stored as scalar part plus scaled axis.
#[derive(Clone, Copy, Debug, PartialEq, Eq, Structural)]
pub struct Quaternion {
    /// The scalar part: the cosine of half the rotation angle.
    pub angle: Angle,
    /// The axis of rotation, scaled by the sine of half the angle.
    pub axis: Axis3D,
}

impl Quaternion {
    /// The scalar component, as a spec-level integer.
    pub open spec fn qw(self) -> int {
        self.angle.0 as int
    }

    pub open spec fn qx(self) -> int {
        self.axis.x as int
    }

    pub open spec fn qy(self) -> int {
        self.axis.y as int
    }

    pub open spec fn qz(self) -> int {
        self.axis.z as int
    }

    /// The squared norm over all four components.
    pub open spec fn norm2(self) -> int {
        norm2_4(self.qw(), self.qx(), self.qy(), self.qz())
    }

    /// Every component's magnitude is at most `c`.
    pub open spec fn in_bounds(self, c: int) -> bool {
        absi(self.qw()) <= c && absi(self.qx()) <= c && absi(self.qy()) <= c && absi(self.qz())
            <= c
    }

    /// A well-formed orientation: magnitude within `UNIT_TOL` steps of
    /// one, components no larger than that magnitude can allow.
    pub open spec fn wf(self) -> bool {
        &&& SCALE as int - UNIT_TOL as int <= sqrt_of(self.norm2()) <= SCALE as int
            + UNIT_TOL as int
        &&& self.in_bounds(SCALE as int + UNIT_TOL as int)
    }

    /// Build the rotation of `degree_angle` millionths of a degree
    /// about `(x, y, z)`, which callers supply as a unit axis in fixed
    /// point. The angle is reduced modulo a full turn, halved,
    /// converted to radians, and passed through the fixed-point
    /// half-angle construction: scalar part `cos`, axis scaled by
    /// `sin`.
    pub fn new(degree_angle: i64, x: i64, y: i64, z: i64) -> (r: Self)
        requires
            absi(x as int) <= AXIS_LIMIT as int,
            absi(y as int) <= AXIS_LIMIT as int,
            absi(z as int) <= AXIS_LIMIT as int,
        ensures
            ({
                let h = half_rad_of_deg(degree_angle as int);
                r.qw() == cos_poly(h) && r.qx() == mulf(x as int, sin_poly(h)) && r.qy() == mulf(
                    y as int,
                    sin_poly(h),
                ) && r.qz() == mulf(z as int, sin_poly(h))
            }),
    {
        let red: i64 = reduce_degrees(degree_angle);
        proof {
            lemma_tdiv_fits(red as int, 1, 2, HALF_TURN as int, 1);
        }
        let half_deg: i64 = mul_div(red, 1, 2);
        proof {
            lemma_tdiv_fits(half_deg as int, PI_FIXED as int, HALF_TURN as int, 90_000_000,
                PI_FIXED as int);
        }
        let half_rad: i64 = mul_div(half_deg, PI_FIXED, HALF_TURN);
        let s: i64 = sin_fixed(half_rad);
        let c: i64 = cos_fixed(half_rad);
        proof {
            lemma_tdiv_fits(x as int, s as int, SCALE as int, AXIS_LIMIT as int,
                SIN_OUT_LIMIT as int);
            lemma_tdiv_fits(y as int, s as int, SCALE as int, AXIS_LIMIT as int,
                SIN_OUT_LIMIT as int);
            lemma_tdiv_fits(z as int, s as int, SCALE as int, AXIS_LIMIT as int,
                SIN_OUT_LIMIT as int);
        }
        Quaternion {
            angle: Angle(c),
            axis: Axis3D { x: mul_fixed(x, s), y: mul_fixed(y, s), z: mul_fixed(z, s) },
        }
    }

    /// The norm over all four components, rounded down to a whole
    /// fixed-point step.
    pub fn magnitude(&self) -> (r: i64)
        requires
            self.in_bounds(QNORM_LIMIT as int),
        ensures
            r >= 0,
            is_sqrt(r as int, self.norm2()),
            r as int == sqrt_of(self.norm2()),
    {
        sqrt_norm4(self.angle.0, self.axis.x, self.axis.y, self.axis.z)
    }

    /// Rescale the quaternion to unit magnitude: every component is
    /// divided by the current norm. Defined whenever the norm is at
    /// least one fixed-point step.
    pub fn renormalize(&self) -> (r: Quaternion)
        requires
            self.norm2() >= 1,
            self.in_bounds(QNORM_LIMIT as int),
        ensures
            ({
                let m = sqrt_of(self.norm2());
                r.qw() == tdiv(self.qw() * SCALE as int, m) && r.qx() == tdiv(
                    self.qx() * SCALE as int,
                    m,
                ) && r.qy() == tdiv(self.qy() * SCALE as int, m) && r.qz() == tdiv(
                    self.qz() * SCALE as int,
                    m,
                )
            }),
            r.in_bounds(SCALE as int),
            500_000 <= sqrt_of(self.norm2()) ==> SCALE as int - 3 <= sqrt_of(r.norm2())
                <= SCALE as int + 1 && r.wf(),
    {
        let m: i64 = sqrt_norm4(self.angle.0, self.axis.x, self.axis.y, self.axis.z);
        proof {
            assert(m == 0 ==> (m as int + 1) * (m as int + 1) == 1) by (nonlinear_arith);
            lemma_square_absi(self.qw());
            lemma_square_absi(self.qx());
            lemma_square_absi(self.qy());
            lemma_square_absi(self.qz());
            lemma_abs_le_of_sq(self.qw(), m as int);
            lemma_abs_le_of_sq(self.qx(), m as int);
            lemma_abs_le_of_sq(self.qy(), m as int);
            lemma_abs_le_of_sq(self.qz(), m as int);
            lemma_renorm_comp_fits(self.qw(), m as int);
            lemma_renorm_comp_fits(self.qx(), m as int);
            lemma_renorm_comp_fits(self.qy(), m as int);
            lemma_renorm_comp_fits(self.qz(), m as int);
        }
        let res = Quaternion {
            angle: Angle(mul_div(self.angle.0, SCALE, m)),
            axis: Axis3D {
                x: mul_div(self.axis.x, SCALE, m),
                y: mul_div(self.axis.y, SCALE, m),
                z: mul_div(self.axis.z, SCALE, m),
            },
        };
        proof {
            if m >= 500_000 {
                crate::fixed::lemma_scaled_norm_bounds(
                    self.qw(),
                    self.qx(),
                    self.qy(),
                    self.qz(),
                    m as int,
                    res.qw(),
                    res.qx(),
                    res.qy(),
                    res.qz(),
                );
            }
        }
        res
    }

    /// The Hamilton product `self * rhs`: the rotation `rhs` followed
    /// by the rotation `self`, each fixed-point product truncated
    /// toward zero.
    pub fn mul(&self, rhs: &Quaternion) -> (r: Quaternion)
        requires
            self.in_bounds(QMUL_LIMIT as int),
            rhs.in_bounds(QMUL_LIMIT as int),
        ensures
            r.qw() == mulf(self.qw(), rhs.qw()) - mulf(self.qx(), rhs.qx()) - mulf(
                self.qy(),
                rhs.qy(),
            ) - mulf(self.qz(), rhs.qz()),
            r.qx() == mulf(self.qw(), rhs.qx()) + mulf(self.qx(), rhs.qw()) + mulf(
                self.qy(),
                rhs.qz(),
            ) - mulf(self.qz(), rhs.qy()),
            r.qy() == mulf(self.qw(), rhs.qy()) - mulf(self.qx(), rhs.qz()) + mulf(
                self.qy(),
                rhs.qw(),
            ) + mulf(self.qz(), rhs.qx()),
            r.qz() == mulf(self.qw(), rhs.qz()) + mulf(self.qx(), rhs.qy()) - mulf(
                self.qy(),
                rhs.qx(),
            ) + mulf(self.qz(), rhs.qw()),
            r.in_bounds(4_000_000_000_000_000_000),
    {
        let w: i64 = qm(self.angle.0, rhs.angle.0) - qm(self.axis.x, rhs.axis.x) - qm(
            self.axis.y,
            rhs.axis.y,
        ) - qm(self.axis.z, rhs.axis.z);
        let x: i64 = qm(self.angle.0, rhs.axis.x) + qm(self.axis.x, rhs.angle.0) + qm(
            self.axis.y,
            rhs.axis.z,
        ) - qm(self.axis.z, rhs.axis.y);
        let y: i64 = qm(self.angle.0, rhs.axis.y) - qm(self.axis.x, rhs.axis.z) + qm(
            self.axis.y,
            rhs.angle.0,
        ) + qm(self.axis.z, rhs.axis.x);
        let z: i64 = qm(self.angle.0, rhs.axis.z) + qm(self.axis.x, rhs.axis.y) - qm(
            self.axis.y,
            rhs.axis.x,
        ) + qm(self.axis.z, rhs.angle.0);
        Quaternion { angle: Angle(w), axis: Axis3D { x, y, z } }
    }
}

/// One fixed-point product inside the Hamilton product, with its
/// magnitude bound.
fn qm(a: i64, b: i64) -> (r: i64)
    requires
        absi(a as int) <= QMUL_LIMIT as int,
        absi(b as int) <= QMUL_LIMIT as int,
    ensures
        r as int == mulf(a as int, b as int),
        absi(r as int) <= 1_000_000_000_000_000_000,
{
    proof {
        lemma_tdiv_fits(a as int, b as int, SCALE as int, QMUL_LIMIT as int, QMUL_LIMIT as int);
    }
    mul_fixed(a, b)
}

/// A component divided by a norm that dominates it stays within one
/// unit of scale.
proof fn lemma_renorm_comp_fits(c: int, m: int)
    requires
        1 <= m,
        absi(c) <= m,
    ensures
        absi(tdiv(c * SCALE as int, m)) <= SCALE as int,
{
    lemma_tdiv_fits(c, SCALE as int, m, m, SCALE as int);
    lemma_mul_is_commutative(m, SCALE as int);
    lemma_div_multiples_vanish(SCALE as int, m);
}

impl core::default::Default for Quaternion {
    /// The identity rotation: scalar part one, zero axis.
    fn default() -> (r: Self)
        ensures
            r.qw() == SCALE as int,
            r.qx() == 0 && r.qy() == 0 && r.qz() == 0,
            r.wf(),
    {
        let q = Quaternion { angle: Angle(SCALE), axis: Axis3D { x: 0, y: 0, z: 0 } };
        proof {
            assert(is_sqrt(SCALE as int, q.norm2()));
            lemma_sqrt_of(SCALE as int, q.norm2());
        }
        q
    }
}

} // verus!
