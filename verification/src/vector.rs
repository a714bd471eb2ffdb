//! The Euclidean 3-vector underlying every directed quantity in the
//! simulator.
//!
//! Each component counts millionths of the vector's SI unit. All
//! operators are pure: they return a fresh vector and leave their
//! operands untouched. The semantic wrapper types (position, velocity,
//! force, torque) each hold one of these and call these functions
//! explicitly, so no hidden coercion ever mixes two kinds of quantity.

use crate::fixed::{
    absi, is_sqrt, lemma_square_absi, lemma_tdiv_fits, mul_div, mul_fixed, mulf, norm2_3, norm2_4,
    sqrt_norm3, sqrt_of, tdiv, SCALE,
};
use crate::util::EleaError;
use vstd::prelude::*;

verus! {

/// Largest component magnitude accepted by `magnitude`: `2^62`, so that
/// the three squared components always fit the 128-bit accumulator.
pub const MAG_LIMIT: i64 = 0x4000000000000000;

/// Largest component magnitude accepted by `unit_vector`:
/// `i64::MAX / SCALE`, so that a component scaled by `SCALE` always fits.
pub const UNIT_LIMIT: i64 = 9_223_372_036_854;

/// Largest component magnitude accepted by `cross`: with both factors
/// under `2 * 10^12` the two fixed-point products of a cross-product
/// component, and their difference, fit an `i64`.
pub const CROSS_LIMIT: i64 = 2_000_000_000_000;

/// A vector in 3-dimensional Euclidean space, in fixed-point
/// components.
#[derive(Clone, Copy, Debug, PartialEq, Eq, Structural)]
pub struct Vector3 {
    pub x: i64,
    pub y: i64,
    pub z: i64,
}

/// A squared norm vanishes exactly on the zero vector.
pub proof fn lemma_norm2_3_zero(x: int, y: int, z: int)
    ensures
        norm2_3(x, y, z) == 0 <==> (x == 0 && y == 0 && z == 0),
{
    lemma_square_absi(x);
    lemma_square_absi(y);
    lemma_square_absi(z);
    assert(x != 0 ==> x * x > 0) by (nonlinear_arith);
    assert(y != 0 ==> y * y > 0) by (nonlinear_arith);
    assert(z != 0 ==> z * z > 0) by (nonlinear_arith);
}

impl Vector3 {
    /// Every component's magnitude is at most `c`.
    pub open spec fn in_bounds(self, c: int) -> bool {
        absi(self.x as int) <= c && absi(self.y as int) <= c && absi(self.z as int) <= c
    }

    /// The squared Euclidean norm, as a spec-level integer.
    pub open spec fn norm2(self) -> int {
        norm2_3(self.x as int, self.y as int, self.z as int)
    }

    pub fn new(x: i64, y: i64, z: i64) -> (r: Self)
        ensures
            r.x == x && r.y == y && r.z == z,
    {
        Self { x, y, z }
    }

    /// Componentwise sum.
    pub fn add(&self, rhs: &Vector3) -> (r: Vector3)
        requires
            i64::MIN <= self.x + rhs.x <= i64::MAX,
            i64::MIN <= self.y + rhs.y <= i64::MAX,
            i64::MIN <= self.z + rhs.z <= i64::MAX,
        ensures
            r.x == self.x + rhs.x,
            r.y == self.y + rhs.y,
            r.z == self.z + rhs.z,
    {
        Vector3 { x: self.x + rhs.x, y: self.y + rhs.y, z: self.z + rhs.z }
    }

    /// Componentwise difference.
    pub fn sub(&self, rhs: &Vector3) -> (r: Vector3)
        requires
            i64::MIN <= self.x - rhs.x <= i64::MAX,
            i64::MIN <= self.y - rhs.y <= i64::MAX,
            i64::MIN <= self.z - rhs.z <= i64::MAX,
        ensures
            r.x == self.x - rhs.x,
            r.y == self.y - rhs.y,
            r.z == self.z - rhs.z,
    {
        Vector3 { x: self.x - rhs.x, y: self.y - rhs.y, z: self.z - rhs.z }
    }

    /// Componentwise negation.
    pub fn neg(&self) -> (r: Vector3)
        requires
            self.x > i64::MIN,
            self.y > i64::MIN,
            self.z > i64::MIN,
        ensures
            r.x == -self.x,
            r.y == -self.y,
            r.z == -self.z,
    {
        Vector3 { x: -self.x, y: -self.y, z: -self.z }
    }

    /// Componentwise fixed-point product.
    pub fn mul(&self, rhs: &Vector3) -> (r: Vector3)
        requires
            absi(self.x as int) * absi(rhs.x as int) <= SCALE as int * i64::MAX as int,
            absi(self.y as int) * absi(rhs.y as int) <= SCALE as int * i64::MAX as int,
            absi(self.z as int) * absi(rhs.z as int) <= SCALE as int * i64::MAX as int,
        ensures
            r.x as int == mulf(self.x as int, rhs.x as int),
            r.y as int == mulf(self.y as int, rhs.y as int),
            r.z as int == mulf(self.z as int, rhs.z as int),
    {
        Vector3 {
            x: mul_fixed(self.x, rhs.x),
            y: mul_fixed(self.y, rhs.y),
            z: mul_fixed(self.z, rhs.z),
        }
    }

    /// Componentwise fixed-point quotient.
    pub fn div(&self, rhs: &Vector3) -> (r: Vector3)
        requires
            rhs.x != 0 && rhs.y != 0 && rhs.z != 0,
            absi(tdiv(self.x as int * SCALE as int, rhs.x as int)) <= i64::MAX as int,
            absi(tdiv(self.y as int * SCALE as int, rhs.y as int)) <= i64::MAX as int,
            absi(tdiv(self.z as int * SCALE as int, rhs.z as int)) <= i64::MAX as int,
        ensures
            r.x as int == tdiv(self.x as int * SCALE as int, rhs.x as int),
            r.y as int == tdiv(self.y as int * SCALE as int, rhs.y as int),
            r.z as int == tdiv(self.z as int * SCALE as int, rhs.z as int),
    {
        Vector3 {
            x: mul_div(self.x, SCALE, rhs.x),
            y: mul_div(self.y, SCALE, rhs.y),
            z: mul_div(self.z, SCALE, rhs.z),
        }
    }

    /// Scale every component by the fixed-point factor `scalar`.
    pub fn scalar_mul(&self, scalar: i64) -> (r: Vector3)
        requires
            absi(self.x as int) * absi(scalar as int) <= SCALE as int * i64::MAX as int,
            absi(self.y as int) * absi(scalar as int) <= SCALE as int * i64::MAX as int,
            absi(self.z as int) * absi(scalar as int) <= SCALE as int * i64::MAX as int,
        ensures
            r.x as int == mulf(self.x as int, scalar as int),
            r.y as int == mulf(self.y as int, scalar as int),
            r.z as int == mulf(self.z as int, scalar as int),
    {
        Vector3 {
            x: mul_fixed(self.x, scalar),
            y: mul_fixed(self.y, scalar),
            z: mul_fixed(self.z, scalar),
        }
    }

    /// Divide every component by the fixed-point factor `scalar`.
    pub fn scalar_div(&self, scalar: i64) -> (r: Vector3)
        requires
            scalar != 0,
            absi(tdiv(self.x as int * SCALE as int, scalar as int)) <= i64::MAX as int,
            absi(tdiv(self.y as int * SCALE as int, scalar as int)) <= i64::MAX as int,
            absi(tdiv(self.z as int * SCALE as int, scalar as int)) <= i64::MAX as int,
        ensures
            r.x as int == tdiv(self.x as int * SCALE as int, scalar as int),
            r.y as int == tdiv(self.y as int * SCALE as int, scalar as int),
            r.z as int == tdiv(self.z as int * SCALE as int, scalar as int),
    {
        Vector3 {
            x: mul_div(self.x, SCALE, scalar),
            y: mul_div(self.y, SCALE, scalar),
            z: mul_div(self.z, SCALE, scalar),
        }
    }

    /// The Euclidean norm `sqrt(x^2 + y^2 + z^2)`, rounded down to a
    /// whole fixed-point step. Always nonnegative.
    pub fn magnitude(&self) -> (r: i64)
        requires
            self.in_bounds(MAG_LIMIT as int),
        ensures
            r >= 0,
            is_sqrt(r as int, self.norm2()),
            r as int == sqrt_of(self.norm2()),
    {
        sqrt_norm3(self.x, self.y, self.z)
    }

    /// The vector scaled to unit magnitude: each component divided by
    /// the norm. The zero vector has no direction, so it is rejected
    /// with `InvalidData` instead of producing garbage.
    pub fn unit_vector(&self) -> (r: Result<Vector3, EleaError>)
        requires
            self.in_bounds(UNIT_LIMIT as int),
        ensures
            r is Err <==> (self.x == 0 && self.y == 0 && self.z == 0),
            r matches Err(e) ==> e matches EleaError::InvalidData(_),
            r matches Ok(u) ==> {
                let m = sqrt_of(self.norm2());
                u.x as int == tdiv(self.x as int * SCALE as int, m) && u.y as int == tdiv(
                    self.y as int * SCALE as int,
                    m,
                ) && u.z as int == tdiv(self.z as int * SCALE as int, m)
            },
    {
        let m: i64 = sqrt_norm3(self.x, self.y, self.z);
        proof {
            lemma_norm2_3_zero(self.x as int, self.y as int, self.z as int);
            assert(m >= 1 ==> m as int * m as int >= 1) by (nonlinear_arith);
        }
        if m == 0 {
            proof {
                assert(m == 0 ==> (m as int + 1) * (m as int + 1) == 1) by (nonlinear_arith);
                assert(self.norm2() == 0);
            }
            Err(EleaError::InvalidData("cannot normalize a zero-magnitude vector".to_owned()))
        } else {
            proof {
                lemma_tdiv_fits(self.x as int, SCALE as int, m as int, UNIT_LIMIT as int,
                    SCALE as int);
                lemma_tdiv_fits(self.y as int, SCALE as int, m as int, UNIT_LIMIT as int,
                    SCALE as int);
                lemma_tdiv_fits(self.z as int, SCALE as int, m as int, UNIT_LIMIT as int,
                    SCALE as int);
            }
            Ok(Vector3 {
                x: mul_div(self.x, SCALE, m),
                y: mul_div(self.y, SCALE, m),
                z: mul_div(self.z, SCALE, m),
            })
        }
    }

    /// The cross product, the torque-producing combination of an offset
    /// and a force.
    pub fn cross(&self, rhs: &Vector3) -> (r: Vector3)
        requires
            self.in_bounds(CROSS_LIMIT as int),
            rhs.in_bounds(CROSS_LIMIT as int),
        ensures
            r.x as int == mulf(self.y as int, rhs.z as int) - mulf(self.z as int, rhs.y as int),
            r.y as int == mulf(self.z as int, rhs.x as int) - mulf(self.x as int, rhs.z as int),
            r.z as int == mulf(self.x as int, rhs.y as int) - mulf(self.y as int, rhs.x as int),
    {
        proof {
            lemma_tdiv_fits(self.y as int, rhs.z as int, SCALE as int, CROSS_LIMIT as int,
                CROSS_LIMIT as int);
            lemma_tdiv_fits(self.z as int, rhs.y as int, SCALE as int, CROSS_LIMIT as int,
                CROSS_LIMIT as int);
            lemma_tdiv_fits(self.z as int, rhs.x as int, SCALE as int, CROSS_LIMIT as int,
                CROSS_LIMIT as int);
            lemma_tdiv_fits(self.x as int, rhs.z as int, SCALE as int, CROSS_LIMIT as int,
                CROSS_LIMIT as int);
            lemma_tdiv_fits(self.x as int, rhs.y as int, SCALE as int, CROSS_LIMIT as int,
                CROSS_LIMIT as int);
            lemma_tdiv_fits(self.y as int, rhs.x as int, SCALE as int, CROSS_LIMIT as int,
                CROSS_LIMIT as int);
        }
        let xx: i64 = mul_fixed(self.y, rhs.z) - mul_fixed(self.z, rhs.y);
        let yy: i64 = mul_fixed(self.z, rhs.x) - mul_fixed(self.x, rhs.z);
        let zz: i64 = mul_fixed(self.x, rhs.y) - mul_fixed(self.y, rhs.x);
        Vector3 { x: xx, y: yy, z: zz }
    }
}

/// Normalizing preserves magnitude one, up to rounding: for any vector
/// whose norm is at least half a unit, the norm of `unit_vector`'s
/// result lies within three fixed-point steps (three millionths) of
/// one. Vectors shorter than half a unit lose too much to rounding and
/// are outside this law.
pub proof fn lemma_unit_vector_magnitude(v: Vector3, u: Vector3)
    requires
        500_000 <= sqrt_of(v.norm2()),
        u.x as int == tdiv(v.x as int * SCALE as int, sqrt_of(v.norm2())),
        u.y as int == tdiv(v.y as int * SCALE as int, sqrt_of(v.norm2())),
        u.z as int == tdiv(v.z as int * SCALE as int, sqrt_of(v.norm2())),
    ensures
        SCALE as int - 3 <= sqrt_of(u.norm2()) <= SCALE as int + 1,
{
    lemma_square_absi(v.x as int);
    lemma_square_absi(v.y as int);
    lemma_square_absi(v.z as int);
    crate::fixed::lemma_sqrt_exists(v.norm2());
    let m = sqrt_of(v.norm2());
    assert(norm2_4(v.x as int, v.y as int, v.z as int, 0) == v.norm2());
    assert(tdiv(0 * SCALE as int, m) == 0) by {
        vstd::arithmetic::div_mod::lemma_div_of0(m);
    }
    crate::fixed::lemma_scaled_norm_bounds(
        v.x as int,
        v.y as int,
        v.z as int,
        0,
        m,
        u.x as int,
        u.y as int,
        u.z as int,
        0,
    );
    assert(norm2_4(u.x as int, u.y as int, u.z as int, 0) == u.norm2());
}

impl core::default::Default for Vector3 {
    /// The zero vector.
    fn default() -> (r: Self)
        ensures
            r.x == 0 && r.y == 0 && r.z == 0,
    {
        Vector3 { x: 0, y: 0, z: 0 }
    }
}

} // verus!
