//! The kinematic state of a rigid body: semantic wrappers around the
//! shared vector type, and the quaternion orientation together with its
//! per-tick integration step.
//!
//! Each wrapper is a distinct type so that a position can never be
//! mistaken for a velocity; conversions are explicit field accesses,
//! never hidden coercions. Orientation integration follows the
//! quaternion derivative `0.5 * (0, w) * q`: the derivative is scaled
//! by the timestep, added, and the sum is renormalized, which keeps the
//! orientation's magnitude within a few millionths of one after every
//! step, however many steps are taken.

use crate::fixed::{
    absi, lemma_abs_mul, lemma_div_mul_le, lemma_sqrt_exists, lemma_square_absi, lemma_tdiv_absi,
    lemma_tdiv_fits, mul_div, mul_fixed, mulf, norm2_4, sqrt_of, tdiv, SCALE,
};
use vstd::arithmetic::div_mod::lemma_div_is_ordered;
use crate::quaternion::{Angle, Axis3D, Quaternion};
use crate::util::EleaError;
use crate::vector::{Vector3, UNIT_LIMIT};
use vstd::arithmetic::mul::lemma_mul_nonnegative;
use vstd::prelude::*;

verus! {

/// Cap on the product of an angular-velocity component and the
/// timestep: about a twenty-fourth of a radian of rotation per step and
/// axis, the region where one explicit integration step stays
/// accurate and provably keeps the orientation normalizable.
pub const ROT_STEP_CAP: i64 = 41_666_666_666;

/// Where an object sits in space: a displacement from the origin, in
/// fixed-point metres.
#[derive(Clone, Copy, Debug, PartialEq, Eq, Structural)]
pub struct Position(pub Vector3);

/// How fast an object translates, in fixed-point metres per second.
#[derive(Clone, Copy, Debug, PartialEq, Eq, Structural)]
pub struct LinearVelocity(pub Vector3);

/// How fast an object spins about each axis, in fixed-point radians
/// per second.
#[derive(Clone, Copy, Debug, PartialEq, Eq, Structural)]
pub struct AngularVelocity(pub Vector3);

/// The rate of change of linear velocity, in fixed-point metres per
/// second squared.
#[derive(Clone, Copy, Debug, PartialEq, Eq, Structural)]
pub struct Acceleration(pub Vector3);

impl Position {
    pub fn new(x: i64, y: i64, z: i64) -> (r: Self)
        ensures
            r.0.x == x && r.0.y == y && r.0.z == z,
    {
        Position(Vector3 { x, y, z })
    }

    /// The direction of this position vector, at unit magnitude.
    pub fn unit_vector(&self) -> (r: Result<Vector3, EleaError>)
        requires
            self.0.in_bounds(UNIT_LIMIT as int),
        ensures
            r is Err <==> (self.0.x == 0 && self.0.y == 0 && self.0.z == 0),
            r matches Err(e) ==> e matches EleaError::InvalidData(_),
            r matches Ok(u) ==> {
                let m = sqrt_of(self.0.norm2());
                u.x as int == tdiv(self.0.x as int * SCALE as int, m) && u.y as int == tdiv(
                    self.0.y as int * SCALE as int,
                    m,
                ) && u.z as int == tdiv(self.0.z as int * SCALE as int, m)
            },
    {
        self.0.unit_vector()
    }
}

impl LinearVelocity {
    pub fn new(x: i64, y: i64, z: i64) -> (r: Self)
        ensures
            r.0.x == x && r.0.y == y && r.0.z == z,
    {
        LinearVelocity(Vector3 { x, y, z })
    }

    /// The speed: the magnitude of the velocity vector.
    pub fn magnitude(&self) -> (r: i64)
        requires
            self.0.in_bounds(0x4000000000000000),
        ensures
            r >= 0,
            r as int == sqrt_of(self.0.norm2()),
    {
        self.0.magnitude()
    }

    /// The direction of motion, at unit magnitude.
    pub fn unit_vector(&self) -> (r: Result<Vector3, EleaError>)
        requires
            self.0.in_bounds(UNIT_LIMIT as int),
        ensures
            r is Err <==> (self.0.x == 0 && self.0.y == 0 && self.0.z == 0),
            r matches Err(e) ==> e matches EleaError::InvalidData(_),
            r matches Ok(u) ==> {
                let m = sqrt_of(self.0.norm2());
                u.x as int == tdiv(self.0.x as int * SCALE as int, m) && u.y as int == tdiv(
                    self.0.y as int * SCALE as int,
                    m,
                ) && u.z as int == tdiv(self.0.z as int * SCALE as int, m)
            },
    {
        self.0.unit_vector()
    }
}

impl AngularVelocity {
    pub fn new(x: i64, y: i64, z: i64) -> (r: Self)
        ensures
            r.0.x == x && r.0.y == y && r.0.z == z,
    {
        AngularVelocity(Vector3 { x, y, z })
    }
}

impl Acceleration {
    pub fn new(x: i64, y: i64, z: i64) -> (r: Self)
        ensures
            r.0.x == x && r.0.y == y && r.0.z == z,
    {
        Acceleration(Vector3 { x, y, z })
    }
}

impl core::default::Default for Position {
    /// At the origin.
    fn default() -> (r: Self)
        ensures
            r.0.x == 0 && r.0.y == 0 && r.0.z == 0,
    {
        Position(Vector3 { x: 0, y: 0, z: 0 })
    }
}

impl core::default::Default for LinearVelocity {
    /// At rest.
    fn default() -> (r: Self)
        ensures
            r.0.x == 0 && r.0.y == 0 && r.0.z == 0,
    {
        LinearVelocity(Vector3 { x: 0, y: 0, z: 0 })
    }
}

impl core::default::Default for AngularVelocity {
    /// Not spinning.
    fn default() -> (r: Self)
        ensures
            r.0.x == 0 && r.0.y == 0 && r.0.z == 0,
    {
        AngularVelocity(Vector3 { x: 0, y: 0, z: 0 })
    }
}

impl core::default::Default for Acceleration {
    /// Unaccelerated.
    fn default() -> (r: Self)
        ensures
            r.0.x == 0 && r.0.y == 0 && r.0.z == 0,
    {
        Acceleration(Vector3 { x: 0, y: 0, z: 0 })
    }
}

/// Scalar part of the quaternion derivative `(0, w) * q`.
pub open spec fn deriv_w(q: Quaternion, o: Vector3) -> int {
    -mulf(o.x as int, q.qx()) - mulf(o.y as int, q.qy()) - mulf(o.z as int, q.qz())
}

/// First axis part of the quaternion derivative `(0, w) * q`.
pub open spec fn deriv_x(q: Quaternion, o: Vector3) -> int {
    mulf(o.x as int, q.qw()) + mulf(o.y as int, q.qz()) - mulf(o.z as int, q.qy())
}

/// Second axis part of the quaternion derivative `(0, w) * q`.
pub open spec fn deriv_y(q: Quaternion, o: Vector3) -> int {
    mulf(o.y as int, q.qw()) + mulf(o.z as int, q.qx()) - mulf(o.x as int, q.qz())
}

/// Third axis part of the quaternion derivative `(0, w) * q`.
pub open spec fn deriv_z(q: Quaternion, o: Vector3) -> int {
    mulf(o.z as int, q.qw()) + mulf(o.x as int, q.qy()) - mulf(o.y as int, q.qx())
}

/// One orientation component after adding half the scaled derivative:
/// `qc + dc * dt / 2`, in fixed point.
pub open spec fn pre_comp(qc: int, dc: int, dt: int) -> int {
    qc + tdiv(dc * dt, 2 * SCALE as int)
}

pub open spec fn pre_w(q: Quaternion, o: Vector3, dt: int) -> int {
    pre_comp(q.qw(), deriv_w(q, o), dt)
}

pub open spec fn pre_x(q: Quaternion, o: Vector3, dt: int) -> int {
    pre_comp(q.qx(), deriv_x(q, o), dt)
}

pub open spec fn pre_y(q: Quaternion, o: Vector3, dt: int) -> int {
    pre_comp(q.qy(), deriv_y(q, o), dt)
}

pub open spec fn pre_z(q: Quaternion, o: Vector3, dt: int) -> int {
    pre_comp(q.qz(), deriv_z(q, o), dt)
}

/// Squared norm of the integrated, not yet renormalized, orientation.
pub open spec fn pre_norm2(q: Quaternion, o: Vector3, dt: int) -> int {
    norm2_4(pre_w(q, o, dt), pre_x(q, o, dt), pre_y(q, o, dt), pre_z(q, o, dt))
}

/// `r` is exactly the orientation obtained by one integration step of
/// `q` under angular velocity `o` over `dt`: half the scaled
/// derivative added, then every component rescaled by the norm.
pub open spec fn is_integrated(q: Quaternion, o: Vector3, dt: int, r: Quaternion) -> bool {
    let m = sqrt_of(pre_norm2(q, o, dt));
    &&& r.qw() == tdiv(pre_w(q, o, dt) * SCALE as int, m)
    &&& r.qx() == tdiv(pre_x(q, o, dt) * SCALE as int, m)
    &&& r.qy() == tdiv(pre_y(q, o, dt) * SCALE as int, m)
    &&& r.qz() == tdiv(pre_z(q, o, dt) * SCALE as int, m)
}

/// One derivative product, scaled by the timestep, stays small: the
/// per-step rotation cap bounds it by a twenty-fourth of scale.
proof fn lemma_prod_dt_bound(oc: int, qc: int, dt: int)
    requires
        absi(qc) <= 1_000_003,
        1 <= dt,
        absi(oc) * dt <= ROT_STEP_CAP as int,
    ensures
        absi(mulf(oc, qc)) * dt <= 41_666_791_665,
{
    let s = SCALE as int;
    lemma_abs_mul(oc, qc);
    lemma_tdiv_absi(oc * qc, s);
    let p = absi(oc) * absi(qc);
    lemma_mul_nonnegative(absi(oc), absi(qc));
    lemma_div_mul_le(p, dt, s);
    assert(p * dt <= (absi(oc) * dt) * 1_000_003) by (nonlinear_arith)
        requires
            p == absi(oc) * absi(qc),
            absi(qc) <= 1_000_003,
            0 <= absi(oc),
            0 <= dt,
    ;
    assert((absi(oc) * dt) * 1_000_003 <= 41_666_666_666 * 1_000_003) by (nonlinear_arith)
        requires
            absi(oc) * dt <= 41_666_666_666,
    ;
    lemma_div_is_ordered(p * dt, 41_666_666_666int * 1_000_003, s);
}

/// Under the per-step rotation cap, one integration step cannot pull a
/// well-formed orientation's norm below half of one: renormalization
/// is always possible afterwards.
proof fn lemma_pre_norm_large(q: Quaternion, o: Vector3, dt: int)
    requires
        q.wf(),
        1 <= dt <= SCALE as int,
        absi(o.x as int) * dt <= ROT_STEP_CAP as int,
        absi(o.y as int) * dt <= ROT_STEP_CAP as int,
        absi(o.z as int) * dt <= ROT_STEP_CAP as int,
    ensures
        pre_norm2(q, o, dt) >= 250_000_000_000,
        sqrt_of(pre_norm2(q, o, dt)) >= 500_000,
{
    let ox = o.x as int;
    let oy = o.y as int;
    let oz = o.z as int;
    lemma_prod_dt_bound(ox, q.qw(), dt);
    lemma_prod_dt_bound(ox, q.qx(), dt);
    lemma_prod_dt_bound(ox, q.qy(), dt);
    lemma_prod_dt_bound(ox, q.qz(), dt);
    lemma_prod_dt_bound(oy, q.qw(), dt);
    lemma_prod_dt_bound(oy, q.qx(), dt);
    lemma_prod_dt_bound(oy, q.qy(), dt);
    lemma_prod_dt_bound(oy, q.qz(), dt);
    lemma_prod_dt_bound(oz, q.qw(), dt);
    lemma_prod_dt_bound(oz, q.qx(), dt);
    lemma_prod_dt_bound(oz, q.qy(), dt);
    lemma_prod_dt_bound(oz, q.qz(), dt);
    lemma_comp_drop(q.qw(), deriv_w(q, o), dt, absi(mulf(ox, q.qx())), absi(mulf(oy, q.qy())),
        absi(mulf(oz, q.qz())));
    lemma_comp_drop(q.qx(), deriv_x(q, o), dt, absi(mulf(ox, q.qw())), absi(mulf(oy, q.qz())),
        absi(mulf(oz, q.qy())));
    lemma_comp_drop(q.qy(), deriv_y(q, o), dt, absi(mulf(oy, q.qw())), absi(mulf(oz, q.qx())),
        absi(mulf(ox, q.qz())));
    lemma_comp_drop(q.qz(), deriv_z(q, o), dt, absi(mulf(oz, q.qw())), absi(mulf(ox, q.qy())),
        absi(mulf(oy, q.qx())));
    lemma_square_absi(q.qw());
    lemma_square_absi(q.qx());
    lemma_square_absi(q.qy());
    lemma_square_absi(q.qz());
    lemma_sqrt_exists(q.norm2());
    let rq = sqrt_of(q.norm2());
    assert(999_997 * 999_997 <= rq * rq) by (nonlinear_arith)
        requires
            999_997 <= rq,
    ;
    assert(pre_norm2(q, o, dt) >= 499_992_500_009);
    lemma_sqrt_exists(pre_norm2(q, o, dt));
    let rp = sqrt_of(pre_norm2(q, o, dt));
    if rp < 500_000 {
        assert((rp + 1) * (rp + 1) <= 500_000 * 500_000) by (nonlinear_arith)
            requires
                0 <= rp + 1,
                rp + 1 <= 500_000,
        ;
        assert(false);
    }
}

/// The square of one integrated orientation component sits at most
/// `125_000_375_000` below the square of the component it started
/// from.
proof fn lemma_comp_drop(qc: int, dc: int, dt: int, a1: int, a2: int, a3: int)
    requires
        absi(qc) <= 1_000_003,
        1 <= dt,
        absi(dc) <= a1 + a2 + a3,
        a1 * dt <= 41_666_791_665,
        a2 * dt <= 41_666_791_665,
        a3 * dt <= 41_666_791_665,
        0 <= a1 && 0 <= a2 && 0 <= a3,
    ensures
        pre_comp(qc, dc, dt) * pre_comp(qc, dc, dt) >= qc * qc - 125_000_375_000,
{
    assert(absi(dc) * dt <= 125_000_374_995) by (nonlinear_arith)
        requires
            absi(dc) <= a1 + a2 + a3,
            a1 * dt <= 41_666_791_665,
            a2 * dt <= 41_666_791_665,
            a3 * dt <= 41_666_791_665,
            0 <= dt,
            0 <= absi(dc),
    ;
    lemma_abs_mul(dc, dt);
    lemma_tdiv_absi(dc * dt, 2 * SCALE as int);
    lemma_div_is_ordered(absi(dc * dt), 125_000_374_995, 2 * SCALE as int);
    let e = tdiv(dc * dt, 2 * SCALE as int);
    assert((qc + e) * (qc + e) >= qc * qc - 125_000_375_000) by (nonlinear_arith)
        requires
            -62_500 <= e <= 62_500,
            -1_000_003 <= qc <= 1_000_003,
    ;
}

/// The attitude of a body: the rotation carrying the reference frame
/// onto the body frame, held as a unit quaternion.
#[derive(Clone, Copy, Debug, PartialEq, Eq, Structural)]
pub struct Orientation(pub Quaternion);

impl Orientation {
    /// The axis part of the underlying quaternion.
    pub fn axis3d(&self) -> (r: &Axis3D)
        ensures
            *r == self.0.axis,
    {
        &self.0.axis
    }

    /// Wrap a bare axis triple as a quaternion with zero scalar part.
    pub fn from_axis3d(axis: Axis3D) -> (r: Self)
        ensures
            r.0.angle.0 == 0,
            r.0.axis == axis,
    {
        Orientation(Quaternion { angle: Angle(0), axis })
    }

    /// Advance the orientation by one timestep of `dt` fixed-point
    /// seconds under angular velocity `omega`: add half the scaled
    /// quaternion derivative `(0, omega) * q`, then renormalize. The
    /// result is well-formed again, so any number of consecutive steps
    /// keeps the orientation's magnitude within a few millionths of
    /// one.
    pub fn integrate(&self, omega: &AngularVelocity, dt: i64) -> (r: Orientation)
        requires
            self.0.wf(),
            1 <= dt <= SCALE,
            absi(omega.0.x as int) * dt <= ROT_STEP_CAP as int,
            absi(omega.0.y as int) * dt <= ROT_STEP_CAP as int,
            absi(omega.0.z as int) * dt <= ROT_STEP_CAP as int,
        ensures
            is_integrated(self.0, omega.0, dt as int, r.0),
            r.0.wf(),
    {
        let ghost q = self.0;
        let ghost o = omega.0;
        proof {
            assert(absi(o.x as int) * 1 <= absi(o.x as int) * dt) by (nonlinear_arith)
                requires
                    1 <= dt,
                    0 <= absi(o.x as int),
            ;
            assert(absi(o.y as int) * 1 <= absi(o.y as int) * dt) by (nonlinear_arith)
                requires
                    1 <= dt,
                    0 <= absi(o.y as int),
            ;
            assert(absi(o.z as int) * 1 <= absi(o.z as int) * dt) by (nonlinear_arith)
                requires
                    1 <= dt,
                    0 <= absi(o.z as int),
            ;
        }
        let dw: i64 = -dm(omega.0.x, self.0.axis.x) - dm(omega.0.y, self.0.axis.y) - dm(
            omega.0.z,
            self.0.axis.z,
        );
        let dx: i64 = dm(omega.0.x, self.0.angle.0) + dm(omega.0.y, self.0.axis.z) - dm(
            omega.0.z,
            self.0.axis.y,
        );
        let dy: i64 = dm(omega.0.y, self.0.angle.0) + dm(omega.0.z, self.0.axis.x) - dm(
            omega.0.x,
            self.0.axis.z,
        );
        let dz: i64 = dm(omega.0.z, self.0.angle.0) + dm(omega.0.x, self.0.axis.y) - dm(
            omega.0.y,
            self.0.axis.x,
        );
        proof {
            assert(dw as int == deriv_w(q, o));
            assert(dx as int == deriv_x(q, o));
            assert(dy as int == deriv_y(q, o));
            assert(dz as int == deriv_z(q, o));
            lemma_tdiv_fits(dw as int, dt as int, 2_000_000, 126_000_000_000, 1_000_000);
            lemma_tdiv_fits(dx as int, dt as int, 2_000_000, 126_000_000_000, 1_000_000);
            lemma_tdiv_fits(dy as int, dt as int, 2_000_000, 126_000_000_000, 1_000_000);
            lemma_tdiv_fits(dz as int, dt as int, 2_000_000, 126_000_000_000, 1_000_000);
        }
        let pw: i64 = self.0.angle.0 + mul_div(dw, dt, 2 * SCALE);
        let px: i64 = self.0.axis.x + mul_div(dx, dt, 2 * SCALE);
        let py: i64 = self.0.axis.y + mul_div(dy, dt, 2 * SCALE);
        let pz: i64 = self.0.axis.z + mul_div(dz, dt, 2 * SCALE);
        let qpre = Quaternion { angle: Angle(pw), axis: Axis3D { x: px, y: py, z: pz } };
        proof {
            assert(qpre.qw() == pre_w(q, o, dt as int));
            assert(qpre.qx() == pre_x(q, o, dt as int));
            assert(qpre.qy() == pre_y(q, o, dt as int));
            assert(qpre.qz() == pre_z(q, o, dt as int));
            assert(qpre.norm2() == pre_norm2(q, o, dt as int));
            lemma_pre_norm_large(q, o, dt as int);
        }
        Orientation(qpre.renormalize())
    }
}

/// One fixed-point product inside the quaternion derivative, with its
/// magnitude bound.
fn dm(oc: i64, qc: i64) -> (r: i64)
    requires
        absi(oc as int) <= ROT_STEP_CAP as int,
        absi(qc as int) <= 1_000_003,
    ensures
        r as int == mulf(oc as int, qc as int),
        absi(r as int) <= 41_666_791_665,
{
    proof {
        lemma_tdiv_fits(oc as int, qc as int, SCALE as int, ROT_STEP_CAP as int, 1_000_003);
    }
    mul_fixed(oc, qc)
}

impl core::default::Default for Orientation {
    /// The identity rotation: the body frame coincides with the
    /// reference frame.
    fn default() -> (r: Self)
        ensures
            r.0.qw() == SCALE as int,
            r.0.qx() == 0 && r.0.qy() == 0 && r.0.qz() == 0,
            r.0.wf(),
    {
        Orientation(Quaternion::default())
    }
}

} // verus!
