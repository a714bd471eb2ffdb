//! The force model: weight, thrust and drag, composed by superposition.
//!
//! Net force is the componentwise vector sum of the independent
//! contributions, the tip-to-tail construction, never a sequential
//! application. Within fixed-point arithmetic that sum is exact, so
//! reordering the contributions cannot change the result. Conventions:
//! the vertical axis is `y`, positive upward, so weight points in `-y`
//! and propeller thrust in `+y`. Thrust grows with the square of a
//! propeller's revolutions, scaled by the externally supplied thrust
//! coefficient; drag opposes the current velocity with magnitude
//! `drag_coeff * air_density * speed^2`.

use crate::config::SimConfig;
use crate::drone::Propeller;
use crate::fixed::{
    absi, is_sqrt, lemma_sqrt_of, lemma_tdiv_fits, mul_fixed, mulf, norm2_3, sqrt_of, tdiv, SCALE,
};
use crate::state::LinearVelocity;
use crate::util::EleaError;
use crate::vector::Vector3;
use vstd::prelude::*;

verus! {

/// Largest revolutions-per-minute reading the force model accepts.
pub const RPM_LIMIT: usize = 100_000;

/// Largest body mass the force model accepts: a million kilograms.
pub const MASS_LIMIT: i64 = 1_000_000_000_000;

/// Largest velocity component magnitude the drag law accepts: a
/// thousand metres per second.
pub const VEL_LIMIT: i64 = 1_000_000_000;

/// A force on the body, in fixed-point newtons. Every force, including
/// the net force, is carried in this type.
#[derive(Clone, Copy, Debug, PartialEq, Eq, Structural)]
pub struct ForceVector(pub Vector3);

/// The thrust contribution of the propellers.
#[derive(Clone, Copy, Debug, PartialEq, Eq, Structural)]
pub struct Thrust(pub Vector3);

/// The gravitational contribution: mass times gravitational
/// acceleration, downward.
#[derive(Clone, Copy, Debug, PartialEq, Eq, Structural)]
pub struct Weight(pub Vector3);

/// The drag contribution, opposing the current velocity.
#[derive(Clone, Copy, Debug, PartialEq, Eq, Structural)]
pub struct Drag(pub Vector3);

impl ForceVector {
    pub fn new(x: i64, y: i64, z: i64) -> (r: Self)
        ensures
            r.0.x == x && r.0.y == y && r.0.z == z,
    {
        ForceVector(Vector3 { x, y, z })
    }
}

impl core::default::Default for ForceVector {
    fn default() -> (r: Self)
        ensures
            r.0.x == 0 && r.0.y == 0 && r.0.z == 0,
    {
        ForceVector(Vector3 { x: 0, y: 0, z: 0 })
    }
}

impl core::default::Default for Thrust {
    fn default() -> (r: Self)
        ensures
            r.0.x == 0 && r.0.y == 0 && r.0.z == 0,
    {
        Thrust(Vector3 { x: 0, y: 0, z: 0 })
    }
}

impl core::default::Default for Weight {
    fn default() -> (r: Self)
        ensures
            r.0.x == 0 && r.0.y == 0 && r.0.z == 0,
    {
        Weight(Vector3 { x: 0, y: 0, z: 0 })
    }
}

impl core::default::Default for Drag {
    fn default() -> (r: Self)
        ensures
            r.0.x == 0 && r.0.y == 0 && r.0.z == 0,
    {
        Drag(Vector3 { x: 0, y: 0, z: 0 })
    }
}

/// The thrust one propeller produces: the thrust coefficient times the
/// square of its revolutions per minute. Exact, with no rounding.
pub open spec fn prop_thrust(rpm: int, kt: int) -> int {
    kt * (rpm * rpm)
}

/// The summed vertical thrust of the four propellers.
pub open spec fn total_thrust(r0: int, r1: int, r2: int, r3: int, kt: int) -> int {
    prop_thrust(r0, kt) + prop_thrust(r1, kt) + prop_thrust(r2, kt) + prop_thrust(r3, kt)
}

/// The vertical weight component: mass times gravity, pointing down.
pub open spec fn weight_y(mass: int, gravity: int) -> int {
    -mulf(mass, gravity)
}

/// One component of the drag force: the velocity component scaled by
/// the speed, the air density and the drag coefficient, reversed.
pub open spec fn drag_comp(k2: int, speed: int, vc: int) -> int {
    -mulf(k2, mulf(speed, vc))
}

/// The per-tick force set: thrust, weight and drag, recomputed every
/// tick from the current propeller readings and environment constants,
/// never persisted across ticks.
#[derive(Clone, Copy, Debug, PartialEq, Eq, Structural)]
pub struct Forces {
    pub thrust: ForceVector,
    pub weight: ForceVector,
    pub drag: ForceVector,
}

impl Forces {
    /// Every stored force component is small enough that the three
    /// contributions can be summed without overflow.
    pub open spec fn in_bounds(self) -> bool {
        self.thrust.0.in_bounds(2_000_000_000_000_000_000)
            && self.weight.0.in_bounds(2_000_000_000_000_000_000) && self.drag.0.in_bounds(
            2_000_000_000_000_000_000,
        )
    }

    /// Recompute the three force contributions for this tick from the
    /// body's mass and velocity, the four propeller readings, and the
    /// environment constants, then return their superposition.
    pub fn calculate_forces(
        &mut self,
        mass: i64,
        velocity: &LinearVelocity,
        propellers: &[Propeller; 4],
        cfg: &SimConfig,
    ) -> (r: Result<ForceVector, EleaError>)
        requires
            cfg.wf(),
            0 < mass <= MASS_LIMIT,
            velocity.0.in_bounds(VEL_LIMIT as int),
            propellers[0].rpm <= RPM_LIMIT,
            propellers[1].rpm <= RPM_LIMIT,
            propellers[2].rpm <= RPM_LIMIT,
            propellers[3].rpm <= RPM_LIMIT,
        ensures
            final (self).thrust.0.x == 0 && final (self).thrust.0.z == 0,
            final (self).thrust.0.y as int == total_thrust(
                propellers[0].rpm as int,
                propellers[1].rpm as int,
                propellers[2].rpm as int,
                propellers[3].rpm as int,
                cfg.thrust_coeff as int,
            ),
            final (self).weight.0.x == 0 && final (self).weight.0.z == 0,
            final (self).weight.0.y as int == weight_y(mass as int, cfg.gravity as int),
            ({
                let k2 = mulf(cfg.drag_coeff as int, cfg.air_density as int);
                let speed = sqrt_of(velocity.0.norm2());
                final (self).drag.0.x as int == drag_comp(k2, speed, velocity.0.x as int)
                    && final (self).drag.0.y as int == drag_comp(k2, speed, velocity.0.y as int)
                    && final (self).drag.0.z as int == drag_comp(k2, speed, velocity.0.z as int)
            }),
            final (self).in_bounds(),
            r is Ok,
            r matches Ok(f) ==> f.0.x == final (self).thrust.0.x + final (self).weight.0.x
                + final (self).drag.0.x && f.0.y == final (self).thrust.0.y
                + final (self).weight.0.y + final (self).drag.0.y && f.0.z
                == final (self).thrust.0.z + final (self).weight.0.z + final (self).drag.0.z,
    {
        // Thrust: each propeller pushes along the body's vertical axis.
        let lift: i64 = prop_force(propellers[0].rpm as i64, cfg.thrust_coeff) + prop_force(
            propellers[1].rpm as i64,
            cfg.thrust_coeff,
        ) + prop_force(propellers[2].rpm as i64, cfg.thrust_coeff) + prop_force(
            propellers[3].rpm as i64,
            cfg.thrust_coeff,
        );
        self.thrust = ForceVector(Vector3 { x: 0, y: lift, z: 0 });
        // Weight: purely vertical, at the center of mass.
        proof {
            lemma_tdiv_fits(mass as int, cfg.gravity as int, SCALE as int, MASS_LIMIT as int,
                100_000_000);
        }
        let w: i64 = mul_fixed(mass, cfg.gravity);
        self.weight = ForceVector(Vector3 { x: 0, y: -w, z: 0 });
        // Drag: opposes the velocity, quadratic in the speed.
        proof {
            lemma_tdiv_fits(cfg.drag_coeff as int, cfg.air_density as int, SCALE as int,
                100_000_000, 100_000_000);
        }
        let k2: i64 = mul_fixed(cfg.drag_coeff, cfg.air_density);
        let speed: i64 = velocity.0.magnitude();
        proof {
            lemma_speed_bound(velocity.0);
            lemma_tdiv_fits(speed as int, velocity.0.x as int, SCALE as int, 2_000_000_000,
                VEL_LIMIT as int);
            lemma_tdiv_fits(speed as int, velocity.0.y as int, SCALE as int, 2_000_000_000,
                VEL_LIMIT as int);
            lemma_tdiv_fits(speed as int, velocity.0.z as int, SCALE as int, 2_000_000_000,
                VEL_LIMIT as int);
        }
        let tx: i64 = mul_fixed(speed, velocity.0.x);
        let ty: i64 = mul_fixed(speed, velocity.0.y);
        let tz: i64 = mul_fixed(speed, velocity.0.z);
        proof {
            lemma_tdiv_fits(k2 as int, tx as int, SCALE as int, 10_000_000_000,
                2_000_000_000_000);
            lemma_tdiv_fits(k2 as int, ty as int, SCALE as int, 10_000_000_000,
                2_000_000_000_000);
            lemma_tdiv_fits(k2 as int, tz as int, SCALE as int, 10_000_000_000,
                2_000_000_000_000);
        }
        let dx: i64 = -mul_fixed(k2, tx);
        let dy: i64 = -mul_fixed(k2, ty);
        let dz: i64 = -mul_fixed(k2, tz);
        self.drag = ForceVector(Vector3 { x: dx, y: dy, z: dz });
        Ok(self.net_force())
    }

    /// The superposition of the stored contributions: thrust, weight
    /// and drag summed tip to tail, componentwise and exactly.
    pub fn net_force(&self) -> (r: ForceVector)
        requires
            self.in_bounds(),
        ensures
            r.0.x == self.thrust.0.x + self.weight.0.x + self.drag.0.x,
            r.0.y == self.thrust.0.y + self.weight.0.y + self.drag.0.y,
            r.0.z == self.thrust.0.z + self.weight.0.z + self.drag.0.z,
    {
        let a: Vector3 = self.thrust.0.add(&self.weight.0);
        let b: Vector3 = a.add(&self.drag.0);
        ForceVector(b)
    }
}

/// The force or reaction-torque magnitude one propeller contributes:
/// coefficient times squared revolutions per minute, exactly.
pub fn prop_force(rpm: i64, coeff: i64) -> (r: i64)
    requires
        0 <= rpm <= 100_000,
        0 <= coeff <= SCALE,
    ensures
        r as int == prop_thrust(rpm as int, coeff as int),
        0 <= r <= 10_000_000_000_000_000,
{
    proof {
        assert(coeff as int * (rpm as int * rpm as int) <= 10_000_000_000_000_000 && 0
            <= coeff as int * (rpm as int * rpm as int) && rpm as int * rpm as int
            <= 10_000_000_000) by (nonlinear_arith)
            requires
                0 <= coeff as int <= 1_000_000,
                0 <= rpm as int <= 100_000,
        ;
    }
    coeff * (rpm * rpm)
}

/// The speed of a bounded velocity is itself bounded.
proof fn lemma_speed_bound(v: Vector3)
    requires
        v.in_bounds(VEL_LIMIT as int),
    ensures
        0 <= sqrt_of(v.norm2()) <= 2_000_000_000,
{
    crate::fixed::lemma_square_absi(v.x as int);
    crate::fixed::lemma_square_absi(v.y as int);
    crate::fixed::lemma_square_absi(v.z as int);
    crate::fixed::lemma_sqrt_exists(v.norm2());
    let m = sqrt_of(v.norm2());
    assert(v.norm2() <= 3_000_000_000_000_000_000) by (nonlinear_arith)
        requires
            absi(v.x as int) <= 1_000_000_000,
            absi(v.y as int) <= 1_000_000_000,
            absi(v.z as int) <= 1_000_000_000,
            v.norm2() == v.x as int * v.x as int + v.y as int * v.y as int + v.z as int
                * v.z as int,
            v.x as int * v.x as int == absi(v.x as int) * absi(v.x as int),
            v.y as int * v.y as int == absi(v.y as int) * absi(v.y as int),
            v.z as int * v.z as int == absi(v.z as int) * absi(v.z as int),
    ;
    crate::fixed::lemma_abs_le_of_sq(m, 2_000_000_000);
}

impl core::default::Default for Forces {
    /// No forces at all: every contribution zero.
    fn default() -> (r: Self)
        ensures
            r.thrust.0.x == 0 && r.thrust.0.y == 0 && r.thrust.0.z == 0,
            r.weight.0.x == 0 && r.weight.0.y == 0 && r.weight.0.z == 0,
            r.drag.0.x == 0 && r.drag.0.y == 0 && r.drag.0.z == 0,
    {
        Forces {
            thrust: ForceVector(Vector3 { x: 0, y: 0, z: 0 }),
            weight: ForceVector(Vector3 { x: 0, y: 0, z: 0 }),
            drag: ForceVector(Vector3 { x: 0, y: 0, z: 0 }),
        }
    }
}

/// From rest, with all propellers stopped, the net force is exactly
/// the weight: mass times gravity, straight down, for every mass and
/// every configuration: the thrust and drag contributions vanish.
pub proof fn lemma_net_force_at_rest(mass: int, gravity: int, kt: int, k2: int)
    ensures
        total_thrust(0, 0, 0, 0, kt) == 0,
        drag_comp(k2, sqrt_of(norm2_3(0, 0, 0)), 0) == 0,
        total_thrust(0, 0, 0, 0, kt) + weight_y(mass, gravity) + drag_comp(
            k2,
            sqrt_of(norm2_3(0, 0, 0)),
            0,
        ) == -mulf(mass, gravity),
{
    assert(kt * (0 * 0) == 0) by (nonlinear_arith);
    lemma_zero_speed();
    let speed = sqrt_of(norm2_3(0, 0, 0));
    assert(mulf(speed, 0) == 0) by {
        assert(speed * 0 == 0) by (nonlinear_arith);
        assert(tdiv(0, SCALE as int) == 0);
    }
    assert(mulf(k2, mulf(speed, 0)) == 0) by {
        assert(k2 * 0 == 0) by (nonlinear_arith);
        assert(tdiv(0, SCALE as int) == 0);
    }
}

/// A body at rest has speed zero.
pub proof fn lemma_zero_speed()
    ensures
        sqrt_of(norm2_3(0, 0, 0)) == 0,
{
    assert(is_sqrt(0, 0));
    lemma_sqrt_of(0, 0);
}

} // verus!
