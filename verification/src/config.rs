//! The environment and pacing constants of one simulation instance.
//!
//! Rather than module-level globals, every constant the force model and
//! the clock read is a field of an immutable configuration value that
//! is threaded into them, so independently configured simulations can
//! run side by side and remain deterministic.

use crate::fixed::SCALE;
use vstd::prelude::*;

verus! {

/// Immutable per-simulation constants, all in fixed point.
#[derive(Clone, Copy, Debug, PartialEq, Eq, Structural)]
pub struct SimConfig {
    /// Gravitational acceleration, metres per second squared.
    pub gravity: i64,
    /// Density of the surrounding air, kilograms per cubic metre.
    pub air_density: i64,
    /// Dimensionless drag coefficient of the airframe.
    pub drag_coeff: i64,
    /// Thrust one propeller produces per squared revolution-per-minute,
    /// newtons.
    pub thrust_coeff: i64,
    /// Reaction torque one propeller exerts about the vertical axis per
    /// squared revolution-per-minute, newton-metres.
    pub yaw_coeff: i64,
    /// Simulated seconds advanced by one tick.
    pub delta_time: i64,
}

impl SimConfig {
    /// The ranges within which every force and torque computation is
    /// proved free of overflow.
    pub open spec fn wf(self) -> bool {
        &&& 0 < self.gravity <= 100 * SCALE as int
        &&& 0 <= self.air_density <= 100 * SCALE as int
        &&& 0 <= self.drag_coeff <= 100 * SCALE as int
        &&& 0 <= self.thrust_coeff <= SCALE as int
        &&& 0 <= self.yaw_coeff <= SCALE as int
        &&& 1 <= self.delta_time <= SCALE as int
    }
}

impl core::default::Default for SimConfig {
    /// Earth gravity, doubled sea-level air density, a half drag
    /// coefficient, small propeller coefficients, and a 16 ms tick
    /// (about sixty steps per simulated second).
    fn default() -> (r: Self)
        ensures
            r.gravity == 9_810_000,
            r.air_density == 2_000_000,
            r.drag_coeff == 500_000,
            r.thrust_coeff == 10,
            r.yaw_coeff == 1,
            r.delta_time == 16_000,
            r.wf(),
    {
        SimConfig {
            gravity: 9_810_000,
            air_density: 2_000_000,
            drag_coeff: 500_000,
            thrust_coeff: 10,
            yaw_coeff: 1,
            delta_time: 16_000,
        }
    }
}

} // verus!
