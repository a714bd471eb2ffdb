//! Rigid-body flight dynamics for a quadrotor, advanced by a fixed-timestep
//! simulation loop.
//!
//! All physical quantities are carried as fixed-point integers: an `i64`
//! counts steps of one millionth of the quantity's SI unit (metres, metres
//! per second, newtons, radians, and so on). Every arithmetic operation is
//! specified exactly, including its rounding, so the whole physics core is
//! verified: vector algebra, quaternion orientation, force and torque
//! composition, the symplectic integrator, and the pacing rule of the
//! simulation clock. Only the wall clock itself (reading the time and
//! sleeping) lives outside the library, in the surrounding driver, which
//! measures each tick, calls [`DroneSimulator::advance`], and then sleeps
//! or reports as [`DroneSimulator::pace`] decides.

use vstd::prelude::*;

pub mod body;
pub mod clock;
pub mod config;
pub mod drone;
pub mod fixed;
pub mod force;
pub mod quaternion;
pub mod state;
pub mod torque;
pub mod trig;
pub mod util;
pub mod vector;

pub use util::EleaError;

use crate::body::{step_applied, step_checks, RigidBody, DIM_LIMIT, POS_LIMIT};
use crate::clock::{pace, TickPacing};
use crate::config::SimConfig;
use crate::drone::Drone;
use crate::fixed::{lemma_tdiv_fits, mul_div, mul_fixed, SCALE};
use crate::force::{MASS_LIMIT, VEL_LIMIT};

verus! {

/// The simulator: one drone advanced tick by tick at a fixed cadence.
///
/// Time stepping converts the rates of change of the physics into
/// actual state, like a game's update loop; the timestep must be one
/// known constant or the results mean nothing, so it lives in the
/// immutable configuration. The driver around the library owns the
/// wall clock: per tick it calls [`DroneSimulator::advance`], measures
/// the elapsed time itself, and lets [`DroneSimulator::pace`] decide
/// between sleeping off the remainder of the budget and reporting an
/// overrun.
pub struct DroneSimulator {
    pub drone: Drone,
    /// The environment constants and the fixed timestep of this
    /// simulation instance.
    pub config: SimConfig,
}

impl DroneSimulator {
    /// A simulator over the default drone and configuration.
    pub fn new() -> (r: Self)
        ensures
            r.drone.body.is_initial(10_000_000, 10_000_000, 10_000_000),
            r.config.wf(),
            r.config.delta_time == 16_000,
            r.config.gravity == 9_810_000,
    {
        DroneSimulator { drone: Drone::default(), config: SimConfig::default() }
    }

    /// Prepare the simulator for its loop. Nothing needs doing yet.
    pub fn start(&mut self) -> (r: Result<(), EleaError>)
        ensures
            r is Ok,
            *final (self) == *old(self),
    {
        Ok(())
    }

    /// Whether the body's state is within every range the integrator
    /// relies on, so that the next `advance` may run. This mirrors the
    /// integrator's readiness condition exactly.
    pub fn ready(&self) -> (r: bool)
        ensures
            r == self.drone.body.step_ready(self.config, self.config.delta_time as int),
    {
        let cfg: &SimConfig = &self.config;
        let b: &RigidBody = &self.drone.body;
        let base: bool = 0 < cfg.gravity && cfg.gravity <= 100 * SCALE && 0 <= cfg.air_density
            && cfg.air_density <= 100 * SCALE && 0 <= cfg.drag_coeff && cfg.drag_coeff <= 100
            * SCALE && 0 <= cfg.thrust_coeff && cfg.thrust_coeff <= SCALE && 0 <= cfg.yaw_coeff
            && cfg.yaw_coeff <= SCALE && 1 <= cfg.delta_time && cfg.delta_time <= SCALE
            && 0 < b.mass && b.mass <= MASS_LIMIT && 0 <= b.dimensions.height
            && b.dimensions.height <= DIM_LIMIT && 0 <= b.dimensions.width && b.dimensions.width
            <= DIM_LIMIT && 0 <= b.dimensions.depth && b.dimensions.depth <= DIM_LIMIT;
        if !base {
            return false;
        }
        proof {
            lemma_tdiv_fits(b.dimensions.height as int, b.dimensions.height as int, SCALE as int,
                DIM_LIMIT as int, DIM_LIMIT as int);
            lemma_tdiv_fits(b.dimensions.width as int, b.dimensions.width as int, SCALE as int,
                DIM_LIMIT as int, DIM_LIMIT as int);
            lemma_tdiv_fits(b.dimensions.depth as int, b.dimensions.depth as int, SCALE as int,
                DIM_LIMIT as int, DIM_LIMIT as int);
        }
        let dimsq: i64 = mul_fixed(b.dimensions.height, b.dimensions.height) + mul_fixed(
            b.dimensions.width,
            b.dimensions.width,
        ) + mul_fixed(b.dimensions.depth, b.dimensions.depth);
        proof {
            lemma_tdiv_fits(b.mass as int, dimsq as int, 12 * SCALE as int, MASS_LIMIT as int,
                30_000_000_000);
        }
        let inertia: i64 = mul_div(b.mass, dimsq, 12 * SCALE);
        if inertia < 1 {
            return false;
        }
        let kin: bool = -POS_LIMIT <= b.position.0.x && b.position.0.x <= POS_LIMIT && -POS_LIMIT
            <= b.position.0.y && b.position.0.y <= POS_LIMIT && -POS_LIMIT <= b.position.0.z
            && b.position.0.z <= POS_LIMIT && -VEL_LIMIT <= b.linear_velocity.0.x
            && b.linear_velocity.0.x <= VEL_LIMIT && -VEL_LIMIT <= b.linear_velocity.0.y
            && b.linear_velocity.0.y <= VEL_LIMIT && -VEL_LIMIT <= b.linear_velocity.0.z
            && b.linear_velocity.0.z <= VEL_LIMIT && -100_000_000_000 <= b.angular_velocity.0.x
            && b.angular_velocity.0.x <= 100_000_000_000 && -100_000_000_000
            <= b.angular_velocity.0.y && b.angular_velocity.0.y <= 100_000_000_000
            && -100_000_000_000 <= b.angular_velocity.0.z && b.angular_velocity.0.z
            <= 100_000_000_000;
        if !kin {
            return false;
        }
        let qb: bool = -(SCALE + 3) <= b.orientation.0.angle.0 && b.orientation.0.angle.0 <= SCALE
            + 3 && -(SCALE + 3) <= b.orientation.0.axis.x && b.orientation.0.axis.x <= SCALE + 3
            && -(SCALE + 3) <= b.orientation.0.axis.y && b.orientation.0.axis.y <= SCALE + 3 && -(
        SCALE + 3) <= b.orientation.0.axis.z && b.orientation.0.axis.z <= SCALE + 3;
        if !qb {
            return false;
        }
        let m: i64 = b.orientation.0.magnitude();
        SCALE - 3 <= m && m <= SCALE + 3
    }

    /// Run the physics of one tick: recompute forces from the current
    /// propeller readings and advance the body by one timestep.
    /// Succeeds exactly when the state is ready and every intermediate
    /// of the step stays in range; on failure the state is untouched.
    pub fn advance(&mut self) -> (r: Result<(), EleaError>)
        ensures
            r is Ok <==> old(self).drone.body.step_ready(
                old(self).config,
                old(self).config.delta_time as int,
            ) && step_checks(
                old(self).drone.body,
                old(self).drone.propellers,
                old(self).config,
                old(self).config.delta_time as int,
            ),
            r is Ok ==> step_applied(
                old(self).drone.body,
                old(self).drone.propellers,
                old(self).config,
                old(self).config.delta_time as int,
                final (self).drone.body,
            ),
            r is Ok ==> final (self).drone.body.step_ready(
                final (self).config,
                final (self).config.delta_time as int,
            ),
            final (self).drone.propellers == old(self).drone.propellers,
            final (self).config == old(self).config,
            r is Err ==> final (self).drone.body == old(self).drone.body,
            r matches Err(e) ==> e matches EleaError::InvalidData(_),
    {
        if !self.ready() {
            return Err(EleaError::InvalidData("body state out of simulation range".to_owned()));
        }
        let dt: i64 = self.config.delta_time;
        self.drone.body.step(dt, &self.drone.propellers, &self.config)
    }

    /// Decide the pacing of the tick that just ran: given how many
    /// nanoseconds it took, either the exact sleep that holds the
    /// cadence, or the overrun to report.
    pub fn pace(&self, elapsed_ns: u64) -> (r: TickPacing)
        requires
            self.config.wf(),
        ensures
            ({
                let budget = self.config.delta_time * 1000;
                (elapsed_ns < budget ==> r == TickPacing::Sleep((budget - elapsed_ns) as u64))
                    && (elapsed_ns >= budget ==> r == TickPacing::Overrun(
                    (elapsed_ns - budget) as u64,
                ))
            }),
    {
        let budget_ns: u64 = (self.config.delta_time as u64) * 1000;
        pace(budget_ns, elapsed_ns)
    }
}

} // verus!
