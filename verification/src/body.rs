//! The rigid body and its per-tick integration step.
//!
//! A body's state is its pose (position and orientation), its linear
//! and angular velocities, its mass and its cuboid dimensions; the
//! body does not deform, so this is all of it. Each tick the step
//! recomputes the force set, then advances the state with a
//! semi-implicit (symplectic) scheme: acceleration from net force,
//! velocity from acceleration, position from the updated velocity, and
//! likewise angular velocity from net torque and orientation from the
//! updated angular velocity. A single isotropic inertia scalar stands
//! in for the cuboid's inertia tensor, which makes the gyroscopic term
//! of the rigid-body Euler equation vanish identically. A tick either
//! applies completely or, when an intermediate value would leave its
//! proven range, not at all; there is no rollback of a tick once
//! applied, and no state is carried between ticks except this struct.

use crate::config::SimConfig;
use crate::drone::Propeller;
use crate::fixed::{absi, lemma_tdiv_fits, mul_div, mul_div_opt, mul_fixed, mulf, sqrt_of, tdiv,
    SCALE};
use crate::force::{
    drag_comp, prop_thrust, total_thrust, weight_y, Forces, MASS_LIMIT, RPM_LIMIT, VEL_LIMIT,
};
use crate::state::{
    is_integrated, Acceleration, AngularVelocity, LinearVelocity, Orientation, Position,
    ROT_STEP_CAP,
};
use crate::torque::{pitch_torque, roll_torque, total_yaw, Torque};
use crate::util::EleaError;
use crate::vector::Vector3;
use vstd::prelude::*;

verus! {

/// Largest position component magnitude the integrator keeps: a
/// billion metres from the origin.
pub const POS_LIMIT: i64 = 1_000_000_000_000_000;

/// Largest body edge length the torque model accepts: a hundred
/// metres.
pub const DIM_LIMIT: i64 = 100_000_000;

/// The extent of the cuboid body, in fixed-point metres.
#[derive(Clone, Copy, Debug, PartialEq, Eq, Structural)]
pub struct Dimensions3D {
    pub height: i64,
    pub width: i64,
    pub depth: i64,
}

impl Dimensions3D {
    pub fn new(height: i64, width: i64, depth: i64) -> (r: Self)
        ensures
            r.height == height && r.width == width && r.depth == depth,
    {
        Self { height, width, depth }
    }
}

impl core::default::Default for Dimensions3D {
    fn default() -> (r: Self)
        ensures
            r.height == 0 && r.width == 0 && r.depth == 0,
    {
        Self { height: 0, width: 0, depth: 0 }
    }
}

/// The full state of one rigid body. Created once at simulator
/// startup with zeroed kinematics and identity orientation, then
/// mutated exclusively by `step`, once per tick.
#[derive(Clone, Copy, Debug, PartialEq, Eq, Structural)]
pub struct RigidBody {
    pub dimensions: Dimensions3D,
    pub position: Position,
    pub orientation: Orientation,
    pub linear_velocity: LinearVelocity,
    pub angular_velocity: AngularVelocity,
    pub acceleration: Acceleration,
    pub forces: Forces,
    pub mass: i64,
}

/// The combined drag scale: drag coefficient times air density.
pub open spec fn k2_of(cfg: SimConfig) -> int {
    mulf(cfg.drag_coeff as int, cfg.air_density as int)
}

/// The body's current speed.
pub open spec fn speed_of(pre: RigidBody) -> int {
    sqrt_of(pre.linear_velocity.0.norm2())
}

/// Net force along `x`: only drag acts sideways.
pub open spec fn net_fx(pre: RigidBody, cfg: SimConfig) -> int {
    drag_comp(k2_of(cfg), speed_of(pre), pre.linear_velocity.0.x as int)
}

/// Net force along the vertical axis: thrust up, weight down, drag
/// against the vertical velocity.
pub open spec fn net_fy(pre: RigidBody, props: [Propeller; 4], cfg: SimConfig) -> int {
    total_thrust(
        props[0].rpm as int,
        props[1].rpm as int,
        props[2].rpm as int,
        props[3].rpm as int,
        cfg.thrust_coeff as int,
    ) + weight_y(pre.mass as int, cfg.gravity as int) + drag_comp(
        k2_of(cfg),
        speed_of(pre),
        pre.linear_velocity.0.y as int,
    )
}

/// Net force along `z`: only drag acts sideways.
pub open spec fn net_fz(pre: RigidBody, cfg: SimConfig) -> int {
    drag_comp(k2_of(cfg), speed_of(pre), pre.linear_velocity.0.z as int)
}

/// Linear acceleration: net force over mass.
pub open spec fn accel_x(pre: RigidBody, cfg: SimConfig) -> int {
    tdiv(net_fx(pre, cfg) * SCALE as int, pre.mass as int)
}

pub open spec fn accel_y(pre: RigidBody, props: [Propeller; 4], cfg: SimConfig) -> int {
    tdiv(net_fy(pre, props, cfg) * SCALE as int, pre.mass as int)
}

pub open spec fn accel_z(pre: RigidBody, cfg: SimConfig) -> int {
    tdiv(net_fz(pre, cfg) * SCALE as int, pre.mass as int)
}

/// Updated linear velocity: the old velocity plus acceleration times
/// the timestep.
pub open spec fn vel_x(pre: RigidBody, cfg: SimConfig, dt: int) -> int {
    pre.linear_velocity.0.x + mulf(accel_x(pre, cfg), dt)
}

pub open spec fn vel_y(pre: RigidBody, props: [Propeller; 4], cfg: SimConfig, dt: int) -> int {
    pre.linear_velocity.0.y + mulf(accel_y(pre, props, cfg), dt)
}

pub open spec fn vel_z(pre: RigidBody, cfg: SimConfig, dt: int) -> int {
    pre.linear_velocity.0.z + mulf(accel_z(pre, cfg), dt)
}

/// Updated position: the old position plus the updated velocity times
/// the timestep (the semi-implicit order).
pub open spec fn pos_x(pre: RigidBody, cfg: SimConfig, dt: int) -> int {
    pre.position.0.x + mulf(vel_x(pre, cfg, dt), dt)
}

pub open spec fn pos_y(pre: RigidBody, props: [Propeller; 4], cfg: SimConfig, dt: int) -> int {
    pre.position.0.y + mulf(vel_y(pre, props, cfg, dt), dt)
}

pub open spec fn pos_z(pre: RigidBody, cfg: SimConfig, dt: int) -> int {
    pre.position.0.z + mulf(vel_z(pre, cfg, dt), dt)
}

/// Net torque about `x`: differential thrust across the depth.
pub open spec fn torque_x_of(pre: RigidBody, props: [Propeller; 4], cfg: SimConfig) -> int {
    roll_torque(
        prop_thrust(props[0].rpm as int, cfg.thrust_coeff as int),
        prop_thrust(props[1].rpm as int, cfg.thrust_coeff as int),
        prop_thrust(props[2].rpm as int, cfg.thrust_coeff as int),
        prop_thrust(props[3].rpm as int, cfg.thrust_coeff as int),
        tdiv(pre.dimensions.depth as int, 2),
    )
}

/// Net torque about the vertical axis: the spin reactions.
pub open spec fn torque_y_of(props: [Propeller; 4], cfg: SimConfig) -> int {
    total_yaw(
        props[0].rpm as int,
        props[0].rotation_direction,
        props[1].rpm as int,
        props[1].rotation_direction,
        props[2].rpm as int,
        props[2].rotation_direction,
        props[3].rpm as int,
        props[3].rotation_direction,
        cfg.yaw_coeff as int,
    )
}

/// Net torque about `z`: differential thrust across the width.
pub open spec fn torque_z_of(pre: RigidBody, props: [Propeller; 4], cfg: SimConfig) -> int {
    pitch_torque(
        prop_thrust(props[0].rpm as int, cfg.thrust_coeff as int),
        prop_thrust(props[1].rpm as int, cfg.thrust_coeff as int),
        prop_thrust(props[2].rpm as int, cfg.thrust_coeff as int),
        prop_thrust(props[3].rpm as int, cfg.thrust_coeff as int),
        tdiv(pre.dimensions.width as int, 2),
    )
}

/// The isotropic inertia scalar of the cuboid body:
/// `mass * (h^2 + w^2 + d^2) / 12`. Because one scalar stands for the
/// whole tensor, the gyroscopic term `w x (I w)` is identically zero.
pub open spec fn inertia_of(pre: RigidBody) -> int {
    tdiv(
        pre.mass as int * (mulf(pre.dimensions.height as int, pre.dimensions.height as int)
            + mulf(pre.dimensions.width as int, pre.dimensions.width as int) + mulf(
            pre.dimensions.depth as int,
            pre.dimensions.depth as int,
        )),
        12 * SCALE as int,
    )
}

/// Angular acceleration: net torque over the inertia scalar.
pub open spec fn alpha_x(pre: RigidBody, props: [Propeller; 4], cfg: SimConfig) -> int {
    tdiv(torque_x_of(pre, props, cfg) * SCALE as int, inertia_of(pre))
}

pub open spec fn alpha_y(pre: RigidBody, props: [Propeller; 4], cfg: SimConfig) -> int {
    tdiv(torque_y_of(props, cfg) * SCALE as int, inertia_of(pre))
}

pub open spec fn alpha_z(pre: RigidBody, props: [Propeller; 4], cfg: SimConfig) -> int {
    tdiv(torque_z_of(pre, props, cfg) * SCALE as int, inertia_of(pre))
}

/// Updated angular velocity.
pub open spec fn omega_x(pre: RigidBody, props: [Propeller; 4], cfg: SimConfig, dt: int) -> int {
    pre.angular_velocity.0.x + mulf(alpha_x(pre, props, cfg), dt)
}

pub open spec fn omega_y(pre: RigidBody, props: [Propeller; 4], cfg: SimConfig, dt: int) -> int {
    pre.angular_velocity.0.y + mulf(alpha_y(pre, props, cfg), dt)
}

pub open spec fn omega_z(pre: RigidBody, props: [Propeller; 4], cfg: SimConfig, dt: int) -> int {
    pre.angular_velocity.0.z + mulf(alpha_z(pre, props, cfg), dt)
}

/// Every range test one tick performs, over the stage values it
/// computes. `step` succeeds exactly when all of them hold.
pub open spec fn step_checks(
    pre: RigidBody,
    props: [Propeller; 4],
    cfg: SimConfig,
    dt: int,
) -> bool {
    &&& props[0].rpm <= RPM_LIMIT
    &&& props[1].rpm <= RPM_LIMIT
    &&& props[2].rpm <= RPM_LIMIT
    &&& props[3].rpm <= RPM_LIMIT
    &&& absi(accel_x(pre, cfg)) <= i64::MAX as int
    &&& absi(accel_y(pre, props, cfg)) <= i64::MAX as int
    &&& absi(accel_z(pre, cfg)) <= i64::MAX as int
    &&& absi(vel_x(pre, cfg, dt)) <= VEL_LIMIT as int
    &&& absi(vel_y(pre, props, cfg, dt)) <= VEL_LIMIT as int
    &&& absi(vel_z(pre, cfg, dt)) <= VEL_LIMIT as int
    &&& absi(pos_x(pre, cfg, dt)) <= POS_LIMIT as int
    &&& absi(pos_y(pre, props, cfg, dt)) <= POS_LIMIT as int
    &&& absi(pos_z(pre, cfg, dt)) <= POS_LIMIT as int
    &&& absi(alpha_x(pre, props, cfg)) <= i64::MAX as int
    &&& absi(alpha_y(pre, props, cfg)) <= i64::MAX as int
    &&& absi(alpha_z(pre, props, cfg)) <= i64::MAX as int
    &&& absi(omega_x(pre, props, cfg, dt)) * dt <= ROT_STEP_CAP as int
    &&& absi(omega_y(pre, props, cfg, dt)) * dt <= ROT_STEP_CAP as int
    &&& absi(omega_z(pre, props, cfg, dt)) * dt <= ROT_STEP_CAP as int
}

/// `post` is exactly `pre` advanced by one tick: the recomputed force
/// set, and every kinematic field stepped by the symplectic scheme.
pub open spec fn step_applied(
    pre: RigidBody,
    props: [Propeller; 4],
    cfg: SimConfig,
    dt: int,
    post: RigidBody,
) -> bool {
    &&& post.forces.thrust.0.x == 0 && post.forces.thrust.0.z == 0
    &&& post.forces.thrust.0.y as int == total_thrust(
        props[0].rpm as int,
        props[1].rpm as int,
        props[2].rpm as int,
        props[3].rpm as int,
        cfg.thrust_coeff as int,
    )
    &&& post.forces.weight.0.x == 0 && post.forces.weight.0.z == 0
    &&& post.forces.weight.0.y as int == weight_y(pre.mass as int, cfg.gravity as int)
    &&& post.forces.drag.0.x as int == drag_comp(k2_of(cfg), speed_of(pre),
        pre.linear_velocity.0.x as int)
    &&& post.forces.drag.0.y as int == drag_comp(k2_of(cfg), speed_of(pre),
        pre.linear_velocity.0.y as int)
    &&& post.forces.drag.0.z as int == drag_comp(k2_of(cfg), speed_of(pre),
        pre.linear_velocity.0.z as int)
    &&& post.acceleration.0.x as int == accel_x(pre, cfg)
    &&& post.acceleration.0.y as int == accel_y(pre, props, cfg)
    &&& post.acceleration.0.z as int == accel_z(pre, cfg)
    &&& post.linear_velocity.0.x as int == vel_x(pre, cfg, dt)
    &&& post.linear_velocity.0.y as int == vel_y(pre, props, cfg, dt)
    &&& post.linear_velocity.0.z as int == vel_z(pre, cfg, dt)
    &&& post.position.0.x as int == pos_x(pre, cfg, dt)
    &&& post.position.0.y as int == pos_y(pre, props, cfg, dt)
    &&& post.position.0.z as int == pos_z(pre, cfg, dt)
    &&& post.angular_velocity.0.x as int == omega_x(pre, props, cfg, dt)
    &&& post.angular_velocity.0.y as int == omega_y(pre, props, cfg, dt)
    &&& post.angular_velocity.0.z as int == omega_z(pre, props, cfg, dt)
    &&& is_integrated(pre.orientation.0, post.angular_velocity.0, dt, post.orientation.0)
    &&& post.orientation.0.wf()
    &&& post.mass == pre.mass
    &&& post.dimensions == pre.dimensions
}

impl RigidBody {
    /// The state of a freshly constructed body: the given dimensions,
    /// the default mass of two hundred kilograms, zeroed kinematics
    /// and forces, identity orientation.
    pub open spec fn is_initial(self, h: i64, w: i64, d: i64) -> bool {
        &&& self.dimensions.height == h && self.dimensions.width == w && self.dimensions.depth
            == d
        &&& self.mass == 200 * SCALE
        &&& self.position.0.x == 0 && self.position.0.y == 0 && self.position.0.z == 0
        &&& self.linear_velocity.0.x == 0 && self.linear_velocity.0.y == 0
            && self.linear_velocity.0.z == 0
        &&& self.angular_velocity.0.x == 0 && self.angular_velocity.0.y == 0
            && self.angular_velocity.0.z == 0
        &&& self.acceleration.0.x == 0 && self.acceleration.0.y == 0 && self.acceleration.0.z
            == 0
        &&& self.orientation.0.qw() == SCALE as int && self.orientation.0.qx() == 0
            && self.orientation.0.qy() == 0 && self.orientation.0.qz() == 0
        &&& self.forces.thrust.0.x == 0 && self.forces.thrust.0.y == 0 && self.forces.thrust.0.z
            == 0
        &&& self.forces.weight.0.x == 0 && self.forces.weight.0.y == 0 && self.forces.weight.0.z
            == 0
        &&& self.forces.drag.0.x == 0 && self.forces.drag.0.y == 0 && self.forces.drag.0.z == 0
    }

    /// Every range the integrator relies on. `step` keeps this
    /// invariant: a ready body that steps successfully is ready for
    /// the next tick with the same configuration.
    pub open spec fn step_ready(self, cfg: SimConfig, dt: int) -> bool {
        &&& cfg.wf()
        &&& 1 <= dt <= SCALE as int
        &&& 0 < self.mass <= MASS_LIMIT as int
        &&& 0 <= self.dimensions.height <= DIM_LIMIT as int
        &&& 0 <= self.dimensions.width <= DIM_LIMIT as int
        &&& 0 <= self.dimensions.depth <= DIM_LIMIT as int
        &&& 1 <= inertia_of(self)
        &&& self.position.0.in_bounds(POS_LIMIT as int)
        &&& self.linear_velocity.0.in_bounds(VEL_LIMIT as int)
        &&& self.angular_velocity.0.in_bounds(100_000_000_000)
        &&& self.orientation.0.wf()
    }

    /// A fresh body of the given dimensions, with default mass, at
    /// rest at the origin in the reference attitude.
    pub fn new(height: i64, width: i64, depth: i64) -> (r: RigidBody)
        ensures
            r.is_initial(height, width, depth),
            r.orientation.0.wf(),
    {
        let mut rb = RigidBody::default();
        rb.dimensions = Dimensions3D::new(height, width, depth);
        rb
    }

    /// The point torques are measured about. The body's density is
    /// uniform, so it coincides with the position.
    pub fn center_of_mass(&self) -> (r: Position)
        ensures
            r == self.position,
    {
        self.position
    }

    /// Advance the body by one tick of `dt` fixed-point seconds:
    /// recompute the force set from the propeller readings, then apply
    /// the semi-implicit scheme. Succeeds exactly when every
    /// intermediate stays in its proven range; on failure the state is
    /// untouched.
    pub fn step(&mut self, dt: i64, propellers: &[Propeller; 4], cfg: &SimConfig) -> (r: Result<
        (),
        EleaError,
    >)
        requires
            old(self).step_ready(*cfg, dt as int),
        ensures
            r is Ok <==> step_checks(*old(self), *propellers, *cfg, dt as int),
            r is Err ==> *final (self) == *old(self),
            r matches Err(e) ==> e matches EleaError::InvalidData(_),
            r is Ok ==> step_applied(*old(self), *propellers, *cfg, dt as int, *final (self)),
            r is Ok ==> final (self).step_ready(*cfg, dt as int),
    {
        let ghost pre = *self;
        let ghost props = *propellers;
        if propellers[0].rpm > RPM_LIMIT || propellers[1].rpm > RPM_LIMIT || propellers[2].rpm
            > RPM_LIMIT || propellers[3].rpm > RPM_LIMIT {
            return Err(EleaError::InvalidData("propeller reading out of range".to_owned()));
        }
        // Force composition.
        let mut forces: Forces = self.forces;
        let net: crate::force::ForceVector = match forces.calculate_forces(
            self.mass,
            &self.linear_velocity,
            propellers,
            cfg,
        ) {
            Ok(f) => f,
            Err(e) => { return Err(EleaError::InvalidData("force model failed".to_owned())) },
        };
        proof {
            assert(net.0.x as int == net_fx(pre, *cfg));
            assert(net.0.y as int == net_fy(pre, props, *cfg));
            assert(net.0.z as int == net_fz(pre, *cfg));
        }
        // Linear acceleration: net force over mass.
        let ax: i64 = match mul_div_opt(net.0.x, SCALE, self.mass) {
            Some(v) => v,
            None => { return Err(EleaError::InvalidData("acceleration out of range".to_owned()))
            },
        };
        let ay: i64 = match mul_div_opt(net.0.y, SCALE, self.mass) {
            Some(v) => v,
            None => { return Err(EleaError::InvalidData("acceleration out of range".to_owned()))
            },
        };
        let az: i64 = match mul_div_opt(net.0.z, SCALE, self.mass) {
            Some(v) => v,
            None => { return Err(EleaError::InvalidData("acceleration out of range".to_owned()))
            },
        };
        // Velocity update, then the range test that keeps the body
        // ready for the next tick.
        proof {
            lemma_tdiv_fits(ax as int, dt as int, SCALE as int, i64::MAX as int, 1_000_000);
            lemma_tdiv_fits(ay as int, dt as int, SCALE as int, i64::MAX as int, 1_000_000);
            lemma_tdiv_fits(az as int, dt as int, SCALE as int, i64::MAX as int, 1_000_000);
        }
        let vx128: i128 = self.linear_velocity.0.x as i128 + mul_div(ax, dt, SCALE) as i128;
        let vy128: i128 = self.linear_velocity.0.y as i128 + mul_div(ay, dt, SCALE) as i128;
        let vz128: i128 = self.linear_velocity.0.z as i128 + mul_div(az, dt, SCALE) as i128;
        if vx128 > VEL_LIMIT as i128 || vx128 < -(VEL_LIMIT as i128) || vy128 > VEL_LIMIT as i128
            || vy128 < -(VEL_LIMIT as i128) || vz128 > VEL_LIMIT as i128 || vz128 < -(
        VEL_LIMIT as i128) {
            return Err(EleaError::InvalidData("velocity out of range".to_owned()));
        }
        let vx: i64 = vx128 as i64;
        let vy: i64 = vy128 as i64;
        let vz: i64 = vz128 as i64;
        // Position update from the new velocity.
        proof {
            lemma_tdiv_fits(vx as int, dt as int, SCALE as int, VEL_LIMIT as int, 1_000_000);
            lemma_tdiv_fits(vy as int, dt as int, SCALE as int, VEL_LIMIT as int, 1_000_000);
            lemma_tdiv_fits(vz as int, dt as int, SCALE as int, VEL_LIMIT as int, 1_000_000);
        }
        let px128: i128 = self.position.0.x as i128 + mul_div(vx, dt, SCALE) as i128;
        let py128: i128 = self.position.0.y as i128 + mul_div(vy, dt, SCALE) as i128;
        let pz128: i128 = self.position.0.z as i128 + mul_div(vz, dt, SCALE) as i128;
        if px128 > POS_LIMIT as i128 || px128 < -(POS_LIMIT as i128) || py128 > POS_LIMIT as i128
            || py128 < -(POS_LIMIT as i128) || pz128 > POS_LIMIT as i128 || pz128 < -(
        POS_LIMIT as i128) {
            return Err(EleaError::InvalidData("position out of range".to_owned()));
        }
        let px: i64 = px128 as i64;
        let py: i64 = py128 as i64;
        let pz: i64 = pz128 as i64;
        // Angular acceleration from net torque and the inertia scalar.
        let tq: Torque = Torque::from_propellers(propellers, &self.dimensions, cfg);
        proof {
            lemma_tdiv_fits(self.dimensions.height as int, self.dimensions.height as int,
                SCALE as int, DIM_LIMIT as int, DIM_LIMIT as int);
            lemma_tdiv_fits(self.dimensions.width as int, self.dimensions.width as int,
                SCALE as int, DIM_LIMIT as int, DIM_LIMIT as int);
            lemma_tdiv_fits(self.dimensions.depth as int, self.dimensions.depth as int,
                SCALE as int, DIM_LIMIT as int, DIM_LIMIT as int);
        }
        let dimsq: i64 = mul_fixed(self.dimensions.height, self.dimensions.height) + mul_fixed(
            self.dimensions.width,
            self.dimensions.width,
        ) + mul_fixed(self.dimensions.depth, self.dimensions.depth);
        proof {
            lemma_tdiv_fits(self.mass as int, dimsq as int, 12 * SCALE as int, MASS_LIMIT as int,
                30_000_000_000);
        }
        let inertia: i64 = mul_div(self.mass, dimsq, 12 * SCALE);
        proof {
            assert(inertia as int == inertia_of(pre));
        }
        let alx: i64 = match mul_div_opt(tq.0.x, SCALE, inertia) {
            Some(v) => v,
            None => { return Err(EleaError::InvalidData(
                "angular acceleration out of range".to_owned(),
            )) },
        };
        let aly: i64 = match mul_div_opt(tq.0.y, SCALE, inertia) {
            Some(v) => v,
            None => { return Err(EleaError::InvalidData(
                "angular acceleration out of range".to_owned(),
            )) },
        };
        let alz: i64 = match mul_div_opt(tq.0.z, SCALE, inertia) {
            Some(v) => v,
            None => { return Err(EleaError::InvalidData(
                "angular acceleration out of range".to_owned(),
            )) },
        };
        // Angular velocity update, capped so one step of rotation
        // stays in the integrator's accurate range.
        proof {
            lemma_tdiv_fits(alx as int, dt as int, SCALE as int, i64::MAX as int, 1_000_000);
            lemma_tdiv_fits(aly as int, dt as int, SCALE as int, i64::MAX as int, 1_000_000);
            lemma_tdiv_fits(alz as int, dt as int, SCALE as int, i64::MAX as int, 1_000_000);
        }
        let wx128: i128 = self.angular_velocity.0.x as i128 + mul_div(alx, dt, SCALE) as i128;
        let wy128: i128 = self.angular_velocity.0.y as i128 + mul_div(aly, dt, SCALE) as i128;
        let wz128: i128 = self.angular_velocity.0.z as i128 + mul_div(alz, dt, SCALE) as i128;
        let awx: i128 = if wx128 < 0 { -wx128 } else { wx128 };
        let awy: i128 = if wy128 < 0 { -wy128 } else { wy128 };
        let awz: i128 = if wz128 < 0 { -wz128 } else { wz128 };
        proof {
            assert(awx * (dt as i128) <= 20_000_000_000_000_000_000_000_000 && awy * (
            dt as i128) <= 20_000_000_000_000_000_000_000_000 && awz * (dt as i128)
                <= 20_000_000_000_000_000_000_000_000) by (nonlinear_arith)
                requires
                    0 <= awx <= 20_000_000_000_000_000_000,
                    0 <= awy <= 20_000_000_000_000_000_000,
                    0 <= awz <= 20_000_000_000_000_000_000,
                    0 <= dt as i128 <= 1_000_000,
            ;
        }
        if awx * dt as i128 > ROT_STEP_CAP as i128 || awy * dt as i128 > ROT_STEP_CAP as i128
            || awz * dt as i128 > ROT_STEP_CAP as i128 {
            return Err(EleaError::InvalidData("rotation rate out of range".to_owned()));
        }
        proof {
            assert(awx <= ROT_STEP_CAP as i128 && awy <= ROT_STEP_CAP as i128 && awz
                <= ROT_STEP_CAP as i128) by (nonlinear_arith)
                requires
                    1 <= dt,
                    0 <= awx,
                    0 <= awy,
                    0 <= awz,
                    awx * dt as i128 <= ROT_STEP_CAP as i128,
                    awy * dt as i128 <= ROT_STEP_CAP as i128,
                    awz * dt as i128 <= ROT_STEP_CAP as i128,
            ;
        }
        let wx: i64 = wx128 as i64;
        let wy: i64 = wy128 as i64;
        let wz: i64 = wz128 as i64;
        let omega_new = AngularVelocity(Vector3 { x: wx, y: wy, z: wz });
        // Orientation update from the new angular velocity.
        let new_orientation: Orientation = self.orientation.integrate(&omega_new, dt);
        // Apply the tick. From here on nothing can fail, so the tick
        // is final.
        self.forces = forces;
        self.acceleration = Acceleration(Vector3 { x: ax, y: ay, z: az });
        self.linear_velocity = LinearVelocity(Vector3 { x: vx, y: vy, z: vz });
        self.position = Position(Vector3 { x: px, y: py, z: pz });
        self.angular_velocity = omega_new;
        self.orientation = new_orientation;
        Ok(())
    }
}

impl core::default::Default for RigidBody {
    /// A degenerate body of zero extent, used as the base the named
    /// constructor fills in.
    fn default() -> (r: Self)
        ensures
            r.is_initial(0, 0, 0),
            r.orientation.0.wf(),
    {
        RigidBody {
            dimensions: Dimensions3D::default(),
            position: Position::default(),
            orientation: Orientation::default(),
            linear_velocity: LinearVelocity::default(),
            angular_velocity: AngularVelocity::default(),
            acceleration: Acceleration::default(),
            forces: Forces::default(),
            mass: 200 * SCALE,
        }
    }
}

} // verus!
