//! Torque: the rotational analogue of force.
//!
//! A force applied away from the center of mass turns the body; the
//! torque is the cross product of the application offset and the
//! force. The four propellers sit at the corners of the frame, halfway
//! out along the width and depth, so differential thrust rolls and
//! pitches the body. Each propeller also exerts a reaction torque
//! about the vertical axis, opposite to its own spin; alternating spin
//! directions around the frame let balanced revolutions cancel it.

use crate::body::Dimensions3D;
use crate::config::SimConfig;
use crate::drone::{Propeller, RotationDirection};
use crate::fixed::{lemma_tdiv_fits, mul_div, mul_fixed, mulf, tdiv, SCALE};
use crate::force::{prop_force, prop_thrust, RPM_LIMIT};
use crate::vector::Vector3;
use vstd::prelude::*;

verus! {

/// A torque on the body, in fixed-point newton-metres.
#[derive(Clone, Copy, Debug, PartialEq, Eq, Structural)]
pub struct Torque(pub Vector3);

impl Torque {
    pub fn new(x: i64, y: i64, z: i64) -> (r: Self)
        ensures
            r.0.x == x && r.0.y == y && r.0.z == z,
    {
        Torque(Vector3 { x, y, z })
    }
}

impl core::default::Default for Torque {
    fn default() -> (r: Self)
        ensures
            r.0.x == 0 && r.0.y == 0 && r.0.z == 0,
    {
        Torque(Vector3 { x: 0, y: 0, z: 0 })
    }
}

/// The sign of the reaction torque a propeller exerts about the
/// vertical axis: the body is dragged opposite the propeller's own
/// spin, so a clockwise propeller yaws the body counter-clockwise.
pub open spec fn reaction_sign(d: RotationDirection) -> int {
    if d == RotationDirection::Clockwise {
        -1int
    } else {
        1int
    }
}

/// The yaw torque of one propeller: its reaction sign times the yaw
/// coefficient times its squared revolutions.
pub open spec fn prop_yaw(rpm: int, d: RotationDirection, kq: int) -> int {
    reaction_sign(d) * prop_thrust(rpm, kq)
}

/// The summed yaw torque of the four propellers.
pub open spec fn total_yaw(
    r0: int,
    d0: RotationDirection,
    r1: int,
    d1: RotationDirection,
    r2: int,
    d2: RotationDirection,
    r3: int,
    d3: RotationDirection,
    kq: int,
) -> int {
    prop_yaw(r0, d0, kq) + prop_yaw(r1, d1, kq) + prop_yaw(r2, d2, kq) + prop_yaw(r3, d3, kq)
}

/// The roll torque (about `x`) of four corner-mounted thrusts:
/// propellers 0 and 1 sit at `+depth/2`, propellers 2 and 3 at
/// `-depth/2`.
pub open spec fn roll_torque(f0: int, f1: int, f2: int, f3: int, hd: int) -> int {
    mulf(hd, f2) + mulf(hd, f3) - mulf(hd, f0) - mulf(hd, f1)
}

/// The pitch torque (about `z`) of four corner-mounted thrusts:
/// propellers 0 and 3 sit at `+width/2`, propellers 1 and 2 at
/// `-width/2`.
pub open spec fn pitch_torque(f0: int, f1: int, f2: int, f3: int, hw: int) -> int {
    mulf(hw, f0) - mulf(hw, f1) - mulf(hw, f2) + mulf(hw, f3)
}

impl Torque {
    /// The net torque the four propellers exert this tick: roll and
    /// pitch from the thrust offsets (`offset` cross `force`, with the
    /// offsets derived from the body's width and depth), yaw from the
    /// spin reactions.
    pub fn from_propellers(
        propellers: &[Propeller; 4],
        dims: &Dimensions3D,
        cfg: &SimConfig,
    ) -> (r: Torque)
        requires
            cfg.wf(),
            propellers[0].rpm <= RPM_LIMIT,
            propellers[1].rpm <= RPM_LIMIT,
            propellers[2].rpm <= RPM_LIMIT,
            propellers[3].rpm <= RPM_LIMIT,
            0 <= dims.width <= 100_000_000,
            0 <= dims.depth <= 100_000_000,
        ensures
            ({
                let kt = cfg.thrust_coeff as int;
                let f0 = prop_thrust(propellers[0].rpm as int, kt);
                let f1 = prop_thrust(propellers[1].rpm as int, kt);
                let f2 = prop_thrust(propellers[2].rpm as int, kt);
                let f3 = prop_thrust(propellers[3].rpm as int, kt);
                r.0.x as int == roll_torque(f0, f1, f2, f3, tdiv(dims.depth as int, 2))
                    && r.0.z as int == pitch_torque(f0, f1, f2, f3, tdiv(dims.width as int, 2))
            }),
            r.0.y as int == total_yaw(
                propellers[0].rpm as int,
                propellers[0].rotation_direction,
                propellers[1].rpm as int,
                propellers[1].rotation_direction,
                propellers[2].rpm as int,
                propellers[2].rotation_direction,
                propellers[3].rpm as int,
                propellers[3].rotation_direction,
                cfg.yaw_coeff as int,
            ),
            r.0.in_bounds(2_000_000_000_000_000_000),
    {
        let f0: i64 = prop_force(propellers[0].rpm as i64, cfg.thrust_coeff);
        let f1: i64 = prop_force(propellers[1].rpm as i64, cfg.thrust_coeff);
        let f2: i64 = prop_force(propellers[2].rpm as i64, cfg.thrust_coeff);
        let f3: i64 = prop_force(propellers[3].rpm as i64, cfg.thrust_coeff);
        proof {
            lemma_tdiv_fits(dims.depth as int, 1, 2, 100_000_000, 1);
            lemma_tdiv_fits(dims.width as int, 1, 2, 100_000_000, 1);
        }
        let hd: i64 = mul_div(dims.depth, 1, 2);
        let hw: i64 = mul_div(dims.width, 1, 2);
        proof {
            lemma_tdiv_fits(hd as int, f0 as int, SCALE as int, 50_000_000,
                10_000_000_000_000_000);
            lemma_tdiv_fits(hd as int, f1 as int, SCALE as int, 50_000_000,
                10_000_000_000_000_000);
            lemma_tdiv_fits(hd as int, f2 as int, SCALE as int, 50_000_000,
                10_000_000_000_000_000);
            lemma_tdiv_fits(hd as int, f3 as int, SCALE as int, 50_000_000,
                10_000_000_000_000_000);
            lemma_tdiv_fits(hw as int, f0 as int, SCALE as int, 50_000_000,
                10_000_000_000_000_000);
            lemma_tdiv_fits(hw as int, f1 as int, SCALE as int, 50_000_000,
                10_000_000_000_000_000);
            lemma_tdiv_fits(hw as int, f2 as int, SCALE as int, 50_000_000,
                10_000_000_000_000_000);
            lemma_tdiv_fits(hw as int, f3 as int, SCALE as int, 50_000_000,
                10_000_000_000_000_000);
        }
        let tx: i64 = mul_fixed(hd, f2) + mul_fixed(hd, f3) - mul_fixed(hd, f0) - mul_fixed(
            hd,
            f1,
        );
        let tz: i64 = mul_fixed(hw, f0) - mul_fixed(hw, f1) - mul_fixed(hw, f2) + mul_fixed(
            hw,
            f3,
        );
        let y0: i64 = yaw_of(&propellers[0], cfg);
        let y1: i64 = yaw_of(&propellers[1], cfg);
        let y2: i64 = yaw_of(&propellers[2], cfg);
        let y3: i64 = yaw_of(&propellers[3], cfg);
        let ty: i64 = y0 + y1 + y2 + y3;
        Torque(Vector3 { x: tx, y: ty, z: tz })
    }
}

/// The signed yaw contribution of one propeller.
fn yaw_of(p: &Propeller, cfg: &SimConfig) -> (r: i64)
    requires
        cfg.wf(),
        p.rpm <= RPM_LIMIT,
    ensures
        r as int == prop_yaw(p.rpm as int, p.rotation_direction, cfg.yaw_coeff as int),
        -10_000_000_000_000_000 <= r <= 10_000_000_000_000_000,
{
    let mag: i64 = prop_force(p.rpm as i64, cfg.yaw_coeff);
    match p.rotation_direction {
        RotationDirection::Clockwise => -mag,
        RotationDirection::CounterClockwise => mag,
    }
}

/// Four propellers at one common speed, alternating in spin direction
/// around the frame, produce no net yaw torque at all: the two
/// clockwise reactions cancel the two counter-clockwise ones exactly.
pub proof fn lemma_balanced_yaw(rpm: int, kq: int)
    ensures
        total_yaw(
            rpm,
            RotationDirection::Clockwise,
            rpm,
            RotationDirection::CounterClockwise,
            rpm,
            RotationDirection::Clockwise,
            rpm,
            RotationDirection::CounterClockwise,
            kq,
        ) == 0,
{
}

/// Unequal speeds between the two spin groups leave a net yaw torque
/// of the expected sign: when the clockwise pair runs faster, the body
/// is dragged counter-clockwise, so the net yaw is negative.
pub proof fn lemma_unbalanced_yaw(fast: int, slow: int, kq: int)
    requires
        0 <= slow < fast,
        1 <= kq,
    ensures
        total_yaw(
            fast,
            RotationDirection::Clockwise,
            slow,
            RotationDirection::CounterClockwise,
            fast,
            RotationDirection::Clockwise,
            slow,
            RotationDirection::CounterClockwise,
            kq,
        ) < 0,
{
    assert(slow * slow < fast * fast) by (nonlinear_arith)
        requires
            0 <= slow < fast,
    ;
    assert(kq * (slow * slow) - kq * (fast * fast) < 0) by (nonlinear_arith)
        requires
            slow * slow < fast * fast,
            1 <= kq,
    ;
}

} // verus!
