//! The drone itself: a rigid body plus its four propellers.
//!
//! The propellers are the control input of the physics core: each tick
//! the control subsystem hands over one reading per propeller, and the
//! force model turns those readings into thrust and torque. Adjacent
//! propellers spin in opposite directions so that balanced revolutions
//! cancel their reaction torques.

use crate::body::RigidBody;
use vstd::prelude::*;

verus! {

/// The sense in which a propeller turns, viewed from above.
#[derive(Clone, Copy, Debug, PartialEq, Eq, Structural)]
pub enum RotationDirection {
    Clockwise,
    CounterClockwise,
}

/// One propeller reading for the current tick: how fast it turns, in
/// revolutions per minute, and in which direction.
#[derive(Clone, Copy, Debug, PartialEq, Eq, Structural)]
pub struct Propeller {
    pub rpm: usize,
    pub rotation_direction: RotationDirection,
}

impl core::default::Default for RotationDirection {
    fn default() -> (r: Self)
        ensures
            r == RotationDirection::Clockwise,
    {
        RotationDirection::Clockwise
    }
}

impl core::default::Default for Propeller {
    /// A propeller at rest.
    fn default() -> (r: Self)
        ensures
            r.rpm == 0,
            r.rotation_direction == RotationDirection::Clockwise,
    {
        Propeller { rpm: 0, rotation_direction: RotationDirection::Clockwise }
    }
}

/// The whole vehicle: its rigid body and the four propeller readings
/// of the current tick, ordered around the frame so that neighbours
/// alternate spin direction.
#[derive(Clone, Copy, Debug)]
pub struct Drone {
    pub body: RigidBody,
    pub propellers: [Propeller; 4],
}

impl core::default::Default for Drone {
    /// A ten-metre cube of a test body, at rest, propellers stopped
    /// and alternating in spin direction.
    fn default() -> (r: Self)
        ensures
            r.body.is_initial(10_000_000, 10_000_000, 10_000_000),
            r.propellers[0].rpm == 0 && r.propellers[1].rpm == 0 && r.propellers[2].rpm == 0
                && r.propellers[3].rpm == 0,
            r.propellers[0].rotation_direction == RotationDirection::Clockwise,
            r.propellers[1].rotation_direction == RotationDirection::CounterClockwise,
            r.propellers[2].rotation_direction == RotationDirection::Clockwise,
            r.propellers[3].rotation_direction == RotationDirection::CounterClockwise,
    {
        Drone {
            body: RigidBody::new(10_000_000, 10_000_000, 10_000_000),
            propellers: [
                Propeller { rpm: 0, rotation_direction: RotationDirection::Clockwise },
                Propeller { rpm: 0, rotation_direction: RotationDirection::CounterClockwise },
                Propeller { rpm: 0, rotation_direction: RotationDirection::Clockwise },
                Propeller { rpm: 0, rotation_direction: RotationDirection::CounterClockwise },
            ],
        }
    }
}

} // verus!
