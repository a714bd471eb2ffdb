//! Whole-simulator scenarios: forces, torques, integration and pacing.

use elea::clock::{pace, TickPacing};
use elea::config::SimConfig;
use elea::drone::{Propeller, RotationDirection};
use elea::force::Forces;
use elea::state::AngularVelocity;
use elea::torque::Torque;
use elea::util::EleaError;
use elea::DroneSimulator;

fn props(rpms: [usize; 4]) -> [Propeller; 4] {
    [
        Propeller { rpm: rpms[0], rotation_direction: RotationDirection::Clockwise },
        Propeller { rpm: rpms[1], rotation_direction: RotationDirection::CounterClockwise },
        Propeller { rpm: rpms[2], rotation_direction: RotationDirection::Clockwise },
        Propeller { rpm: rpms[3], rotation_direction: RotationDirection::CounterClockwise },
    ]
}

#[test]
fn net_force_at_rest_is_weight() {
    // 200 kg body at rest, propellers stopped: net force is
    // mass * 9.81 downward, exactly, and nothing else.
    let mut sim = DroneSimulator::new();
    assert!(sim.ready());
    sim.advance().unwrap();
    let f = &sim.drone.body.forces;
    assert_eq!((f.thrust.0.x, f.thrust.0.y, f.thrust.0.z), (0, 0, 0));
    assert_eq!((f.weight.0.x, f.weight.0.y, f.weight.0.z), (0, -1_962_000_000, 0));
    assert_eq!((f.drag.0.x, f.drag.0.y, f.drag.0.z), (0, 0, 0));
}

#[test]
fn free_fall_first_tick_displacement() {
    // One 16 ms tick from rest: acceleration -9.81, velocity
    // -9.81 * dt, displacement (velocity * dt) -- the semi-implicit
    // scheme applies the full updated velocity for the whole step, so
    // the drop is a * dt^2, about twice the ideal half-a-t-squared,
    // well within one scheme order of it.
    let mut sim = DroneSimulator::new();
    sim.advance().unwrap();
    let b = &sim.drone.body;
    assert_eq!(b.acceleration.0.y, -9_810_000);
    assert_eq!(b.linear_velocity.0.y, -156_960);
    assert_eq!(b.position.0.y, -2_511);
    assert_eq!((b.position.0.x, b.position.0.z), (0, 0));
}

#[test]
fn orientation_magnitude_survives_many_steps() {
    // A constant nonzero spin, integrated for two hundred ticks: the
    // orientation quaternion's magnitude never drifts more than three
    // millionths from one.
    let mut sim = DroneSimulator::new();
    sim.drone.body.angular_velocity = AngularVelocity::new(200_000, 0, 500_000);
    for _ in 0..200 {
        sim.advance().unwrap();
        let m = sim.drone.body.orientation.0.magnitude();
        assert!((m - 1_000_000i64).abs() <= 3);
    }
    // The orientation really turned away from the identity.
    assert!(sim.drone.body.orientation.0.axis.z.abs() > 100_000);
}

#[test]
fn pacing_under_budget_sleeps_the_remainder() {
    let sim = DroneSimulator::new();
    // Budget is 16 ms; a 10 ms tick sleeps exactly the other 6 ms.
    assert_eq!(sim.pace(10_000_000), TickPacing::Sleep(6_000_000));
    assert_eq!(pace(16_000_000, 15_999_999), TickPacing::Sleep(1));
}

#[test]
fn pacing_over_budget_reports_the_overrun() {
    let sim = DroneSimulator::new();
    assert_eq!(sim.pace(20_000_000), TickPacing::Overrun(4_000_000));
    // Exactly on budget counts as an overrun of zero, not a sleep.
    assert_eq!(pace(16_000_000, 16_000_000), TickPacing::Overrun(0));
}

#[test]
fn balanced_propellers_produce_no_yaw_torque() {
    let sim = DroneSimulator::new();
    let tq = Torque::from_propellers(
        &props([3_000, 3_000, 3_000, 3_000]),
        &sim.drone.body.dimensions,
        &sim.config,
    );
    assert_eq!(tq.0.y, 0);
    // Equal thrust at the four corners also cancels roll and pitch.
    assert_eq!((tq.0.x, tq.0.z), (0, 0));
}

#[test]
fn unbalanced_propellers_yaw_with_the_expected_sign() {
    let sim = DroneSimulator::new();
    // The clockwise pair runs faster, so the reaction drags the body
    // counter-clockwise: a negative yaw torque.
    let tq = Torque::from_propellers(
        &props([2_000, 1_000, 2_000, 1_000]),
        &sim.drone.body.dimensions,
        &sim.config,
    );
    assert_eq!(tq.0.y, -6_000_000);
    // And the mirror image yaws the other way.
    let tq2 = Torque::from_propellers(
        &props([1_000, 2_000, 1_000, 2_000]),
        &sim.drone.body.dimensions,
        &sim.config,
    );
    assert_eq!(tq2.0.y, 6_000_000);
}

#[test]
fn hover_thrust_counters_weight() {
    // With the default thrust coefficient, four propellers at 7000
    // rpm lift 1960 N against 1962 N of weight: the net vertical
    // force is 2 N down.
    let mut sim = DroneSimulator::new();
    sim.drone.propellers = props([7_000, 7_000, 7_000, 7_000]);
    sim.advance().unwrap();
    let f = &sim.drone.body.forces;
    assert_eq!(f.thrust.0.y, 1_960_000_000);
    assert_eq!(f.weight.0.y, -1_962_000_000);
}

#[test]
fn forces_recompute_from_inputs() {
    let mut forces = Forces::default();
    let cfg = SimConfig::default();
    let velocity = elea::state::LinearVelocity::new(0, 0, 0);
    // One kilogram at rest, no thrust: the net force is one
    // kilogram-weight down.
    let net = forces.calculate_forces(1_000_000, &velocity, &props([0, 0, 0, 0]), &cfg).unwrap();
    assert_eq!((net.0.x, net.0.y, net.0.z), (0, -9_810_000, 0));
}

#[test]
fn drag_opposes_motion() {
    let mut forces = Forces::default();
    let cfg = SimConfig::default();
    // Moving at 10 m/s along x: drag is k * rho * |v| * v against it,
    // with k * rho = 1, so 100 N backwards.
    let velocity = elea::state::LinearVelocity::new(10_000_000, 0, 0);
    let net = forces
        .calculate_forces(200_000_000, &velocity, &props([0, 0, 0, 0]), &cfg)
        .unwrap();
    assert_eq!(forces.drag.0.x, -100_000_000);
    assert_eq!(net.0.x, -100_000_000);
    assert_eq!(forces.drag.0.y, 0);
}

#[test]
fn advance_rejects_a_body_out_of_range() {
    let mut sim = DroneSimulator::new();
    sim.drone.body.mass = 0;
    assert!(matches!(sim.advance(), Err(EleaError::InvalidData(_))));
    // The failed tick left the state untouched.
    assert_eq!(sim.drone.body.mass, 0);
    assert_eq!(sim.drone.body.position.0.y, 0);
}

#[test]
fn constructors_carry_their_fields() {
    let dims = elea::body::Dimensions3D::new(1_000_000, 2_000_000, 3_000_000);
    assert_eq!((dims.height, dims.width, dims.depth), (1_000_000, 2_000_000, 3_000_000));

    let body = elea::body::RigidBody::new(1_000_000, 2_000_000, 3_000_000);
    assert_eq!(body.dimensions, dims);
    assert_eq!(body.mass, 200_000_000);
    assert_eq!(body.center_of_mass(), body.position);
    assert_eq!(body.orientation.0.angle.0, 1_000_000);

    let axis = elea::quaternion::Axis3D::new(7, 8, 9);
    let o = elea::state::Orientation::from_axis3d(axis);
    assert_eq!(o.0.angle.0, 0);
    assert_eq!(*o.axis3d(), axis);

    let f = elea::force::ForceVector::new(1, 2, 3);
    assert_eq!((f.0.x, f.0.y, f.0.z), (1, 2, 3));
    let tq = Torque::new(4, 5, 6);
    assert_eq!((tq.0.x, tq.0.y, tq.0.z), (4, 5, 6));
    let acc = elea::state::Acceleration::new(1, 1, 1);
    assert_eq!(acc.0.x, 1);
    let av = AngularVelocity::new(2, 2, 2);
    assert_eq!(av.0.z, 2);

    let t = elea::force::Thrust::default();
    let w = elea::force::Weight::default();
    let d = elea::force::Drag::default();
    assert_eq!((t.0.x, w.0.y, d.0.z), (0, 0, 0));

    let p = Propeller::default();
    assert_eq!(p.rpm, 0);
    assert_eq!(p.rotation_direction, RotationDirection::default());
}

#[test]
fn simulator_start_succeeds() {
    let mut sim = DroneSimulator::new();
    assert!(sim.start().is_ok());
    assert_eq!(sim.config.delta_time, 16_000);
    assert_eq!(sim.drone.body.mass, 200_000_000);
}
