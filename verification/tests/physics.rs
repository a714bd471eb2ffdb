//! Vector and quaternion arithmetic, checked on concrete values.
//!
//! Quantities are fixed point: one unit is 1_000_000 steps.

use elea::quaternion::{Axis3D, Quaternion};
use elea::state::{LinearVelocity, Position};
use elea::util::EleaError;
use elea::vector::Vector3;

#[test]
fn types_test_magnitude() {
    let axis = Axis3D::new(6_000_000, 8_000_000, 0);
    assert_eq!(axis.magnitude(), 10_000_000);
}

#[test]
fn vector_test_magnitude() {
    let axis = Vector3::new(6_000_000, 8_000_000, 0);
    assert_eq!(axis.magnitude(), 10_000_000);
}

#[test]
fn test_quaternion_90_degrees_z_axis() {
    let quaternion = Quaternion::new(90_000_000, 0, 0, 1_000_000);

    // Check angle (real part): cos of the half angle, about 0.7071.
    assert!((quaternion.angle.0 - 707_100i64).abs() < 1_000);
    // Check z component: sin of the half angle, about 0.7071.
    assert!((quaternion.axis.z - 707_100i64).abs() < 1_000);
}

#[test]
fn test_vector_unit_vector_implementation() {
    // Test with a 3-4-5 triangle (magnitude = 5)
    let velocity = LinearVelocity::new(3_000_000, 4_000_000, 0);
    let unit_velocity = velocity.unit_vector().unwrap();

    assert_eq!(unit_velocity.x, 600_000);
    assert_eq!(unit_velocity.y, 800_000);
    assert_eq!(unit_velocity.z, 0);

    // Test with already normalized vector
    let position = Position::new(1_000_000, 0, 0);
    let unit_position = position.unit_vector().unwrap();
    assert_eq!(unit_position.x, 1_000_000);
    assert_eq!(unit_position.y, 0);
    assert_eq!(unit_position.z, 0);
}

#[test]
fn unit_vector_of_zero_vector_is_a_domain_error() {
    let v = Vector3::new(0, 0, 0);
    assert!(matches!(v.unit_vector(), Err(EleaError::InvalidData(_))));
}

#[test]
fn unit_vector_magnitude_stays_near_one() {
    // A diagonal whose normalization cannot be exact: the result's
    // magnitude still lands within three millionths of one.
    let v = Vector3::new(1_000_000, 1_000_000, 0);
    let u = v.unit_vector().unwrap();
    let m = u.magnitude();
    assert!((m - 1_000_000i64).abs() <= 3);
}

#[test]
fn vector_componentwise_operators() {
    let a = Vector3::new(1_000_000, 2_000_000, -3_000_000);
    let b = Vector3::new(500_000, -500_000, 1_000_000);
    let s = a.add(&b);
    assert_eq!((s.x, s.y, s.z), (1_500_000, 1_500_000, -2_000_000));
    let d = a.sub(&b);
    assert_eq!((d.x, d.y, d.z), (500_000, 2_500_000, -4_000_000));
    let n = a.neg();
    assert_eq!((n.x, n.y, n.z), (-1_000_000, -2_000_000, 3_000_000));
    let m = a.mul(&b);
    assert_eq!((m.x, m.y, m.z), (500_000, -1_000_000, -3_000_000));
    let q = a.div(&b);
    assert_eq!((q.x, q.y, q.z), (2_000_000, -4_000_000, -3_000_000));
}

#[test]
fn vector_scalar_operators() {
    let a = Vector3::new(1_000_000, -2_000_000, 500_000);
    let doubled = a.scalar_mul(2_000_000);
    assert_eq!((doubled.x, doubled.y, doubled.z), (2_000_000, -4_000_000, 1_000_000));
    let halved = a.scalar_div(2_000_000);
    assert_eq!((halved.x, halved.y, halved.z), (500_000, -1_000_000, 250_000));
}

#[test]
fn cross_product_of_axes() {
    // x cross y = z.
    let x = Vector3::new(1_000_000, 0, 0);
    let y = Vector3::new(0, 1_000_000, 0);
    let z = x.cross(&y);
    assert_eq!((z.x, z.y, z.z), (0, 0, 1_000_000));
}

#[test]
fn quaternion_of_zero_angle_is_identity() {
    let q = Quaternion::new(0, 0, 0, 1_000_000);
    assert_eq!(q.angle.0, 1_000_000);
    assert_eq!((q.axis.x, q.axis.y, q.axis.z), (0, 0, 0));
}

#[test]
fn quaternion_default_is_identity() {
    let q = Quaternion::default();
    assert_eq!(q.angle.0, 1_000_000);
    assert_eq!((q.axis.x, q.axis.y, q.axis.z), (0, 0, 0));
    assert_eq!(q.magnitude(), 1_000_000);
}

#[test]
fn quaternion_renormalize_restores_unit_magnitude() {
    // A quaternion pushed off the unit sphere comes back within three
    // millionths of it.
    let q = Quaternion {
        angle: elea::quaternion::Angle(1_100_000),
        axis: Axis3D { x: 120_000, y: -44_000, z: 230_000 },
    };
    let r = q.renormalize();
    assert!((r.magnitude() - 1_000_000i64).abs() <= 3);
}

#[test]
fn quaternion_composition_adds_angles() {
    // Two 45-degree rotations about z compose, via the Hamilton
    // product, to within a thousandth of one 90-degree rotation.
    let q45 = Quaternion::new(45_000_000, 0, 0, 1_000_000);
    let composed = q45.mul(&q45);
    let q90 = Quaternion::new(90_000_000, 0, 0, 1_000_000);
    assert!((composed.angle.0 - q90.angle.0).abs() < 1_000);
    assert!((composed.axis.z - q90.axis.z).abs() < 1_000);
    assert!(composed.axis.x.abs() < 1_000 && composed.axis.y.abs() < 1_000);
}

#[test]
fn half_turn_quaternion() {
    // 180 degrees about z: scalar part about 0, z about 1.
    let q = Quaternion::new(180_000_000, 0, 0, 1_000_000);
    assert!(q.angle.0.abs() < 1_000);
    assert!((q.axis.z - 1_000_000i64).abs() < 1_000);
}
