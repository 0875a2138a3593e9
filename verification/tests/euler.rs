use hadeda::telemetry::Orientation;
use nalgebra::{Quaternion, UnitQuaternion};

#[test]
fn euler_angles_round_trip_within_tolerance() {
    let cases: [(f64, f64, f64); 5] = [
        (0.0, 0.0, 0.0),
        (0.1, 0.2, 0.3),
        (-1.0, 0.5, 2.0),
        (3.0, -1.2, -3.0),
        (1.5, 1.5, -1.5),
    ];
    for (roll, pitch, yaw) in cases {
        let quat = UnitQuaternion::from_euler_angles(roll, pitch, yaw);
        let (r, p, y) = quat.euler_angles();
        assert!((r - roll).abs() < 1e-9 && (p - pitch).abs() < 1e-9 && (y - yaw).abs() < 1e-9);
        let rebuilt = UnitQuaternion::from_euler_angles(r, p, y);
        assert!(quat.angle_to(&rebuilt) < 1e-9);
    }
}

#[test]
fn orientation_keeps_every_bit_of_the_quaternion() {
    let quat: UnitQuaternion<f64> = UnitQuaternion::from_euler_angles(0.3, -0.7, 1.9);
    let orientation = Orientation {
        w: quat.w.to_bits(),
        i: quat.i.to_bits(),
        j: quat.j.to_bits(),
        k: quat.k.to_bits(),
    };
    let copy = orientation;
    let back = UnitQuaternion::new_unchecked(Quaternion::new(
        f64::from_bits(copy.w),
        f64::from_bits(copy.i),
        f64::from_bits(copy.j),
        f64::from_bits(copy.k),
    ));
    assert_eq!(back, quat);
    assert_eq!(back.euler_angles(), quat.euler_angles());
}
