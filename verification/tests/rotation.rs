use bevy::prelude::Transform;
use daedalus::rotation::{RotationController, RotationDirection, RotationMode};

#[test]
fn rotation_direction_sign_matches_legacy_bool() {
    assert_eq!(RotationDirection::Clockwise.sign() as f32, 1.0);
    assert_eq!(RotationDirection::CounterClockwise.sign() as f32, -1.0);
}

#[test]
fn rotation_mode_cycles_in_debug_order() {
    assert_eq!(RotationMode::Forward.next(), RotationMode::Stopped);
    assert_eq!(RotationMode::Stopped.next(), RotationMode::Reverse);
    assert_eq!(RotationMode::Reverse.next(), RotationMode::Forward);
}

/// The velocity is the product of sense, mode and speed, bit for bit.
#[test]
fn signed_speed_is_the_product_of_its_factors() {
    let speed: f32 = 0.8 * std::f32::consts::PI;
    for direction in [RotationDirection::Clockwise, RotationDirection::CounterClockwise] {
        for mode in [RotationMode::Forward, RotationMode::Stopped, RotationMode::Reverse] {
            let expected = direction.sign() as f32 * mode.scale() as f32 * speed;
            let got = RotationController::new(direction).signed_speed(mode);
            assert_eq!(got.bits, expected.to_bits());
        }
    }
}

#[test]
fn outpost_turns_forward_by_default() {
    assert_eq!(RotationMode::default(), RotationMode::Forward);
}

/// What turns the outpost and what the ground truth reports are the same number.
#[test]
fn signed_speed_matches_what_step_actually_rotates() {
    for (direction, mode) in [
        (RotationDirection::Clockwise, RotationMode::Forward),
        (RotationDirection::Clockwise, RotationMode::Reverse),
        (RotationDirection::CounterClockwise, RotationMode::Forward),
        (RotationDirection::CounterClockwise, RotationMode::Stopped),
    ] {
        let c = RotationController::new(direction);
        let dt = 0.01;
        let speed = f32::from_bits(c.signed_speed(mode).bits);
        let mut t = Transform::IDENTITY;
        t.rotate_y(speed * dt);
        let (axis, angle) = t.rotation.to_axis_angle();
        let signed = angle * axis.y.signum();
        let expected = direction.sign() as f32 * mode.scale() as f32 * 0.8 * std::f32::consts::PI * dt;
        assert!(
            (signed - expected).abs() < 1e-6,
            "{direction:?}/{mode:?}: turned {signed}, expected {expected}"
        );
    }
}
