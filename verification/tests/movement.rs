//! The locomotion kernel exercised on concrete values: acceleration,
//! air acceleration, friction, and the default tuning.
//!
//! All quantities are fixed-point: 1000 counts per world unit, so 8 units/s
//! is 8_000 and dt = 0.016 s is 16.

use locomotion_core::kernel::{accelerate, air_accelerate, apply_friction};
use locomotion_core::agent::{PlayerState, Velocity};
use locomotion_core::tuning::MovementConfig;
use locomotion_core::vec3::Vec3;

fn horiz_norm_sq(v: Vec3) -> i64 {
    v.x * v.x + v.z * v.z
}

fn norm_sq(v: Vec3) -> i64 {
    v.x * v.x + v.y * v.y + v.z * v.z
}

// ==================== MovementConfig ====================

#[test]
fn test_movement_config_defaults() {
    let config = MovementConfig::default();

    assert_eq!(config.sv_maxspeed, 8_000);
    assert_eq!(config.sv_accelerate, 10_000);
    assert_eq!(config.sv_airaccelerate, 15_000);
    assert_eq!(config.sv_friction, 6_000);
    assert_eq!(config.sv_gravity, 20_000);
    assert_eq!(config.sv_jumpspeed, 7_000);
    assert_eq!(config.player_height, 1_800);
    assert_eq!(config.player_radius, 400);
}

// ==================== Accelerate ====================

#[test]
fn test_accelerate_from_standstill() {
    let velocity = Vec3 { x: 0, y: 0, z: 0 };
    let wish_dir = Vec3 { x: 0, y: 0, z: -1000 }; // Forward
    let wish_speed = 8_000;
    let accel = 10_000;
    let dt = 16; // ~60 fps

    let result = accelerate(velocity, wish_dir, wish_speed, accel, dt);

    // Should accelerate in wish direction
    assert!(result.z < 0);
    assert_eq!(result.x, 0);
    assert_eq!(result.y, 0);
}

#[test]
fn test_accelerate_already_at_max_speed() {
    let velocity = Vec3 { x: 0, y: 0, z: -8_000 }; // Already at max speed
    let wish_dir = Vec3 { x: 0, y: 0, z: -1000 };

    let result = accelerate(velocity, wish_dir, 8_000, 10_000, 16);

    // Should not accelerate further
    assert_eq!(result, velocity);
}

#[test]
fn test_accelerate_above_max_speed_no_change() {
    let velocity = Vec3 { x: 0, y: 0, z: -15_000 }; // Above max
    let wish_dir = Vec3 { x: 0, y: 0, z: -1000 };

    let result = accelerate(velocity, wish_dir, 8_000, 10_000, 16);

    // Should not change velocity when already above max
    assert_eq!(result, velocity);
}

#[test]
fn test_accelerate_perpendicular_strafe() {
    let velocity = Vec3 { x: 0, y: 0, z: -8_000 }; // Moving forward at max
    let wish_dir = Vec3 { x: 1000, y: 0, z: 0 }; // Strafe right

    let result = accelerate(velocity, wish_dir, 8_000, 10_000, 16);

    // Should add strafe velocity
    assert!(result.x > 0);
    // Forward velocity unchanged
    assert_eq!(result.z, velocity.z);
}

// ==================== Air Accelerate ====================

#[test]
fn test_air_accelerate_basic() {
    let velocity = Vec3 { x: 0, y: 0, z: -5_000 };
    let wish_dir = Vec3 { x: 1000, y: 0, z: 0 }; // Strafe

    let result = air_accelerate(velocity, wish_dir, 8_000, 20_000, 8_000, 30_000, 16);

    // Should gain speed in strafe direction
    assert!(result.x > 0);
}

#[test]
fn test_air_accelerate_speed_cap() {
    let velocity = Vec3 { x: 25_000, y: 0, z: -15_000 }; // High horizontal speed
    let wish_dir = Vec3 { x: 1000, y: 0, z: 0 };

    let result = air_accelerate(velocity, wish_dir, 8_000, 20_000, 8_000, 30_000, 16);

    // Should cap at 30 units/s horizontal
    assert!(horiz_norm_sq(result) <= 30_000 * 30_000);
}

#[test]
fn test_air_accelerate_preserves_vertical() {
    let velocity = Vec3 { x: 5_000, y: -10_000, z: 5_000 }; // Falling
    let wish_dir = Vec3 { x: 1000, y: 0, z: 0 };

    let result = air_accelerate(velocity, wish_dir, 8_000, 20_000, 8_000, 30_000, 16);

    // Y velocity should be unchanged
    assert_eq!(result.y, velocity.y);
}

// ==================== Friction ====================

#[test]
fn test_friction_reduces_speed() {
    let velocity = Vec3 { x: 0, y: 0, z: -8_000 };

    let result = apply_friction(velocity, 6_000, 2_500, 16);

    // Speed should decrease
    assert!(norm_sq(result) < norm_sq(velocity));
    // Direction should be preserved
    assert!(result.z < 0);
}

#[test]
fn test_friction_stops_slow_movement() {
    let velocity = Vec3 { x: 0, y: 0, z: -50 }; // Very slow (0.05 units/s)

    let result = apply_friction(velocity, 6_000, 2_500, 16);

    // Should stop completely
    assert_eq!(result, Vec3 { x: 0, y: 0, z: 0 });
}

#[test]
fn test_friction_preserves_direction() {
    let velocity = Vec3 { x: 3_000, y: 0, z: -4_000 }; // Diagonal movement

    let result = apply_friction(velocity, 6_000, 2_500, 16);

    // Same direction: the horizontal cross product is zero and the signs
    // are kept
    assert_eq!(result.x * velocity.z, result.z * velocity.x);
    assert!(result.x > 0);
    assert!(result.z < 0);
}

#[test]
fn test_friction_zero_velocity() {
    let velocity = Vec3 { x: 0, y: 0, z: 0 };

    let result = apply_friction(velocity, 6_000, 2_500, 16);

    assert_eq!(result, Vec3 { x: 0, y: 0, z: 0 });
}

// ==================== PlayerState ====================

#[test]
fn test_player_state_default() {
    let state = PlayerState::default();

    assert!(!state.grounded);
    assert!(!state.wish_jump);
}

// ==================== Velocity ====================

#[test]
fn test_velocity_default() {
    let vel = Velocity::default();

    assert_eq!(vel.0, Vec3 { x: 0, y: 0, z: 0 });
}

#[test]
fn test_horizontal_speed_readout() {
    // A 3-4-5 triangle in the horizontal plane; the vertical part is
    // ignored.
    let v = Vec3 { x: 3_000, y: 77, z: -4_000 };
    assert_eq!(v.horizontal_speed(), 5_000);

    let slow = Vec3 { x: 0, y: -9_000, z: 10 };
    assert_eq!(slow.horizontal_speed(), 10);
}

// ==================== Integration-style ====================

#[test]
fn test_bunny_hop_gains_speed() {
    // Simulate a bunny hop: forward velocity + strafe input in air
    let mut velocity = Vec3 { x: 0, y: 0, z: -8_000 };

    // Strafe right while moving forward, 45 degrees
    let wish_dir = Vec3 { x: 707, y: 0, z: -707 };

    let initial = horiz_norm_sq(velocity);

    // Apply air acceleration for several frames
    for _ in 0..10 {
        velocity = air_accelerate(velocity, wish_dir, 8_000, 20_000, 8_000, 30_000, 16);
    }

    // Speed should increase (bunny hop effect)
    assert!(horiz_norm_sq(velocity) > initial);
}

#[test]
fn test_ground_movement_caps_at_maxspeed() {
    let mut velocity = Vec3 { x: 0, y: 0, z: 0 };
    let wish_dir = Vec3 { x: 0, y: 0, z: -1000 };

    // Accelerate for many frames
    for _ in 0..1000 {
        velocity = accelerate(velocity, wish_dir, 8_000, 10_000, 16);
    }

    // Should cap at wish_speed — along an axis the cap is reached exactly
    assert!(norm_sq(velocity) <= 8_000 * 8_000);
    assert_eq!(velocity, Vec3 { x: 0, y: 0, z: -8_000 });
}
