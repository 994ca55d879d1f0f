//! Scenario tests over the ground resolver, the collision resolver, and
//! whole simulation ticks: step-up, slope walking, wall push-out, the
//! strafe-jump speed gain, and the jump arc.

use locomotion_core::agent::AgentState;
use locomotion_core::collide::{floor_clamp, resolve_slopes, resolve_walls};
use locomotion_core::ground::{floor_top, resolve_ground};
use locomotion_core::kernel::{air_accelerate, apply_friction};
use locomotion_core::level::Volume;
use locomotion_core::tick::{player_movement, tick};
use locomotion_core::tuning::MovementConfig;
use locomotion_core::vec3::Vec3;

fn horiz_norm_sq(v: Vec3) -> i64 {
    v.x * v.x + v.z * v.z
}

// ==================== Air strafe speed gain ====================

#[test]
fn test_air_strafe_speed_gain() {
    // Starting at 8 units/s forward, strafing perpendicular with a small
    // air wish cap (1.5) but a full wish speed (7.5) strictly gains
    // horizontal speed.
    let mut velocity = Vec3 { x: 0, y: 0, z: -8_000 };
    let wish_dir = Vec3 { x: 1000, y: 0, z: 0 };

    let initial = horiz_norm_sq(velocity);

    for _ in 0..30 {
        velocity = air_accelerate(velocity, wish_dir, 7_500, 12_000, 1_500, 25_000, 16);
    }

    assert!(horiz_norm_sq(velocity) > initial);
    // The first step adds accel * wish_speed * dt = 1.44 along x, the rest
    // tops the perpendicular component up to the 1.5 air wish cap.
    assert_eq!(velocity, Vec3 { x: 1_500, y: 0, z: -8_000 });
}

#[test]
fn test_air_speed_cap_rescale_exact() {
    // A step that lands above the cap is rescaled onto it, leaving the
    // vertical component alone.
    let velocity = Vec3 { x: 29_900, y: 0, z: -100 };
    let wish_dir = Vec3 { x: 0, y: 0, z: -1000 };

    let result = air_accelerate(velocity, wish_dir, 8_000, 20_000, 8_000, 30_000, 16);

    // Increment gives (29_900, 0, -2_660), horizontal length 30_018; the
    // rescale by 30_000 / 30_018 lands just under the cap.
    assert_eq!(result, Vec3 { x: 29_882, y: 0, z: -2_658 });
    assert!(horiz_norm_sq(result) <= 30_000 * 30_000);
}

// ==================== Friction exact drop ====================

#[test]
fn test_friction_exact_drop() {
    // At 8 units/s with friction 6 and dt 0.016: drop = 8 * 6 * 0.016 =
    // 0.768, so the new speed is exactly 7.232.
    let velocity = Vec3 { x: 0, y: 0, z: -8_000 };

    let result = apply_friction(velocity, 6_000, 2_500, 16);

    assert_eq!(result, Vec3 { x: 0, y: 0, z: -7_232 });
}

// ==================== Ground resolver step-up ====================

#[test]
fn test_ground_step_up_accepted() {
    // Height 1.0 puts the feet 0.5 under the center.  A floor top 0.55
    // above the feet is within max_step_up = 0.6 and supports the agent.
    let mut config = MovementConfig::default();
    config.player_height = 1_000;

    let position = Vec3 { x: 0, y: 1_000, z: 0 }; // feet at 500
    let floor = Volume::floor(
        Vec3 { x: 0, y: 525, z: 0 },
        Vec3 { x: 1_000, y: 525, z: 1_000 },
    ); // top at 1_050 = feet + 550
    let volumes = vec![floor];

    let (gh, _) = resolve_ground(position, 0, &volumes, &config);
    assert_eq!(gh, 1_050);
}

#[test]
fn test_ground_step_up_rejected() {
    // A floor top 0.8 above the feet exceeds max_step_up and is above the
    // agent's center, so the baseline at 0 stands.
    let mut config = MovementConfig::default();
    config.player_height = 1_000;

    let position = Vec3 { x: 0, y: 1_000, z: 0 }; // feet at 500
    let floor = Volume::floor(
        Vec3 { x: 0, y: 650, z: 0 },
        Vec3 { x: 1_000, y: 650, z: 1_000 },
    ); // top at 1_300 = feet + 800
    let volumes = vec![floor];

    let (gh, grounded) = resolve_ground(position, 0, &volumes, &config);
    assert_eq!(gh, 0);
    // Feet at 500 are far above the baseline: airborne.
    assert!(!grounded);
}

#[test]
fn test_ground_step_up_accepted_from_above() {
    // The same too-tall floor supports an agent already above it.
    let mut config = MovementConfig::default();
    config.player_height = 1_000;

    let position = Vec3 { x: 0, y: 1_400, z: 0 }; // center above the 1_300 top
    let floor = Volume::floor(
        Vec3 { x: 0, y: 650, z: 0 },
        Vec3 { x: 1_000, y: 650, z: 1_000 },
    );
    let volumes = vec![floor];

    let (gh, _) = resolve_ground(position, 0, &volumes, &config);
    assert_eq!(gh, 1_300);
}

// ==================== Slope walk ====================

#[test]
fn test_slope_walk_height() {
    // A slope rising 0.2 per unit: 10 units along the rise direction from
    // the center, the surface is 2.0 above the nominal top.
    let config = MovementConfig::default();
    let slope = Volume::slope(
        Vec3 { x: 0, y: 500, z: 0 },
        Vec3 { x: 20_000, y: 500, z: 20_000 },
        Vec3 { x: 1000, y: 0, z: 0 },
        200,
    ); // nominal top at 1_000

    let standing = Vec3 { x: 10_000, y: 3_900, z: 0 }; // feet at 3_000
    assert_eq!(floor_top(&slope, standing), 3_000);

    // Standing within tolerance of that height reads as grounded.
    let volumes = vec![slope];
    let (gh, grounded) = resolve_ground(standing, 0, &volumes, &config);
    assert_eq!(gh, 3_000);
    assert!(grounded);
}

#[test]
fn test_slope_embedded_pushes_up() {
    // An agent embedded 1.8 under the slope surface (deeper than the
    // steppable gap, shallower than the push-up sanity bound) is pushed up
    // onto the surface and its fall is stopped.
    let config = MovementConfig::default();
    let slope = Volume::slope(
        Vec3 { x: 0, y: 0, z: 0 },
        Vec3 { x: 5_000, y: 1_000, z: 5_000 },
        Vec3 { x: 1000, y: 0, z: 0 },
        200,
    ); // top at 1_000 over the center
    let volumes = vec![slope];

    let position = Vec3 { x: 0, y: 100, z: 0 }; // feet at -800
    let velocity = Vec3 { x: 2_000, y: -3_000, z: 0 };

    let (pos, vel) = resolve_slopes(position, velocity, &volumes, &config);
    assert_eq!(pos, Vec3 { x: 0, y: 1_900, z: 0 }); // feet on the surface
    assert_eq!(vel, Vec3 { x: 2_000, y: 0, z: 0 });
}

// ==================== Wall push-out ====================

#[test]
fn test_wall_pushout_exact() {
    // After one pass the distance to the wall center along the resolved
    // axis is exactly half_extent + agent_radius.
    let config = MovementConfig::default(); // radius 400
    let wall = Volume::wall(
        Vec3 { x: 0, y: 1_000, z: 0 },
        Vec3 { x: 1_000, y: 1_000, z: 1_000 },
    );
    let volumes = vec![wall];

    let position = Vec3 { x: 1_200, y: 900, z: 100 }; // 0.2 into the x face
    let velocity = Vec3 { x: -500, y: 0, z: 300 };

    let (pos, vel) = resolve_walls(position, velocity, &volumes, &config);
    assert_eq!(pos.x, 1_400); // wall center 0 plus half_extent + radius, exactly
    assert_eq!(pos.z, 100);
    assert_eq!(pos.y, 900);
    // The inward velocity component is clamped, the rest kept.
    assert_eq!(vel, Vec3 { x: 0, y: 0, z: 300 });
}

#[test]
fn test_floor_clamp_lands() {
    let config = MovementConfig::default(); // height 1_800
    let position = Vec3 { x: 0, y: 700, z: 0 }; // feet at -200
    let velocity = Vec3 { x: 1_000, y: -2_000, z: 0 };

    let (pos, vel) = floor_clamp(position, velocity, 0, &config);
    assert_eq!(pos, Vec3 { x: 0, y: 900, z: 0 }); // feet snapped to 0
    assert_eq!(vel, Vec3 { x: 1_000, y: 0, z: 0 });
}

#[test]
fn test_wall_tie_resolves_z() {
    // Equal penetration on both axes resolves on z.
    let config = MovementConfig::default();
    let wall = Volume::wall(
        Vec3 { x: 0, y: 1_000, z: 0 },
        Vec3 { x: 1_000, y: 1_000, z: 1_000 },
    );
    let volumes = vec![wall];

    let position = Vec3 { x: 1_200, y: 900, z: 1_200 }; // 0.2 into both faces
    let velocity = Vec3 { x: 0, y: 0, z: 0 };

    let (pos, _) = resolve_walls(position, velocity, &volumes, &config);
    assert_eq!(pos.x, 1_200);
    assert_eq!(pos.z, 1_400);
}

#[test]
fn test_slope_side_pushout() {
    // Embedded deep under the surface but close to the x face: the
    // horizontal penetration is the smallest correction.
    let config = MovementConfig::default();
    let slope = Volume::slope(
        Vec3 { x: 0, y: 0, z: 0 },
        Vec3 { x: 1_000, y: 1_000, z: 1_000 },
        Vec3 { x: 1000, y: 0, z: 0 },
        200,
    );
    let volumes = vec![slope];

    // Surface at x = 1.3 is 1_260; feet at 0 are 1.26 under it, and only
    // 0.1 from the x face.
    let position = Vec3 { x: 1_300, y: 900, z: 0 };
    let velocity = Vec3 { x: -800, y: 0, z: 0 };

    let (pos, vel) = resolve_slopes(position, velocity, &volumes, &config);
    assert_eq!(pos, Vec3 { x: 1_400, y: 900, z: 0 });
    assert_eq!(vel, Vec3 { x: 0, y: 0, z: 0 });
}

// ==================== Baseline ground plane ====================

#[test]
fn test_empty_colliders_baseline() {
    // With no volumes at all the resolver falls back to the world
    // baseline at height 0.
    let config = MovementConfig::default();
    let volumes: Vec<Volume> = vec![];

    let standing = Vec3 { x: 5_000, y: 900, z: -3_000 }; // feet at 0
    let (gh, grounded) = resolve_ground(standing, 0, &volumes, &config);
    assert_eq!(gh, 0);
    assert!(grounded);

    let falling = Vec3 { x: 5_000, y: 5_000, z: -3_000 };
    let (gh2, grounded2) = resolve_ground(falling, -2_000, &volumes, &config);
    assert_eq!(gh2, 0);
    assert!(!grounded2);
}

#[test]
fn test_accelerate_exact_step() {
    // One step from standstill adds accel * wish_speed * dt = 1.28 along
    // the wish direction.
    let velocity = Vec3 { x: 0, y: 0, z: 0 };
    let wish_dir = Vec3 { x: 0, y: 0, z: -1000 };

    let result = locomotion_core::kernel::accelerate(velocity, wish_dir, 8_000, 10_000, 16);
    assert_eq!(result, Vec3 { x: 0, y: 0, z: -1_280 });
}

// ==================== Jump arc ====================

#[test]
fn test_jump_arc() {
    // Grounded with jump held: the vertical velocity becomes the jump
    // speed at once, and after one 0.1 s tick gravity has taken 1.2 off it
    // and the position has risen by the integrated velocity.
    let mut config = MovementConfig::default();
    config.sv_jumpspeed = 6_200;
    config.sv_gravity = 12_000;

    // The jump itself: vertical velocity becomes 6.2 immediately.
    let mut jumper = AgentState::spawn(Vec3 { x: 0, y: 900, z: 0 });
    jumper.state.grounded = true;
    jumper.state.wish_jump = true;
    player_movement(&mut jumper, &config, 100);
    assert_eq!(jumper.velocity.0.y, 6_200);
    assert!(!jumper.state.grounded);

    // A whole tick without collision: gravity then integration.
    let mut agent = AgentState::spawn(Vec3 { x: 0, y: 900, z: 0 }); // feet at 0
    agent.state.wish_jump = true;
    let volumes: Vec<Volume> = vec![];
    tick(&mut agent, &volumes, &config, 100);

    assert_eq!(agent.velocity.0.y, 5_000); // 6.2 - 12.0 * 0.1 = 5.0
    assert_eq!(agent.position.y, 900 + 500); // risen by 5.0 * 0.1
    assert!(!agent.state.grounded);
}

#[test]
fn test_walk_reaches_ground_cap() {
    // Running forward on flat ground: friction and acceleration settle at
    // exactly the max ground speed, and the agent stays grounded.
    let config = MovementConfig::default();
    let volumes: Vec<Volume> = vec![];
    let mut agent = AgentState::spawn(Vec3 { x: 0, y: 900, z: 0 }); // feet at 0
    agent.set_intent(Vec3 { x: 0, y: 0, z: -1000 }, false);

    for _ in 0..100 {
        tick(&mut agent, &volumes, &config, 16);
    }

    assert!(agent.state.grounded);
    assert_eq!(agent.velocity.0, Vec3 { x: 0, y: 0, z: -8_000 });
    assert!(agent.position.z < -10_000);
    assert_eq!(agent.position.y, 900);
}

#[test]
fn test_auto_hop_on_landing() {
    // Holding jump: an agent that falls onto the floor is grounded, jumps
    // the very tick it lands, and leaves the ground again.
    let config = MovementConfig::default();
    let volumes: Vec<Volume> = vec![];
    let mut agent = AgentState::spawn(Vec3 { x: 0, y: 1_500, z: 0 }); // feet at 600
    agent.state.wish_jump = true;

    // Only a jump can make the vertical velocity positive; after the jump
    // tick it reads jump_speed minus one tick of gravity.
    let mut jumped = false;
    for _ in 0..100 {
        tick(&mut agent, &volumes, &config, 16);
        if agent.velocity.0.y > 0 {
            jumped = true;
            assert_eq!(agent.velocity.0.y, config.sv_jumpspeed - 320);
            break;
        }
    }
    assert!(jumped);
}
