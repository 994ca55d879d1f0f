//! One simulation tick, as a fixed pipeline of pure phases.
//!
//! The order is part of the design and must not change: ground resolution,
//! locomotion (jump, friction, acceleration), gravity, collision
//! resolution (floor clamp, slopes, walls), then position integration.
//! Each phase is the exact model named in its contract, and `tick` is
//! their composition.

use vstd::prelude::*;
use crate::math::trunc_div;
use crate::vec3::{Vec3, V3, v3_norm_sq, v3_in_bounds};
use crate::level::{Volume, volumes_wf};
use crate::tuning::{MovementConfig, config_wf};
use crate::agent::{AgentState, AgentModel, agent_wf};
use crate::kernel::{
    apply_friction, accelerate, air_accelerate,
    spec_apply_friction, spec_accelerate, spec_air_accelerate, lemma_dir_components,
};
use crate::ground::{
    resolve_ground, spec_feet_y, spec_ground_height, spec_grounded,
};
use crate::collide::{
    floor_clamp, resolve_slopes, resolve_walls,
    spec_floor_clamp, spec_resolve_slopes, spec_resolve_walls,
};

verus! {

/// Exact model of `ground_check`: the supporting height and grounded flag
/// for this tick; nothing else changes.
pub open spec fn spec_ground_check(a: AgentModel, vols: Seq<Volume>, c: MovementConfig)
    -> AgentModel {
    let feet = spec_feet_y(a.position, c);
    let gh = spec_ground_height(vols, a.position, feet, c);
    AgentModel { ground_height: gh, grounded: spec_grounded(gh, feet, a.velocity.y), ..a }
}

/// Exact model of `player_movement`: a held jump fires the instant the
/// agent is grounded (vertical velocity becomes the jump speed and the
/// agent leaves the ground in the same tick); then the horizontal velocity
/// goes through friction and ground acceleration when grounded, or air
/// acceleration when airborne.  A zero wish direction skips acceleration.
pub open spec fn spec_player_movement(a: AgentModel, c: MovementConfig, dt: int) -> AgentModel {
    let jumped = a.grounded && a.wish_jump;
    let vy = if jumped { c.sv_jumpspeed as int } else { a.velocity.y };
    let grounded = if jumped { false } else { a.grounded };
    let horiz = V3 { x: a.velocity.x, y: 0, z: a.velocity.z };
    let moved = if grounded {
        let fr = spec_apply_friction(horiz, c.sv_friction as int, c.sv_stopspeed as int, dt);
        if v3_norm_sq(a.wish_dir) > 0 {
            spec_accelerate(fr, a.wish_dir, c.sv_maxspeed as int, c.sv_accelerate as int, dt)
        } else {
            fr
        }
    } else {
        if v3_norm_sq(a.wish_dir) > 0 {
            spec_air_accelerate(
                horiz, a.wish_dir, c.sv_maxspeed as int, c.sv_airaccelerate as int,
                c.air_wish_speed_cap as int, c.air_speed_cap as int, dt)
        } else {
            horiz
        }
    };
    AgentModel {
        velocity: V3 { x: moved.x, y: vy, z: moved.z },
        grounded,
        ..a
    }
}

/// Exact model of `apply_gravity`: airborne agents accelerate downward by
/// `gravity * dt`; grounded agents are untouched.
pub open spec fn spec_apply_gravity(a: AgentModel, c: MovementConfig, dt: int) -> AgentModel {
    if !a.grounded {
        AgentModel {
            velocity: V3 {
                x: a.velocity.x,
                y: a.velocity.y - trunc_div(c.sv_gravity * dt, 1000),
                z: a.velocity.z,
            },
            ..a
        }
    } else {
        a
    }
}

/// Exact model of `player_collision`: floor clamp, then the slope pass,
/// then the wall pass, in that order.
pub open spec fn spec_player_collision(a: AgentModel, vols: Seq<Volume>, c: MovementConfig)
    -> AgentModel {
    let pv1 = spec_floor_clamp(a.position, a.velocity, a.ground_height, c);
    let pv2 = spec_resolve_slopes(vols, pv1.0, pv1.1, c);
    let pv3 = spec_resolve_walls(vols, pv2.0, pv2.1, c.player_radius as int);
    AgentModel { position: pv3.0, velocity: pv3.1, ..a }
}

/// Exact model of `apply_velocity`: position advances by `velocity * dt`.
pub open spec fn spec_apply_velocity(a: AgentModel, dt: int) -> AgentModel {
    AgentModel {
        position: V3 {
            x: a.position.x + trunc_div(a.velocity.x * dt, 1000),
            y: a.position.y + trunc_div(a.velocity.y * dt, 1000),
            z: a.position.z + trunc_div(a.velocity.z * dt, 1000),
        },
        ..a
    }
}

/// Exact model of one whole tick: the five phases composed in the fixed
/// pipeline order.
pub open spec fn spec_tick(a: AgentModel, vols: Seq<Volume>, c: MovementConfig, dt: int)
    -> AgentModel {
    spec_apply_velocity(
        spec_player_collision(
            spec_apply_gravity(
                spec_player_movement(
                    spec_ground_check(a, vols, c),
                    c, dt),
                c, dt),
            vols, c),
        dt)
}

/// Update the agent's supporting height and grounded flag from the
/// collider set.
pub fn ground_check(agent: &mut AgentState, volumes: &Vec<Volume>, config: &MovementConfig)
    requires
        agent_wf(old(agent)@),
        volumes_wf(volumes@),
        config_wf(*config),
    ensures
        final(agent)@ == spec_ground_check(old(agent)@, volumes@, *config),
        agent_wf(final(agent)@),
{
    let r = resolve_ground(agent.position, agent.velocity.0.y, volumes, config);
    agent.ground_height = r.0;
    agent.state.grounded = r.1;
}

/// Jump if grounded with jump held, then update the horizontal velocity:
/// friction and ground acceleration when grounded, air acceleration when
/// airborne.  The vertical velocity is only touched by the jump.
pub fn player_movement(agent: &mut AgentState, config: &MovementConfig, dt: i64)
    requires
        v3_in_bounds(old(agent)@.velocity, 100_000_000),
        v3_norm_sq(old(agent)@.wish_dir) <= 1_000_000,
        old(agent)@.wish_dir.y == 0,
        config_wf(*config),
        1 <= dt <= 1_000,
    ensures
        final(agent)@ == spec_player_movement(old(agent)@, *config, dt as int),
        v3_in_bounds(final(agent)@.velocity, 2_000_000_000),
{
    proof {
        lemma_dir_components(agent.wish_dir.0@);
    }
    if agent.state.grounded && agent.state.wish_jump {
        agent.velocity.0.y = config.sv_jumpspeed;
        agent.state.grounded = false;
    }
    let horiz = Vec3 { x: agent.velocity.0.x, y: 0, z: agent.velocity.0.z };
    let wish_nsq = agent.wish_dir.0.norm_sq();
    let moved = if agent.state.grounded {
        let fr = apply_friction(horiz, config.sv_friction, config.sv_stopspeed, dt);
        if wish_nsq > 0 {
            accelerate(fr, agent.wish_dir.0, config.sv_maxspeed, config.sv_accelerate, dt)
        } else {
            fr
        }
    } else {
        if wish_nsq > 0 {
            air_accelerate(
                horiz, agent.wish_dir.0, config.sv_maxspeed, config.sv_airaccelerate,
                config.air_wish_speed_cap, config.air_speed_cap, dt)
        } else {
            horiz
        }
    };
    agent.velocity.0.x = moved.x;
    agent.velocity.0.z = moved.z;
}

/// Accelerate airborne agents downward by `gravity * dt`.
pub fn apply_gravity(agent: &mut AgentState, config: &MovementConfig, dt: i64)
    requires
        v3_in_bounds(old(agent)@.velocity, 2_000_000_000),
        config_wf(*config),
        1 <= dt <= 1_000,
    ensures
        final(agent)@ == spec_apply_gravity(old(agent)@, *config, dt as int),
        v3_in_bounds(final(agent)@.velocity, 2_100_000_000),
{
    if !agent.state.grounded {
        proof {
            crate::vec3::lemma_mul_bound(config.sv_gravity as int, dt as int, 1_000_000, 1_000);
            crate::math::lemma_trunc_div_abs(config.sv_gravity * dt, 1000);
        }
        agent.velocity.0.y = agent.velocity.0.y - config.sv_gravity * dt / 1000;
    }
}

/// Correct position and velocity against the collider set: floor clamp,
/// then slope volumes, then walls.
pub fn player_collision(agent: &mut AgentState, volumes: &Vec<Volume>, config: &MovementConfig)
    requires
        v3_in_bounds(old(agent)@.position, 100_000_000),
        v3_in_bounds(old(agent)@.velocity, 2_100_000_000),
        0 <= old(agent)@.ground_height <= 2_300_000_000,
        volumes_wf(volumes@),
        config_wf(*config),
    ensures
        final(agent)@ == spec_player_collision(old(agent)@, volumes@, *config),
        v3_in_bounds(final(agent)@.position, 3_000_000_000),
        v3_in_bounds(final(agent)@.velocity, 2_100_000_000),
{
    let pv1 = floor_clamp(agent.position, agent.velocity.0, agent.ground_height, config);
    let pv2 = resolve_slopes(pv1.0, pv1.1, volumes, config);
    let pv3 = resolve_walls(pv2.0, pv2.1, volumes, config);
    agent.position = pv3.0;
    agent.velocity.0 = pv3.1;
}

/// Integrate the position by `velocity * dt`.
pub fn apply_velocity(agent: &mut AgentState, dt: i64)
    requires
        v3_in_bounds(old(agent)@.position, 3_000_000_000),
        v3_in_bounds(old(agent)@.velocity, 2_100_000_000),
        1 <= dt <= 1_000,
    ensures
        final(agent)@ == spec_apply_velocity(old(agent)@, dt as int),
        v3_in_bounds(final(agent)@.position, 5_200_000_000),
{
    proof {
        crate::vec3::lemma_mul_bound(agent@.velocity.x, dt as int, 2_100_000_000, 1_000);
        crate::vec3::lemma_mul_bound(agent@.velocity.y, dt as int, 2_100_000_000, 1_000);
        crate::vec3::lemma_mul_bound(agent@.velocity.z, dt as int, 2_100_000_000, 1_000);
        crate::math::lemma_trunc_div_abs(agent@.velocity.x * dt, 1000);
        crate::math::lemma_trunc_div_abs(agent@.velocity.y * dt, 1000);
        crate::math::lemma_trunc_div_abs(agent@.velocity.z * dt, 1000);
    }
    agent.position.x = agent.position.x + agent.velocity.0.x * dt / 1000;
    agent.position.y = agent.position.y + agent.velocity.0.y * dt / 1000;
    agent.position.z = agent.position.z + agent.velocity.0.z * dt / 1000;
}

/// Run one whole simulation tick: ground resolution, locomotion, gravity,
/// collision resolution, position integration — exactly `spec_tick`.
pub fn tick(agent: &mut AgentState, volumes: &Vec<Volume>, config: &MovementConfig, dt: i64)
    requires
        agent_wf(old(agent)@),
        volumes_wf(volumes@),
        config_wf(*config),
        1 <= dt <= 1_000,
    ensures
        final(agent)@ == spec_tick(old(agent)@, volumes@, *config, dt as int),
        v3_in_bounds(final(agent)@.position, 5_200_000_000),
        v3_in_bounds(final(agent)@.velocity, 2_100_000_000),
        final(agent)@.wish_dir == old(agent)@.wish_dir,
        final(agent)@.wish_jump == old(agent)@.wish_jump,
{
    ground_check(agent, volumes, config);
    player_movement(agent, config, dt);
    apply_gravity(agent, config, dt);
    player_collision(agent, volumes, config);
    apply_velocity(agent, dt);
}

} // verus!
