//! Collision resolver: position corrections against static level geometry.
//!
//! Three passes, in a fixed order that callers must keep — floor clamp,
//! then slope volumes, then walls.  Each pass moves the agent by the
//! minimum displacement that ends the overlap and clamps the velocity
//! component that was driving it in, and never iterates: overlapping
//! volumes are resolved sequentially, once per tick.

use vstd::prelude::*;
use vstd::math::{abs, max, min};
use crate::math::{abs_i64, max_i64, min_i64};
use crate::vec3::{Vec3, V3, v3_in_bounds};
use crate::level::{Volume, VolumeKind, volume_wf, volumes_wf};
use crate::tuning::{MovementConfig, config_wf};
use crate::ground::{spec_footprint_contains, spec_floor_top, footprint_contains, floor_top};

verus! {

/// An agent embedded less than this below a slope's surface (0.6 units) is
/// treated as stepping onto it and left to the ground resolver.
pub const SLOPE_STEP_GAP: i64 = 600;

/// The agent counts as inside a slope's body only while its feet are above
/// the volume's base minus this margin (0.5 units).
pub const SLOPE_EMBED_MARGIN: i64 = 500;

/// A vertical push onto a slope top is eligible only below this magnitude
/// (2 units), so deep embeddings resolve sideways instead of snapping far
/// upward.
pub const SLOPE_UP_LIMIT: i64 = 2000;

/// Exact model of `floor_clamp`: feet below the supporting height snap up
/// onto it, and a downward vertical velocity is zeroed on landing.
pub open spec fn spec_floor_clamp(pos: V3, vel: V3, ground_height: int, c: MovementConfig)
    -> (V3, V3) {
    let feet = pos.y - c.player_height / 2;
    if feet < ground_height {
        (
            V3 { x: pos.x, y: ground_height + c.player_height / 2, z: pos.z },
            V3 { x: vel.x, y: max(vel.y, 0), z: vel.z },
        )
    } else {
        (pos, vel)
    }
}

/// Exact model of one wall resolution: if the agent's grown box overlaps
/// the volume in both horizontal axes, push out along the axis of smaller
/// penetration (ties resolve on z) and clamp that velocity component
/// toward separation.  Vertical position and velocity are untouched.
pub open spec fn spec_resolve_wall(pos: V3, vel: V3, vol: Volume, radius: int) -> (V3, V3) {
    let cx = vol.collider.half_extents@.x + radius;
    let cz = vol.collider.half_extents@.z + radius;
    let dx = pos.x - vol.center@.x;
    let dz = pos.z - vol.center@.z;
    if abs(dx) < cx && abs(dz) < cz {
        let pen_x = cx - abs(dx);
        let pen_z = cz - abs(dz);
        if pen_x < pen_z {
            if dx > 0 {
                (
                    V3 { x: vol.center@.x + cx, y: pos.y, z: pos.z },
                    V3 { x: max(vel.x, 0), y: vel.y, z: vel.z },
                )
            } else {
                (
                    V3 { x: vol.center@.x - cx, y: pos.y, z: pos.z },
                    V3 { x: min(vel.x, 0), y: vel.y, z: vel.z },
                )
            }
        } else {
            if dz > 0 {
                (
                    V3 { x: pos.x, y: pos.y, z: vol.center@.z + cz },
                    V3 { x: vel.x, y: vel.y, z: max(vel.z, 0) },
                )
            } else {
                (
                    V3 { x: pos.x, y: pos.y, z: vol.center@.z - cz },
                    V3 { x: vel.x, y: vel.y, z: min(vel.z, 0) },
                )
            }
        }
    } else {
        (pos, vel)
    }
}

/// Exact model of one slope resolution.  An agent embedded in the slope
/// body (feet below the surface but above the base minus a margin) and
/// deeper than the steppable gap is pushed out by the smallest of three
/// candidate corrections — up onto the surface (only below
/// `SLOPE_UP_LIMIT`), out along x, or out along z — with the matching
/// velocity component clamped toward separation.
pub open spec fn spec_resolve_slope(pos: V3, vel: V3, vol: Volume, c: MovementConfig)
    -> (V3, V3) {
    if spec_footprint_contains(vol, pos, c.player_radius as int) {
        let sh = spec_floor_top(vol, pos);
        let feet = pos.y - c.player_height / 2;
        let base = vol.center@.y - vol.collider.half_extents@.y;
        if feet < sh && feet > base - SLOPE_EMBED_MARGIN && sh - feet >= SLOPE_STEP_GAP {
            let up = sh - feet;
            let dx = pos.x - vol.center@.x;
            let dz = pos.z - vol.center@.z;
            let pen_x = vol.collider.half_extents@.x + c.player_radius - abs(dx);
            let pen_z = vol.collider.half_extents@.z + c.player_radius - abs(dz);
            if up < SLOPE_UP_LIMIT && up <= pen_x && up <= pen_z {
                (
                    V3 { x: pos.x, y: sh + c.player_height / 2, z: pos.z },
                    V3 { x: vel.x, y: max(vel.y, 0), z: vel.z },
                )
            } else if pen_x <= pen_z {
                if dx > 0 {
                    (
                        V3 { x: vol.center@.x + vol.collider.half_extents@.x + c.player_radius,
                             y: pos.y, z: pos.z },
                        V3 { x: max(vel.x, 0), y: vel.y, z: vel.z },
                    )
                } else {
                    (
                        V3 { x: vol.center@.x - vol.collider.half_extents@.x - c.player_radius,
                             y: pos.y, z: pos.z },
                        V3 { x: min(vel.x, 0), y: vel.y, z: vel.z },
                    )
                }
            } else {
                if dz > 0 {
                    (
                        V3 { x: pos.x, y: pos.y,
                             z: vol.center@.z + vol.collider.half_extents@.z + c.player_radius },
                        V3 { x: vel.x, y: vel.y, z: max(vel.z, 0) },
                    )
                } else {
                    (
                        V3 { x: pos.x, y: pos.y,
                             z: vol.center@.z - vol.collider.half_extents@.z - c.player_radius },
                        V3 { x: vel.x, y: vel.y, z: min(vel.z, 0) },
                    )
                }
            }
        } else {
            (pos, vel)
        }
    } else {
        (pos, vel)
    }
}

/// The slope pass folded over the volume list, in order; volumes that are
/// not slopes are skipped.
pub open spec fn spec_resolve_slopes(vols: Seq<Volume>, pos: V3, vel: V3, c: MovementConfig)
    -> (V3, V3)
    decreases vols.len(),
{
    if vols.len() == 0 {
        (pos, vel)
    } else {
        let pv = spec_resolve_slopes(vols.drop_last(), pos, vel, c);
        if vols.last().kind is Slope {
            spec_resolve_slope(pv.0, pv.1, vols.last(), c)
        } else {
            pv
        }
    }
}

/// The wall pass folded over the volume list, in order; volumes that are
/// not walls are skipped.
pub open spec fn spec_resolve_walls(vols: Seq<Volume>, pos: V3, vel: V3, radius: int)
    -> (V3, V3)
    decreases vols.len(),
{
    if vols.len() == 0 {
        (pos, vel)
    } else {
        let pv = spec_resolve_walls(vols.drop_last(), pos, vel, radius);
        if vols.last().kind is Wall {
            spec_resolve_wall(pv.0, pv.1, vols.last(), radius)
        } else {
            pv
        }
    }
}

/// Wall push-out is exact: resolving an overlapping agent against one wall
/// leaves its center exactly `half_extent + radius` from the wall's center
/// along the resolved axis, with the other horizontal coordinate, the
/// height, and the vertical velocity untouched.
pub proof fn lemma_wall_pushout(pos: V3, vel: V3, vol: Volume, radius: int)
    requires
        abs(pos.x - vol.center@.x) < vol.collider.half_extents@.x + radius,
        abs(pos.z - vol.center@.z) < vol.collider.half_extents@.z + radius,
    ensures
        ({
            let pv = spec_resolve_wall(pos, vel, vol, radius);
            let cx = vol.collider.half_extents@.x + radius;
            let cz = vol.collider.half_extents@.z + radius;
            let pen_x = cx - abs(pos.x - vol.center@.x);
            let pen_z = cz - abs(pos.z - vol.center@.z);
            &&& (pen_x < pen_z ==> abs(pv.0.x - vol.center@.x) == cx && pv.0.z == pos.z)
            &&& (pen_x >= pen_z ==> abs(pv.0.z - vol.center@.z) == cz && pv.0.x == pos.x)
            &&& pv.0.y == pos.y
            &&& pv.1.y == vel.y
        }),
{
}

/// Snap the agent up onto the supporting height when its feet are below
/// it, zeroing a downward vertical velocity (a landing).  No horizontal
/// effect.
pub fn floor_clamp(position: Vec3, velocity: Vec3, ground_height: i64, config: &MovementConfig)
    -> (r: (Vec3, Vec3))
    requires
        v3_in_bounds(position@, 5_000_000_000),
        config_wf(*config),
        0 <= ground_height <= 2_300_000_000,
    ensures
        (r.0@, r.1@) == spec_floor_clamp(
            position@, velocity@, ground_height as int, *config),
        r.0@.y - config.player_height / 2 >= ground_height,
        v3_in_bounds(position@, 3_000_000_000) ==> v3_in_bounds(r.0@, 3_000_000_000),
        abs(r.1@.x) <= abs(velocity@.x),
        abs(r.1@.y) <= abs(velocity@.y),
        abs(r.1@.z) <= abs(velocity@.z),
        r.0@.x == position@.x,
        r.0@.z == position@.z,
{
    let feet_y = position.y - config.player_height / 2;
    if feet_y < ground_height {
        let new_y = ground_height + config.player_height / 2;
        let vy = if velocity.y < 0 { 0 } else { velocity.y };
        (
            Vec3 { x: position.x, y: new_y, z: position.z },
            Vec3 { x: velocity.x, y: vy, z: velocity.z },
        )
    } else {
        (position, velocity)
    }
}

/// Resolve the agent against one wall volume.
fn resolve_wall_one(position: Vec3, velocity: Vec3, vol: &Volume, radius: i64)
    -> (r: (Vec3, Vec3))
    requires
        v3_in_bounds(position@, 5_000_000_000),
        volume_wf(*vol),
        0 <= radius <= 1_000_000,
    ensures
        (r.0@, r.1@) == spec_resolve_wall(position@, velocity@, *vol, radius as int),
        v3_in_bounds(position@, 3_000_000_000) ==> v3_in_bounds(r.0@, 3_000_000_000),
        abs(r.1@.x) <= abs(velocity@.x),
        abs(r.1@.y) <= abs(velocity@.y),
        abs(r.1@.z) <= abs(velocity@.z),
{
    let cx = vol.collider.half_extents.x + radius;
    let cz = vol.collider.half_extents.z + radius;
    let dx = position.x - vol.center.x;
    let dz = position.z - vol.center.z;
    let dxa = abs_i64(dx);
    let dza = abs_i64(dz);
    if dxa < cx && dza < cz {
        let pen_x = cx - dxa;
        let pen_z = cz - dza;
        if pen_x < pen_z {
            if dx > 0 {
                (
                    Vec3 { x: vol.center.x + cx, y: position.y, z: position.z },
                    Vec3 { x: max_i64(velocity.x, 0), y: velocity.y, z: velocity.z },
                )
            } else {
                (
                    Vec3 { x: vol.center.x - cx, y: position.y, z: position.z },
                    Vec3 { x: min_i64(velocity.x, 0), y: velocity.y, z: velocity.z },
                )
            }
        } else {
            if dz > 0 {
                (
                    Vec3 { x: position.x, y: position.y, z: vol.center.z + cz },
                    Vec3 { x: velocity.x, y: velocity.y, z: max_i64(velocity.z, 0) },
                )
            } else {
                (
                    Vec3 { x: position.x, y: position.y, z: vol.center.z - cz },
                    Vec3 { x: velocity.x, y: velocity.y, z: min_i64(velocity.z, 0) },
                )
            }
        }
    } else {
        (position, velocity)
    }
}

/// Resolve the agent against one slope volume.
fn resolve_slope_one(position: Vec3, velocity: Vec3, vol: &Volume, config: &MovementConfig)
    -> (r: (Vec3, Vec3))
    requires
        v3_in_bounds(position@, 5_000_000_000),
        volume_wf(*vol),
        config_wf(*config),
        vol.kind is Slope,
    ensures
        (r.0@, r.1@) == spec_resolve_slope(position@, velocity@, *vol, *config),
        v3_in_bounds(position@, 3_000_000_000) ==> v3_in_bounds(r.0@, 3_000_000_000),
        abs(r.1@.x) <= abs(velocity@.x),
        abs(r.1@.y) <= abs(velocity@.y),
        abs(r.1@.z) <= abs(velocity@.z),
{
    if !footprint_contains(vol, position, config.player_radius) {
        return (position, velocity);
    }
    let sh = floor_top(vol, position);
    proof {
        crate::ground::lemma_floor_top_bound(*vol, position@, config.player_radius as int);
    }
    let feet = position.y - config.player_height / 2;
    let base = vol.center.y - vol.collider.half_extents.y;
    if !(feet < sh && feet > base - SLOPE_EMBED_MARGIN && sh - feet >= SLOPE_STEP_GAP) {
        return (position, velocity);
    }
    let up = sh - feet;
    let dx = position.x - vol.center.x;
    let dz = position.z - vol.center.z;
    let pen_x = vol.collider.half_extents.x + config.player_radius - abs_i64(dx);
    let pen_z = vol.collider.half_extents.z + config.player_radius - abs_i64(dz);
    if up < SLOPE_UP_LIMIT && up <= pen_x && up <= pen_z {
        let vy = if velocity.y < 0 { 0 } else { velocity.y };
        (
            Vec3 { x: position.x, y: sh + config.player_height / 2, z: position.z },
            Vec3 { x: velocity.x, y: vy, z: velocity.z },
        )
    } else if pen_x <= pen_z {
        if dx > 0 {
            (
                Vec3 { x: vol.center.x + vol.collider.half_extents.x + config.player_radius,
                       y: position.y, z: position.z },
                Vec3 { x: max_i64(velocity.x, 0), y: velocity.y, z: velocity.z },
            )
        } else {
            (
                Vec3 { x: vol.center.x - vol.collider.half_extents.x - config.player_radius,
                       y: position.y, z: position.z },
                Vec3 { x: min_i64(velocity.x, 0), y: velocity.y, z: velocity.z },
            )
        }
    } else {
        if dz > 0 {
            (
                Vec3 { x: position.x, y: position.y,
                       z: vol.center.z + vol.collider.half_extents.z + config.player_radius },
                Vec3 { x: velocity.x, y: velocity.y, z: max_i64(velocity.z, 0) },
            )
        } else {
            (
                Vec3 { x: position.x, y: position.y,
                       z: vol.center.z - vol.collider.half_extents.z - config.player_radius },
                Vec3 { x: velocity.x, y: velocity.y, z: min_i64(velocity.z, 0) },
            )
        }
    }
}

/// The slope pass over the whole collider set, in order.
pub fn resolve_slopes(position: Vec3, velocity: Vec3, volumes: &Vec<Volume>,
                      config: &MovementConfig) -> (r: (Vec3, Vec3))
    requires
        v3_in_bounds(position@, 3_000_000_000),
        volumes_wf(volumes@),
        config_wf(*config),
    ensures
        (r.0@, r.1@) == spec_resolve_slopes(volumes@, position@, velocity@, *config),
        v3_in_bounds(r.0@, 3_000_000_000),
        abs(r.1@.x) <= abs(velocity@.x),
        abs(r.1@.y) <= abs(velocity@.y),
        abs(r.1@.z) <= abs(velocity@.z),
{
    let mut pos = position;
    let mut vel = velocity;
    let mut i: usize = 0;
    proof {
        assert(volumes@.take(0) =~= Seq::<Volume>::empty());
    }
    while i < volumes.len()
        invariant
            0 <= i <= volumes@.len(),
            volumes_wf(volumes@),
            config_wf(*config),
            (pos@, vel@) == spec_resolve_slopes(
                volumes@.take(i as int), position@, velocity@, *config),
            v3_in_bounds(pos@, 3_000_000_000),
            abs(vel@.x) <= abs(velocity@.x),
            abs(vel@.y) <= abs(velocity@.y),
            abs(vel@.z) <= abs(velocity@.z),
        decreases volumes@.len() - i,
    {
        let vol = volumes[i];
        proof {
            assert(volume_wf(volumes@[i as int]));
        }
        if matches!(vol.kind, VolumeKind::Slope(_)) {
            let pv = resolve_slope_one(pos, vel, &vol, config);
            pos = pv.0;
            vel = pv.1;
        }
        i = i + 1;
        proof {
            assert(volumes@.take(i as int).drop_last() =~= volumes@.take(i as int - 1));
            assert(volumes@.take(i as int).last() == volumes@[i as int - 1]);
        }
    }
    proof {
        assert(volumes@.take(volumes@.len() as int) =~= volumes@);
    }
    (pos, vel)
}

/// The wall pass over the whole collider set, in order.
pub fn resolve_walls(position: Vec3, velocity: Vec3, volumes: &Vec<Volume>,
                     config: &MovementConfig) -> (r: (Vec3, Vec3))
    requires
        v3_in_bounds(position@, 3_000_000_000),
        volumes_wf(volumes@),
        config_wf(*config),
    ensures
        (r.0@, r.1@) == spec_resolve_walls(
            volumes@, position@, velocity@, config.player_radius as int),
        v3_in_bounds(r.0@, 3_000_000_000),
        abs(r.1@.x) <= abs(velocity@.x),
        abs(r.1@.y) <= abs(velocity@.y),
        abs(r.1@.z) <= abs(velocity@.z),
{
    let mut pos = position;
    let mut vel = velocity;
    let mut i: usize = 0;
    proof {
        assert(volumes@.take(0) =~= Seq::<Volume>::empty());
    }
    while i < volumes.len()
        invariant
            0 <= i <= volumes@.len(),
            volumes_wf(volumes@),
            config_wf(*config),
            (pos@, vel@) == spec_resolve_walls(
                volumes@.take(i as int), position@, velocity@, config.player_radius as int),
            v3_in_bounds(pos@, 3_000_000_000),
            abs(vel@.x) <= abs(velocity@.x),
            abs(vel@.y) <= abs(velocity@.y),
            abs(vel@.z) <= abs(velocity@.z),
        decreases volumes@.len() - i,
    {
        let vol = volumes[i];
        proof {
            assert(volume_wf(volumes@[i as int]));
        }
        if matches!(vol.kind, VolumeKind::Wall) {
            let pv = resolve_wall_one(pos, vel, &vol, config.player_radius);
            pos = pv.0;
            vel = pv.1;
        }
        i = i + 1;
        proof {
            assert(volumes@.take(i as int).drop_last() =~= volumes@.take(i as int - 1));
            assert(volumes@.take(i as int).last() == volumes@[i as int - 1]);
        }
    }
    proof {
        assert(volumes@.take(volumes@.len() as int) =~= volumes@);
    }
    (pos, vel)
}

} // verus!
