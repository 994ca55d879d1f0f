//! Ground resolver: the supporting height beneath the agent, and whether
//! the agent is grounded.
//!
//! The resolver scans the floor-tagged box and slope volumes whose
//! horizontal footprint (grown by the agent radius) contains the agent.  A
//! volume's top is accepted when the agent can step onto it
//! (`top <= feet + max_step_up`) or is already above it (`top < center y`);
//! the highest accepted top wins, with the world baseline at height 0.

use vstd::prelude::*;
use vstd::math::{abs, max};
use crate::math::{
    trunc_div, abs_i64, max_i64,
    lemma_trunc_div_abs,
};
use crate::vec3::{Vec3, V3, v3_in_bounds, lemma_mul_bound};
use crate::level::{Volume, VolumeKind, volume_wf, volumes_wf};
use crate::tuning::{MovementConfig, config_wf};
use crate::kernel::lemma_dir_components;

verus! {

/// Feet within this distance above the supporting height count as standing
/// on it (0.1 world units).
pub const GROUND_TOLERANCE: i64 = 100;

/// Upward speeds above this (0.1 units/s) suppress the grounded flag, so a
/// jump does not read as a landing on the way up through a surface.
pub const GROUND_VEL_TOLERANCE: i64 = 100;

/// The height of the agent's feet: the capsule center minus half its
/// height.
pub open spec fn spec_feet_y(pos: V3, c: MovementConfig) -> int {
    pos.y - c.player_height / 2
}

/// The volume's horizontal footprint, grown by the agent radius, contains
/// the point.
pub open spec fn spec_footprint_contains(vol: Volume, pos: V3, radius: int) -> bool {
    &&& abs(pos.x - vol.center@.x) < vol.collider.half_extents@.x + radius
    &&& abs(pos.z - vol.center@.z) < vol.collider.half_extents@.z + radius
}

/// The height of the volume's top surface at the given point: for a slope,
/// the nominal top plus the signed projection onto the rise direction
/// (relative to the center) times the rise per unit; for a box, the
/// nominal top.
pub open spec fn spec_floor_top(vol: Volume, pos: V3) -> int {
    match vol.kind {
        VolumeKind::Slope(s) => {
            let proj = trunc_div(
                (pos.x - vol.center@.x) * s.rise_dir@.x
                    + (pos.z - vol.center@.z) * s.rise_dir@.z,
                1000);
            vol.center@.y + vol.collider.half_extents@.y
                + trunc_div(proj * s.rise_per_unit, 1000)
        },
        _ => vol.center@.y + vol.collider.half_extents@.y,
    }
}

/// The volume supports the agent: it is not a wall, its footprint contains
/// the agent, and its top is either within step-up reach of the feet or
/// strictly below the agent's center (so a falling agent can pass a taller
/// surface it is above).
pub open spec fn spec_floor_candidate(vol: Volume, pos: V3, feet_y: int, c: MovementConfig) -> bool {
    &&& !(vol.kind is Wall)
    &&& spec_footprint_contains(vol, pos, c.player_radius as int)
    &&& (spec_floor_top(vol, pos) <= feet_y + c.max_step_up
            || spec_floor_top(vol, pos) < pos.y)
}

/// The supporting height: the maximum accepted top over the volume list,
/// starting from the world baseline at 0.
pub open spec fn spec_ground_height(vols: Seq<Volume>, pos: V3, feet_y: int, c: MovementConfig) -> int
    decreases vols.len(),
{
    if vols.len() == 0 {
        0
    } else {
        let prev = spec_ground_height(vols.drop_last(), pos, feet_y, c);
        if spec_floor_candidate(vols.last(), pos, feet_y, c) {
            max(prev, spec_floor_top(vols.last(), pos))
        } else {
            prev
        }
    }
}

/// Grounded: the feet are within tolerance of the supporting height and
/// the vertical velocity is at most a small upward threshold.
pub open spec fn spec_grounded(ground_height: int, feet_y: int, vel_y: int) -> bool {
    feet_y <= ground_height + GROUND_TOLERANCE && vel_y <= GROUND_VEL_TOLERANCE
}

/// The top of a well-formed volume whose footprint contains the point lies
/// within 2.3e9 counts of zero.
pub proof fn lemma_floor_top_bound(vol: Volume, pos: V3, radius: int)
    requires
        volume_wf(vol),
        spec_footprint_contains(vol, pos, radius),
        0 <= radius <= 1_000_000,
    ensures
        -2_300_000_000 <= spec_floor_top(vol, pos) <= 2_300_000_000,
{
    match vol.kind {
        VolumeKind::Slope(s) => {
            lemma_dir_components(s.rise_dir@);
            lemma_mul_bound(pos.x - vol.center@.x, s.rise_dir@.x, 101_000_001, 1000);
            lemma_mul_bound(pos.z - vol.center@.z, s.rise_dir@.z, 101_000_001, 1000);
            let proj = trunc_div(
                (pos.x - vol.center@.x) * s.rise_dir@.x
                    + (pos.z - vol.center@.z) * s.rise_dir@.z,
                1000);
            lemma_trunc_div_abs(
                (pos.x - vol.center@.x) * s.rise_dir@.x
                    + (pos.z - vol.center@.z) * s.rise_dir@.z,
                1000);
            assert(-202_000_002_000 <= proj * 1000 <= 202_000_002_000) by (nonlinear_arith)
                requires abs(proj) * 1000 <= 202_000_002_000;
            lemma_mul_bound(proj, s.rise_per_unit as int, 202_000_002, 10_000);
            lemma_trunc_div_abs(proj * s.rise_per_unit, 1000);
            assert(abs(trunc_div(proj * s.rise_per_unit, 1000)) * 1000 <= 2_020_000_020_000
                ==> -2_020_000_020 <= trunc_div(proj * s.rise_per_unit, 1000) <= 2_020_000_020)
                by (nonlinear_arith);
        },
        _ => {},
    }
}

/// The folded supporting height stays within `[0, 2.3e9]` for a
/// well-formed volume list.
pub proof fn lemma_ground_height_bound(vols: Seq<Volume>, pos: V3, feet_y: int, c: MovementConfig)
    requires
        volumes_wf(vols),
        config_wf(c),
    ensures
        0 <= spec_ground_height(vols, pos, feet_y, c) <= 2_300_000_000,
    decreases vols.len(),
{
    if vols.len() > 0 {
        assert(volumes_wf(vols.drop_last())) by {
            assert(forall|i: int| 0 <= i < vols.len() - 1
                ==> vols.drop_last()[i] == vols[i]);
        };
        lemma_ground_height_bound(vols.drop_last(), pos, feet_y, c);
        if spec_floor_candidate(vols.last(), pos, feet_y, c) {
            assert(volume_wf(vols[vols.len() - 1]));
            lemma_floor_top_bound(vols.last(), pos, c.player_radius as int);
        }
    }
}

/// Does the volume's grown horizontal footprint contain the point?
pub fn footprint_contains(vol: &Volume, pos: Vec3, radius: i64) -> (r: bool)
    requires
        volume_wf(*vol),
        v3_in_bounds(pos@, 5_000_000_000),
        0 <= radius <= 1_000_000,
    ensures
        r == spec_footprint_contains(*vol, pos@, radius as int),
{
    let dx = abs_i64(pos.x - vol.center.x);
    let dz = abs_i64(pos.z - vol.center.z);
    dx < vol.collider.half_extents.x + radius && dz < vol.collider.half_extents.z + radius
}

/// The height of the volume's top surface at the given point.
pub fn floor_top(vol: &Volume, pos: Vec3) -> (r: i64)
    requires
        volume_wf(*vol),
        v3_in_bounds(pos@, 5_000_000_000),
    ensures
        r == spec_floor_top(*vol, pos@),
{
    match vol.kind {
        VolumeKind::Slope(s) => {
            let dx = pos.x - vol.center.x;
            let dz = pos.z - vol.center.z;
            proof {
                lemma_dir_components(s.rise_dir@);
                lemma_mul_bound(dx as int, s.rise_dir@.x, 5_100_000_000, 1000);
                lemma_mul_bound(dz as int, s.rise_dir@.z, 5_100_000_000, 1000);
            }
            let proj = (dx * s.rise_dir.x + dz * s.rise_dir.z) / 1000;
            proof {
                lemma_trunc_div_abs(dx * s.rise_dir.x + dz * s.rise_dir.z, 1000);
                assert(-10_200_000_000 <= proj <= 10_200_000_000) by (nonlinear_arith)
                    requires abs(proj as int) * 1000 <= 10_200_000_000_000;
                lemma_mul_bound(proj as int, s.rise_per_unit as int, 10_200_000_000, 10_000);
            }
            let contribution = proj * s.rise_per_unit / 1000;
            proof {
                lemma_trunc_div_abs(proj * s.rise_per_unit, 1000);
                assert(-102_000_000_000_000 <= contribution <= 102_000_000_000_000)
                    by (nonlinear_arith)
                    requires abs(contribution as int) * 1000 <= 102_000_000_000_000_000;
            }
            vol.center.y + vol.collider.half_extents.y + contribution
        },
        _ => vol.center.y + vol.collider.half_extents.y,
    }
}

/// Scan the collider set for the supporting height beneath the agent and
/// decide the grounded flag.  Returns `(ground_height, grounded)`, the
/// exact fold `spec_ground_height` and criterion `spec_grounded`.
pub fn resolve_ground(
    position: Vec3,
    velocity_y: i64,
    volumes: &Vec<Volume>,
    config: &MovementConfig,
) -> (r: (i64, bool))
    requires
        v3_in_bounds(position@, 100_000_000),
        volumes_wf(volumes@),
        config_wf(*config),
    ensures
        r.0 == spec_ground_height(
            volumes@, position@, spec_feet_y(position@, *config), *config),
        r.1 == spec_grounded(r.0 as int, spec_feet_y(position@, *config), velocity_y as int),
        0 <= r.0 <= 2_300_000_000,
{
    let feet_y = position.y - config.player_height / 2;
    let ghost feet = spec_feet_y(position@, *config);
    let mut gh: i64 = 0;
    let mut i: usize = 0;
    proof {
        assert(volumes@.take(0) =~= Seq::<Volume>::empty());
    }
    while i < volumes.len()
        invariant
            0 <= i <= volumes@.len(),
            v3_in_bounds(position@, 100_000_000),
            volumes_wf(volumes@),
            config_wf(*config),
            feet == spec_feet_y(position@, *config),
            feet_y as int == feet,
            -101_000_000 <= feet_y <= 101_000_000,
            gh == spec_ground_height(volumes@.take(i as int), position@, feet, *config),
            0 <= gh <= 2_300_000_000,
        decreases volumes@.len() - i,
    {
        let vol = volumes[i];
        proof {
            assert(volume_wf(volumes@[i as int]));
        }
        let is_floor = !matches!(vol.kind, VolumeKind::Wall);
        if is_floor && footprint_contains(&vol, position, config.player_radius) {
            let top = floor_top(&vol, position);
            proof {
                lemma_floor_top_bound(vol, position@, config.player_radius as int);
            }
            if top <= feet_y + config.max_step_up || top < position.y {
                gh = max_i64(gh, top);
            }
        }
        i = i + 1;
        proof {
            assert(volumes@.take(i as int).drop_last() =~= volumes@.take(i as int - 1));
            assert(volumes@.take(i as int).last() == volumes@[i as int - 1]);
        }
    }
    proof {
        assert(volumes@.take(volumes@.len() as int) =~= volumes@);
    }
    let grounded = feet_y <= gh + GROUND_TOLERANCE && velocity_y <= GROUND_VEL_TOLERANCE;
    (gh, grounded)
}

} // verus!
