//! Static level geometry: axis-aligned box volumes and slope volumes.
//!
//! The collider set is an ordered list of volumes, each tagged as a wall
//! (blocks horizontal movement), a plain floor, or a slope (a solid volume
//! whose top surface rises linearly along a horizontal direction; solid for
//! side collision, walkable from above).  The set is read-only during
//! simulation.

use vstd::prelude::*;
use crate::vec3::{Vec3, v3_norm_sq, v3_in_bounds};

verus! {

/// Half-extents of an axis-aligned box.
#[derive(Clone, Copy, PartialEq, Eq, Structural, Debug)]
pub struct BoxCollider {
    pub half_extents: Vec3,
}

/// The rising top surface of a slope volume: a horizontal unit direction
/// and the rise (in fixed-point counts) per world unit travelled along it.
#[derive(Clone, Copy, PartialEq, Eq, Structural, Debug)]
pub struct SlopeProfile {
    pub rise_dir: Vec3,
    pub rise_per_unit: i64,
}

/// What a volume does to the agent.
#[derive(Clone, Copy, PartialEq, Eq, Structural, Debug)]
pub enum VolumeKind {
    /// Blocks horizontal movement; ignored by the ground resolver.
    Wall,
    /// Supports the agent from above; never pushes sideways.
    Floor,
    /// A floor whose top surface height varies linearly; also solid for
    /// side collision when the agent is embedded deep in its body.
    Slope(SlopeProfile),
}

/// One static volume of the level.
#[derive(Clone, Copy, PartialEq, Eq, Structural, Debug)]
pub struct Volume {
    pub center: Vec3,
    pub collider: BoxCollider,
    pub kind: VolumeKind,
}

/// A well-formed volume: coordinates within the world limit, nonnegative
/// half-extents, and for slopes a horizontal direction of at most unit
/// length with a bounded rise.
pub open spec fn volume_wf(vol: Volume) -> bool {
    &&& v3_in_bounds(vol.center@, 100_000_000)
    &&& 0 <= vol.collider.half_extents@.x <= 100_000_000
    &&& 0 <= vol.collider.half_extents@.y <= 100_000_000
    &&& 0 <= vol.collider.half_extents@.z <= 100_000_000
    &&& match vol.kind {
        VolumeKind::Slope(s) => {
            &&& v3_norm_sq(s.rise_dir@) <= 1_000_000
            &&& s.rise_dir@.y == 0
            &&& -10_000 <= s.rise_per_unit <= 10_000
        },
        _ => true,
    }
}

/// Every volume of the set is well-formed.
pub open spec fn volumes_wf(vols: Seq<Volume>) -> bool {
    forall|i: int| 0 <= i < vols.len() ==> #[trigger] volume_wf(vols[i])
}

impl Volume {
    /// A wall volume.
    pub fn wall(center: Vec3, half_extents: Vec3) -> (r: Volume)
        ensures
            r.center == center,
            r.collider.half_extents == half_extents,
            r.kind is Wall,
    {
        Volume { center, collider: BoxCollider { half_extents }, kind: VolumeKind::Wall }
    }

    /// A plain floor volume.
    pub fn floor(center: Vec3, half_extents: Vec3) -> (r: Volume)
        ensures
            r.center == center,
            r.collider.half_extents == half_extents,
            r.kind is Floor,
    {
        Volume { center, collider: BoxCollider { half_extents }, kind: VolumeKind::Floor }
    }

    /// A slope volume.
    pub fn slope(center: Vec3, half_extents: Vec3, rise_dir: Vec3, rise_per_unit: i64)
        -> (r: Volume)
        ensures
            r.center == center,
            r.collider.half_extents == half_extents,
            r.kind == (VolumeKind::Slope(SlopeProfile { rise_dir, rise_per_unit })),
    {
        Volume {
            center,
            collider: BoxCollider { half_extents },
            kind: VolumeKind::Slope(SlopeProfile { rise_dir, rise_per_unit }),
        }
    }
}

} // verus!
