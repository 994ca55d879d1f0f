//! The per-agent record threaded through each simulation tick, and its
//! mathematical model.

use vstd::prelude::*;
use crate::vec3::{Vec3, V3, v3_zero, v3_norm_sq, v3_in_bounds};

verus! {

/// The agent's velocity, in fixed-point counts per second.
#[derive(Clone, Copy, PartialEq, Eq, Structural, Debug)]
pub struct Velocity(pub Vec3);

impl Default for Velocity {
    /// At rest.
    fn default() -> (r: Velocity)
        ensures
            r.0@ == v3_zero(),
    {
        Velocity(Vec3 { x: 0, y: 0, z: 0 })
    }
}

/// The agent's contact state and jump intent.  `wish_jump` is
/// level-triggered: it stays true for as long as the jump key is held,
/// which is what makes held-jump auto-hop work.
#[derive(Clone, Copy, PartialEq, Eq, Structural, Debug)]
pub struct PlayerState {
    pub grounded: bool,
    pub wish_jump: bool,
}

impl Default for PlayerState {
    /// Airborne, not asking to jump.
    fn default() -> (r: PlayerState)
        ensures
            !r.grounded,
            !r.wish_jump,
    {
        PlayerState { grounded: false, wish_jump: false }
    }
}

/// The horizontal direction the player wants to move: a unit vector (in
/// fixed-point counts) or zero.
#[derive(Clone, Copy, PartialEq, Eq, Structural, Debug)]
pub struct WishDir(pub Vec3);

impl Default for WishDir {
    /// No movement intent.
    fn default() -> (r: WishDir)
        ensures
            r.0@ == v3_zero(),
    {
        WishDir(Vec3 { x: 0, y: 0, z: 0 })
    }
}

/// Mathematical model of the agent: the same record over unbounded
/// integers.
pub struct AgentModel {
    pub position: V3,
    pub velocity: V3,
    pub wish_dir: V3,
    pub wish_jump: bool,
    pub grounded: bool,
    pub ground_height: int,
}

/// The per-agent mutable record: position (center of the capsule
/// footprint), velocity, intent, contact flags, and the supporting height
/// computed this tick.
#[derive(Clone, Copy, PartialEq, Eq, Structural, Debug)]
pub struct AgentState {
    pub position: Vec3,
    pub velocity: Velocity,
    pub wish_dir: WishDir,
    pub state: PlayerState,
    pub ground_height: i64,
}

impl View for AgentState {
    type V = AgentModel;

    open spec fn view(&self) -> AgentModel {
        AgentModel {
            position: self.position@,
            velocity: self.velocity.0@,
            wish_dir: self.wish_dir.0@,
            wish_jump: self.state.wish_jump,
            grounded: self.state.grounded,
            ground_height: self.ground_height as int,
        }
    }
}

/// A well-formed agent: position and velocity within the world limit, a
/// horizontal wish direction of at most unit length, and a supporting
/// height the ground resolver could have produced.
pub open spec fn agent_wf(a: AgentModel) -> bool {
    &&& v3_in_bounds(a.position, 100_000_000)
    &&& v3_in_bounds(a.velocity, 100_000_000)
    &&& v3_norm_sq(a.wish_dir) <= 1_000_000
    &&& a.wish_dir.y == 0
    &&& 0 <= a.ground_height <= 2_300_000_000
}

impl AgentState {
    /// A freshly spawned agent: at `position`, at rest, airborne, with no
    /// movement intent.
    pub fn spawn(position: Vec3) -> (r: AgentState)
        ensures
            r@.position == position@,
            r@.velocity == v3_zero(),
            r@.wish_dir == v3_zero(),
            !r@.wish_jump,
            !r@.grounded,
            r@.ground_height == 0,
            v3_in_bounds(position@, 100_000_000) ==> agent_wf(r@),
    {
        AgentState {
            position,
            velocity: Velocity(Vec3 { x: 0, y: 0, z: 0 }),
            wish_dir: WishDir(Vec3 { x: 0, y: 0, z: 0 }),
            state: PlayerState { grounded: false, wish_jump: false },
            ground_height: 0,
        }
    }

    /// Set the movement intent for the coming tick: a horizontal wish
    /// direction of at most unit length, and whether jump is held.
    pub fn set_intent(&mut self, wish_dir: Vec3, wish_jump: bool)
        requires
            v3_norm_sq(wish_dir@) <= 1_000_000,
            wish_dir@.y == 0,
        ensures
            *final(self) == (AgentState {
                wish_dir: WishDir(wish_dir),
                state: PlayerState { wish_jump, ..old(self).state },
                ..*old(self)
            }),
    {
        self.wish_dir = WishDir(wish_dir);
        self.state.wish_jump = wish_jump;
    }
}

} // verus!
