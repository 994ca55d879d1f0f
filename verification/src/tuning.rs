//! Movement tuning: the numeric constants of the locomotion core.
//!
//! All values are fixed-point counts (`SCALE` counts per world unit), and a
//! well-formed configuration keeps every constant positive and small enough
//! that a simulation tick cannot overflow.

use vstd::prelude::*;

verus! {

/// The tuning constants of the movement model.  Immutable per run.
#[derive(Clone, Copy, PartialEq, Eq, Structural, Debug)]
pub struct MovementConfig {
    /// Max ground speed (units/s).
    pub sv_maxspeed: i64,
    /// Ground acceleration (1/s).
    pub sv_accelerate: i64,
    /// Air acceleration (1/s).
    pub sv_airaccelerate: i64,
    /// Ground friction coefficient (1/s).
    pub sv_friction: i64,
    /// Gravity (units/s^2).
    pub sv_gravity: i64,
    /// Jump velocity (units/s).
    pub sv_jumpspeed: i64,
    /// Speed below which friction uses this floor for its drop (units/s).
    pub sv_stopspeed: i64,
    /// Agent capsule height (units).
    pub player_height: i64,
    /// Agent capsule radius (units).
    pub player_radius: i64,
    /// Cap on the wish speed used for the air add-speed deficit (units/s).
    pub air_wish_speed_cap: i64,
    /// Hard cap on horizontal speed while airborne (units/s).
    pub air_speed_cap: i64,
    /// Largest ledge height the agent steps onto without jumping (units).
    pub max_step_up: i64,
}

/// Every tuning constant is positive and at most a thousand world units,
/// which keeps all tick arithmetic inside `i64`.
pub open spec fn config_wf(c: MovementConfig) -> bool {
    &&& 1 <= c.sv_maxspeed <= 1_000_000
    &&& 1 <= c.sv_accelerate <= 1_000_000
    &&& 1 <= c.sv_airaccelerate <= 1_000_000
    &&& 1 <= c.sv_friction <= 1_000_000
    &&& 1 <= c.sv_gravity <= 1_000_000
    &&& 1 <= c.sv_jumpspeed <= 1_000_000
    &&& 1 <= c.sv_stopspeed <= 1_000_000
    &&& 1 <= c.player_height <= 1_000_000
    &&& 1 <= c.player_radius <= 1_000_000
    &&& 1 <= c.air_wish_speed_cap <= 1_000_000
    &&& 1 <= c.air_speed_cap <= 1_000_000
    &&& 1 <= c.max_step_up <= 1_000_000
}

impl Default for MovementConfig {
    /// The tuned defaults: an 8 unit/s run speed, strong gravity, and the
    /// air caps that give the intended strafe-jump feel.
    fn default() -> (c: MovementConfig)
        ensures
            config_wf(c),
            c.sv_maxspeed == 8_000,
            c.sv_accelerate == 10_000,
            c.sv_airaccelerate == 15_000,
            c.sv_friction == 6_000,
            c.sv_gravity == 20_000,
            c.sv_jumpspeed == 7_000,
            c.sv_stopspeed == 2_500,
            c.player_height == 1_800,
            c.player_radius == 400,
            c.air_wish_speed_cap == 8_000,
            c.air_speed_cap == 30_000,
            c.max_step_up == 600,
    {
        MovementConfig {
            sv_maxspeed: 8_000,
            sv_accelerate: 10_000,
            sv_airaccelerate: 15_000,
            sv_friction: 6_000,
            sv_gravity: 20_000,
            sv_jumpspeed: 7_000,
            sv_stopspeed: 2_500,
            player_height: 1_800,
            player_radius: 400,
            air_wish_speed_cap: 8_000,
            air_speed_cap: 30_000,
            max_step_up: 600,
        }
    }
}

} // verus!
