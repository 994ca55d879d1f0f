//! Laws of the locomotion kernel, stated over the exact models and proved
//! for every input: friction only dissipates, ground acceleration
//! saturates at the wish speed, and the air speed cap holds across any
//! number of acceleration steps.

use vstd::prelude::*;
use vstd::math::{abs, max, min};
use crate::math::{
    trunc_div, sqrt_floor,
    lemma_trunc_div_facts, lemma_trunc_div_upper, lemma_trunc_div_multiple,
    lemma_cancel_factor, lemma_square_ordered, lemma_sq_abs,
    lemma_sqrt_floor_exists,
};
use crate::vec3::{V3, v3_zero, v3_add, v3_dot, v3_norm_sq, v3_hnorm_sq};
use crate::level::Volume;
use crate::tuning::{MovementConfig, config_wf};
use crate::ground::{spec_footprint_contains, spec_floor_top, spec_ground_height};
use crate::agent::AgentModel;
use crate::tick::{spec_player_movement, spec_tick};
use crate::kernel::{
    FRICTION_SNAP_SPEED,
    spec_apply_friction, spec_accelerate, spec_air_accelerate,
    spec_current_speed, spec_accel_amount, spec_scale_dir,
    lemma_add_scaled_dot, lemma_friction_component, lemma_air_rescale,
};

verus! {

/// A squared length is never negative.
proof fn lemma_norm_sq_nonneg(v: V3)
    ensures
        v3_norm_sq(v) >= 0,
        v3_hnorm_sq(v) >= 0,
{
    assert(v.x * v.x >= 0 && v.y * v.y >= 0 && v.z * v.z >= 0) by (nonlinear_arith);
}

/// Friction only dissipates.  The squared speed never grows; above the
/// snap threshold the velocity is exactly preserved when the drop term is
/// zero and the squared speed strictly shrinks when it is not; below the
/// threshold the velocity snaps to exactly zero.
pub proof fn lemma_friction_dissipates(v: V3, friction: int, stop_speed: int, dt: int)
    requires
        friction >= 1,
        stop_speed >= 1,
        dt >= 1,
    ensures
        v3_norm_sq(spec_apply_friction(v, friction, stop_speed, dt)) <= v3_norm_sq(v),
        ({
            let speed = sqrt_floor(v3_norm_sq(v));
            let drop = trunc_div(max(speed, stop_speed) * friction * dt, 1_000_000);
            &&& (speed < FRICTION_SNAP_SPEED
                    ==> spec_apply_friction(v, friction, stop_speed, dt) == v3_zero())
            &&& (speed >= FRICTION_SNAP_SPEED && drop == 0
                    ==> spec_apply_friction(v, friction, stop_speed, dt) == v)
            &&& (speed >= FRICTION_SNAP_SPEED && drop >= 1
                    ==> v3_norm_sq(spec_apply_friction(v, friction, stop_speed, dt))
                        < v3_norm_sq(v))
        }),
{
    lemma_norm_sq_nonneg(v);
    let nsq = v3_norm_sq(v);
    lemma_sqrt_floor_exists(nsq);
    let speed = sqrt_floor(nsq);
    if speed < FRICTION_SNAP_SPEED {
        assert(v3_norm_sq(v3_zero()) == 0) by (nonlinear_arith);
    } else {
        let drop = trunc_div(max(speed, stop_speed) * friction * dt, 1_000_000);
        lemma_trunc_div_facts(max(speed, stop_speed) * friction * dt, 1_000_000);
        let new_speed = max(speed - drop, 0);
        let r = spec_apply_friction(v, friction, stop_speed, dt);
        assert(drop >= 0) by {
            lemma_cancel_factor(0, drop, 1_000_000);
            assert(max(speed, stop_speed) * friction * dt >= 0) by (nonlinear_arith)
                requires speed >= 100 && friction >= 1 && dt >= 1 && stop_speed >= 1;
        };
        if drop == 0 {
            lemma_trunc_div_multiple(v.x, speed);
            lemma_trunc_div_multiple(v.y, speed);
            lemma_trunc_div_multiple(v.z, speed);
        }
        lemma_friction_component(v.x, new_speed, speed);
        lemma_friction_component(v.y, new_speed, speed);
        lemma_friction_component(v.z, new_speed, speed);
        lemma_sq_abs(r.x);
        lemma_sq_abs(r.y);
        lemma_sq_abs(r.z);
        lemma_sq_abs(v.x);
        lemma_sq_abs(v.y);
        lemma_sq_abs(v.z);
        lemma_square_ordered(abs(r.x) as int, abs(v.x) as int);
        lemma_square_ordered(abs(r.y) as int, abs(v.y) as int);
        lemma_square_ordered(abs(r.z) as int, abs(v.z) as int);
        if drop >= 1 {
            // Componentwise: |r.c| * speed <= |v.c| * new_speed, squared
            // and summed this bounds norm_sq(r) * speed^2 by
            // norm_sq(v) * new_speed^2, and new_speed < speed.
            vstd::arithmetic::mul::lemma_mul_nonnegative(abs(r.x) as int, speed);
            vstd::arithmetic::mul::lemma_mul_nonnegative(abs(r.y) as int, speed);
            vstd::arithmetic::mul::lemma_mul_nonnegative(abs(r.z) as int, speed);
            lemma_square_ordered(abs(r.x) * speed, abs(v.x) * new_speed);
            lemma_square_ordered(abs(r.y) * speed, abs(v.y) * new_speed);
            lemma_square_ordered(abs(r.z) * speed, abs(v.z) * new_speed);
            assert forall|a: int, b: int| #[trigger] ((a * b) * (a * b)) == (a * a) * (b * b)
                by {
                vstd::arithmetic::mul::lemma_mul_is_associative(a, b, a * b);
                vstd::arithmetic::mul::lemma_mul_is_associative(b, a, b);
                vstd::arithmetic::mul::lemma_mul_is_commutative(b, a);
                vstd::arithmetic::mul::lemma_mul_is_associative(a, a, b * b);
                vstd::arithmetic::mul::lemma_mul_is_associative(a, b, b);
            }
            assert((abs(r.x) * speed) * (abs(r.x) * speed)
                == (abs(r.x) * abs(r.x)) * (speed * speed));
            assert((abs(r.y) * speed) * (abs(r.y) * speed)
                == (abs(r.y) * abs(r.y)) * (speed * speed));
            assert((abs(r.z) * speed) * (abs(r.z) * speed)
                == (abs(r.z) * abs(r.z)) * (speed * speed));
            assert((abs(v.x) * new_speed) * (abs(v.x) * new_speed)
                == (abs(v.x) * abs(v.x)) * (new_speed * new_speed));
            assert((abs(v.y) * new_speed) * (abs(v.y) * new_speed)
                == (abs(v.y) * abs(v.y)) * (new_speed * new_speed));
            assert((abs(v.z) * new_speed) * (abs(v.z) * new_speed)
                == (abs(v.z) * abs(v.z)) * (new_speed * new_speed));
            vstd::arithmetic::mul::lemma_mul_is_distributive_add_other_way(
                speed * speed, r.x * r.x + r.y * r.y, r.z * r.z);
            vstd::arithmetic::mul::lemma_mul_is_distributive_add_other_way(
                speed * speed, r.x * r.x, r.y * r.y);
            vstd::arithmetic::mul::lemma_mul_is_distributive_add_other_way(
                new_speed * new_speed, v.x * v.x + v.y * v.y, v.z * v.z);
            vstd::arithmetic::mul::lemma_mul_is_distributive_add_other_way(
                new_speed * new_speed, v.x * v.x, v.y * v.y);
            assert(v3_norm_sq(r) * (speed * speed) <= nsq * (new_speed * new_speed));
            assert(new_speed * new_speed < speed * speed) by (nonlinear_arith)
                requires 0 <= new_speed && new_speed <= speed - 1 && speed >= 1;
            assert(nsq > 0) by (nonlinear_arith)
                requires speed >= 100 && speed * speed <= nsq;
            vstd::arithmetic::mul::lemma_mul_left_inequality(
                nsq, new_speed * new_speed, speed * speed);
            vstd::arithmetic::mul::lemma_mul_is_commutative(nsq, new_speed * new_speed);
            vstd::arithmetic::mul::lemma_mul_is_commutative(nsq, speed * speed);
            lemma_cancel_factor(v3_norm_sq(r), nsq, speed * speed);
            assert(speed * speed >= 1) by (nonlinear_arith)
                requires speed >= 1;
        }
    }
}

/// `n` ground-acceleration steps with fixed inputs.
pub open spec fn spec_accelerate_iter(
    v: V3,
    d: V3,
    wish_speed: int,
    accel: int,
    dt: int,
    n: nat,
) -> V3
    decreases n,
{
    if n == 0 {
        v
    } else {
        spec_accelerate(
            spec_accelerate_iter(v, d, wish_speed, accel, dt, (n - 1) as nat),
            d, wish_speed, accel, dt)
    }
}

/// One ground-acceleration step never lowers the along-axis speed and
/// never raises it above `max(current, wish_speed)`.
pub proof fn lemma_accelerate_step(v: V3, d: V3, wish_speed: int, accel: int, dt: int)
    requires
        v3_norm_sq(d) <= 1_000_000,
        wish_speed >= 0,
        accel >= 0,
        dt >= 0,
    ensures
        v3_dot(spec_accelerate(v, d, wish_speed, accel, dt), d) >= v3_dot(v, d),
        spec_current_speed(spec_accelerate(v, d, wish_speed, accel, dt), d)
            <= max(spec_current_speed(v, d), wish_speed),
{
    let current = spec_current_speed(v, d);
    let add = wish_speed - current;
    if add > 0 {
        vstd::arithmetic::mul::lemma_mul_nonnegative(accel, wish_speed);
        vstd::arithmetic::mul::lemma_mul_nonnegative(accel * wish_speed, dt);
        lemma_trunc_div_facts(accel * wish_speed * dt, 1_000_000);
        let k = trunc_div(accel * wish_speed * dt, 1_000_000);
        lemma_cancel_factor(0, k, 1_000_000);
        let amount = spec_accel_amount(wish_speed, accel, dt, add);
        lemma_add_scaled_dot(v, d, amount);
        vstd::arithmetic::mul::lemma_mul_inequality(v3_norm_sq(d), 1_000_000, amount);
        lemma_trunc_div_facts(v3_dot(v, d), 1000);
        let r = spec_accelerate(v, d, wish_speed, accel, dt);
        lemma_trunc_div_upper(v3_dot(r, d), wish_speed, 1000);
    }
}

/// Ground accelerate saturation: across any number of steps with the same
/// wish direction, the along-axis speed never decreases, and never passes
/// `max(initial along-axis speed, wish_speed)` — in particular, once the
/// wish speed is reached it is never exceeded.
pub proof fn lemma_accelerate_saturation(
    v: V3,
    d: V3,
    wish_speed: int,
    accel: int,
    dt: int,
    n: nat,
)
    requires
        v3_norm_sq(d) <= 1_000_000,
        wish_speed >= 0,
        accel >= 0,
        dt >= 0,
    ensures
        v3_dot(spec_accelerate_iter(v, d, wish_speed, accel, dt, n), d) >= v3_dot(v, d),
        spec_current_speed(spec_accelerate_iter(v, d, wish_speed, accel, dt, n), d)
            <= max(spec_current_speed(v, d), wish_speed),
    decreases n,
{
    if n > 0 {
        let prev = spec_accelerate_iter(v, d, wish_speed, accel, dt, (n - 1) as nat);
        lemma_accelerate_saturation(v, d, wish_speed, accel, dt, (n - 1) as nat);
        lemma_accelerate_step(prev, d, wish_speed, accel, dt);
        lemma_trunc_div_facts(v3_dot(v, d), 1000);
    }
}

/// One ground-acceleration step along a unit axis direction, exactly: the
/// along-axis speed gains `accel * wish_speed * dt`, clamped to
/// `wish_speed`, and a speed already at or past the target is untouched.
proof fn lemma_accelerate_axis_step(v: V3, d: V3, wish_speed: int, accel: int, dt: int)
    requires
        d.x == 1000,
        d.y == 0,
        d.z == 0,
        0 <= v.x,
        0 <= wish_speed,
        0 <= accel,
        0 <= dt,
    ensures
        ({
            let k = trunc_div(accel * wish_speed * dt, 1_000_000);
            let r = spec_accelerate(v, d, wish_speed, accel, dt);
            &&& r.y == v.y
            &&& r.z == v.z
            &&& r.x == if v.x >= wish_speed { v.x } else { min(v.x + k, wish_speed) }
        }),
{
    vstd::arithmetic::mul::lemma_mul_by_zero_is_zero(v.y);
    vstd::arithmetic::mul::lemma_mul_by_zero_is_zero(v.z);
    vstd::arithmetic::mul::lemma_mul_is_commutative(v.x, 1000);
    lemma_trunc_div_multiple(v.x, 1000);
    assert(spec_current_speed(v, d) == v.x);
    let add = wish_speed - v.x;
    if add > 0 {
        vstd::arithmetic::mul::lemma_mul_nonnegative(accel, wish_speed);
        vstd::arithmetic::mul::lemma_mul_nonnegative(accel * wish_speed, dt);
        lemma_trunc_div_facts(accel * wish_speed * dt, 1_000_000);
        let k = trunc_div(accel * wish_speed * dt, 1_000_000);
        lemma_cancel_factor(0, k, 1_000_000);
        let amount = spec_accel_amount(wish_speed, accel, dt, add);
        vstd::arithmetic::mul::lemma_mul_is_commutative(amount, 1000);
        lemma_trunc_div_multiple(amount, 1000);
        vstd::arithmetic::mul::lemma_mul_by_zero_is_zero(amount);
        vstd::arithmetic::div_mod::lemma_div_of0(1000);
    }
}

/// Ground accelerate convergence along a unit axis direction: starting at
/// or below the wish speed, after `n` steps the along-axis speed is
/// exactly `min(initial + n * k, wish_speed)`, where `k` is the per-step
/// gain `accel * wish_speed * dt` — it climbs linearly, reaches the wish
/// speed, and stays there.
pub proof fn lemma_accelerate_axis_convergence(
    v: V3,
    d: V3,
    wish_speed: int,
    accel: int,
    dt: int,
    n: nat,
)
    requires
        d.x == 1000,
        d.y == 0,
        d.z == 0,
        0 <= v.x <= wish_speed,
        0 <= accel,
        0 <= dt,
    ensures
        ({
            let k = trunc_div(accel * wish_speed * dt, 1_000_000);
            let r = spec_accelerate_iter(v, d, wish_speed, accel, dt, n);
            &&& r.x == min(v.x + n * k, wish_speed)
            &&& r.y == v.y
            &&& r.z == v.z
        }),
    decreases n,
{
    vstd::arithmetic::mul::lemma_mul_nonnegative(accel, wish_speed);
    vstd::arithmetic::mul::lemma_mul_nonnegative(accel * wish_speed, dt);
    lemma_trunc_div_facts(accel * wish_speed * dt, 1_000_000);
    let k = trunc_div(accel * wish_speed * dt, 1_000_000);
    lemma_cancel_factor(0, k, 1_000_000);
    if n == 0 {
        vstd::arithmetic::mul::lemma_mul_by_zero_is_zero(k);
    } else {
        let prev = spec_accelerate_iter(v, d, wish_speed, accel, dt, (n - 1) as nat);
        lemma_accelerate_axis_convergence(v, d, wish_speed, accel, dt, (n - 1) as nat);
        vstd::arithmetic::mul::lemma_mul_nonnegative(n - 1, k);
        lemma_accelerate_axis_step(prev, d, wish_speed, accel, dt);
        assert(n * k == (n - 1) * k + k) by (nonlinear_arith);
    }
}

/// `n` air-acceleration steps with fixed inputs.
pub open spec fn spec_air_accelerate_iter(
    v: V3,
    d: V3,
    wish_speed: int,
    accel: int,
    air_wish_cap: int,
    air_speed_cap: int,
    dt: int,
    n: nat,
) -> V3
    decreases n,
{
    if n == 0 {
        v
    } else {
        spec_air_accelerate(
            spec_air_accelerate_iter(
                v, d, wish_speed, accel, air_wish_cap, air_speed_cap, dt, (n - 1) as nat),
            d, wish_speed, accel, air_wish_cap, air_speed_cap, dt)
    }
}

/// One air-acceleration step never leaves the squared horizontal speed
/// above the larger of its old value and `(air_speed_cap + 1)^2 - 1`.
pub proof fn lemma_air_accelerate_step(
    v: V3,
    d: V3,
    wish_speed: int,
    accel: int,
    air_wish_cap: int,
    air_speed_cap: int,
    dt: int,
)
    requires
        air_speed_cap >= 1,
    ensures
        v3_hnorm_sq(spec_air_accelerate(
            v, d, wish_speed, accel, air_wish_cap, air_speed_cap, dt))
            <= max(v3_hnorm_sq(v), (air_speed_cap + 1) * (air_speed_cap + 1) - 1),
{
    let wish_capped = min(wish_speed, air_wish_cap);
    let current = spec_current_speed(v, d);
    let add = wish_capped - current;
    if add > 0 {
        let amount = spec_accel_amount(wish_speed, accel, dt, add);
        let nv = v3_add(v, spec_scale_dir(d, amount));
        lemma_norm_sq_nonneg(nv);
        lemma_sqrt_floor_exists(v3_hnorm_sq(nv));
        let hs = sqrt_floor(v3_hnorm_sq(nv));
        if hs > air_speed_cap {
            lemma_air_rescale(nv, air_speed_cap, hs);
        } else {
            lemma_square_ordered(hs + 1, air_speed_cap + 1);
        }
    }
}

/// Air speed cap enforcement: across any number of air-acceleration steps,
/// the squared horizontal speed never passes the larger of its initial
/// value and `(air_speed_cap + 1)^2 - 1` — so a velocity that starts at or
/// under the cap stays at or under it.
pub proof fn lemma_air_speed_cap(
    v: V3,
    d: V3,
    wish_speed: int,
    accel: int,
    air_wish_cap: int,
    air_speed_cap: int,
    dt: int,
    n: nat,
)
    requires
        air_speed_cap >= 1,
    ensures
        v3_hnorm_sq(spec_air_accelerate_iter(
            v, d, wish_speed, accel, air_wish_cap, air_speed_cap, dt, n))
            <= max(v3_hnorm_sq(v), (air_speed_cap + 1) * (air_speed_cap + 1) - 1),
    decreases n,
{
    if n > 0 {
        let prev = spec_air_accelerate_iter(
            v, d, wish_speed, accel, air_wish_cap, air_speed_cap, dt, (n - 1) as nat);
        lemma_air_speed_cap(
            v, d, wish_speed, accel, air_wish_cap, air_speed_cap, dt, (n - 1) as nat);
        lemma_air_accelerate_step(
            prev, d, wish_speed, accel, air_wish_cap, air_speed_cap, dt);
    }
}

/// A held jump fires the instant the agent is grounded: the vertical
/// velocity becomes exactly the jump speed and the agent leaves the ground
/// in the same tick, which is what makes continuous hopping possible.
pub proof fn lemma_jump_transition(a: AgentModel, c: MovementConfig, dt: int)
    requires
        a.grounded,
        a.wish_jump,
    ensures
        spec_player_movement(a, c, dt).velocity.y == c.sv_jumpspeed,
        !spec_player_movement(a, c, dt).grounded,
{
}

/// The jump arc of one tick.  An agent standing at rest on the baseline
/// floor with jump held and no movement intent leaves the tick airborne,
/// with vertical velocity `jump_speed - gravity * dt` and its height
/// raised by that velocity times `dt` — for every tuning and timestep.
pub proof fn lemma_tick_jump_arc(a: AgentModel, c: MovementConfig, dt: int)
    requires
        a.position.y == c.player_height / 2,
        a.velocity == v3_zero(),
        a.wish_dir == v3_zero(),
        a.wish_jump,
        config_wf(c),
        1 <= dt,
    ensures
        ({
            let g = trunc_div(c.sv_gravity * dt, 1000);
            let r = spec_tick(a, Seq::<Volume>::empty(), c, dt);
            &&& r.velocity.y == c.sv_jumpspeed - g
            &&& r.position.y == a.position.y + trunc_div((c.sv_jumpspeed - g) * dt, 1000)
            &&& r.position.x == a.position.x
            &&& r.position.z == a.position.z
            &&& !r.grounded
        }),
{
    vstd::arithmetic::mul::lemma_mul_by_zero_is_zero(dt);
    vstd::arithmetic::div_mod::lemma_div_of0(1000);
    assert(v3_norm_sq(v3_zero()) == 0) by (nonlinear_arith);
}

/// Ground resolver step-up: a non-wall volume whose footprint contains
/// the agent supports it exactly when its top is within `max_step_up` of
/// the feet or still below the agent's center; otherwise only the world
/// baseline at height 0 remains.
pub proof fn lemma_step_up(vol: Volume, pos: V3, feet_y: int, c: MovementConfig)
    requires
        !(vol.kind is Wall),
        spec_footprint_contains(vol, pos, c.player_radius as int),
    ensures
        spec_floor_top(vol, pos) <= feet_y + c.max_step_up || spec_floor_top(vol, pos) < pos.y
            ==> spec_ground_height(seq![vol], pos, feet_y, c)
                == max(0, spec_floor_top(vol, pos)),
        spec_floor_top(vol, pos) > feet_y + c.max_step_up && spec_floor_top(vol, pos) >= pos.y
            ==> spec_ground_height(seq![vol], pos, feet_y, c) == 0,
{
    let s = seq![vol];
    assert(s.len() == 1);
    assert(s.drop_last() =~= Seq::<Volume>::empty());
    assert(s.last() == vol);
    assert(spec_ground_height(s.drop_last(), pos, feet_y, c) == 0);
}

} // verus!
