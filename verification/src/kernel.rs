//! Locomotion kernel: pure transforms on velocity.
//!
//! These are the per-tick velocity updates — ground friction, ground
//! acceleration and air acceleration — stated and proved against exact
//! fixed-point models.  One world unit is `SCALE` (1000) counts; products of
//! two fixed-point factors are divided by `SCALE * SCALE` to return to
//! counts.

use vstd::prelude::*;
use vstd::math::{abs, max, min};
use crate::math::{
    trunc_div, sqrt_floor, is_sqrt, isqrt, min_i64, max_i64,
    lemma_trunc_div_facts, lemma_trunc_div_abs, lemma_trunc_div_upper,
    lemma_abs_mul, lemma_sq_abs, lemma_cancel_factor, lemma_square_ordered,
};
use crate::vec3::{
    Vec3, V3, v3_zero, v3_add, v3_dot, v3_norm_sq, v3_hnorm_sq, v3_in_bounds,
    lemma_sq_bound, lemma_mul_bound,
};

verus! {

/// Below this speed (0.1 units/s) friction snaps the velocity to zero.
pub const FRICTION_SNAP_SPEED: i64 = 100;

/// Exact model of `apply_friction`.
pub open spec fn spec_apply_friction(v: V3, friction: int, stop_speed: int, dt: int) -> V3 {
    let speed = sqrt_floor(v3_norm_sq(v));
    if speed < FRICTION_SNAP_SPEED {
        v3_zero()
    } else {
        let control = max(speed, stop_speed);
        let drop = trunc_div(control * friction * dt, 1_000_000);
        let new_speed = max(speed - drop, 0);
        V3 {
            x: trunc_div(v.x * new_speed, speed),
            y: trunc_div(v.y * new_speed, speed),
            z: trunc_div(v.z * new_speed, speed),
        }
    }
}

/// One scaled component of the friction result shrinks in magnitude:
/// `|trunc_div(c * new_speed, speed)| <= |c|` when `0 <= new_speed <= speed`.
pub(crate) proof fn lemma_friction_component(c: int, new_speed: int, speed: int)
    requires
        speed >= 1,
        0 <= new_speed <= speed,
    ensures
        abs(trunc_div(c * new_speed, speed)) <= abs(c),
        abs(trunc_div(c * new_speed, speed)) * speed <= abs(c) * new_speed,
{
    lemma_trunc_div_abs(c * new_speed, speed);
    lemma_abs_mul(c, new_speed);
    let q = abs(trunc_div(c * new_speed, speed));
    assert(abs(c) * new_speed <= abs(c) * speed) by (nonlinear_arith)
        requires 0 <= new_speed <= speed && 0 <= abs(c);
    lemma_cancel_factor(q as int, abs(c) as int, speed);
}

/// Apply ground friction: snap to zero below `FRICTION_SNAP_SPEED`,
/// otherwise reduce the speed by `control * friction * dt` (with `control`
/// at least `stop_speed`), scaling the vector so its direction is kept.
///
/// The result is the exact model `spec_apply_friction`; in addition the
/// speed never grows, and a velocity already slower than the snap threshold
/// comes back as exactly zero.
pub fn apply_friction(velocity: Vec3, friction: i64, stop_speed: i64, dt: i64) -> (r: Vec3)
    requires
        v3_in_bounds(velocity@, 1_000_000_000),
        1 <= friction <= 1_000_000,
        1 <= stop_speed <= 1_000_000,
        1 <= dt <= 1_000,
    ensures
        r@ == spec_apply_friction(velocity@, friction as int, stop_speed as int, dt as int),
        v3_norm_sq(velocity@) < FRICTION_SNAP_SPEED * FRICTION_SNAP_SPEED ==> r@ == v3_zero(),
        v3_norm_sq(r@) <= v3_norm_sq(velocity@),
        abs(r@.x) <= abs(velocity@.x),
        abs(r@.y) <= abs(velocity@.y),
        abs(r@.z) <= abs(velocity@.z),
{
    let nsq = velocity.norm_sq();
    let speed = isqrt(nsq);
    proof {
        lemma_sq_bound(velocity@.x, 1_000_000_000);
        lemma_sq_bound(velocity@.y, 1_000_000_000);
        lemma_sq_bound(velocity@.z, 1_000_000_000);
        lemma_square_ordered(speed as int, 1_800_000_000);
        assert(1_800_000_000int * 1_800_000_000 == 3_240_000_000_000_000_000) by (nonlinear_arith);
        if v3_norm_sq(velocity@) < FRICTION_SNAP_SPEED * FRICTION_SNAP_SPEED {
            lemma_square_ordered(speed as int, 100);
        }
        if speed >= FRICTION_SNAP_SPEED {
            assert(v3_norm_sq(velocity@) >= 100 * 100) by (nonlinear_arith)
                requires speed >= 100 && speed * speed <= v3_norm_sq(velocity@);
        }
    }
    if speed < FRICTION_SNAP_SPEED {
        return Vec3::zero();
    }
    let control = max_i64(speed, stop_speed);
    proof {
        lemma_mul_bound(control as int, friction as int, 1_800_000_000, 1_000_000);
        lemma_mul_bound(control * friction, dt as int, 1_800_000_000_000_000, 1_000);
        lemma_trunc_div_facts(control * friction * dt, 1_000_000);
        assert(control * friction >= 1 && control * friction * dt >= 1) by (nonlinear_arith)
            requires control >= 1 && friction >= 1 && dt >= 1;
    }
    let drop = control * friction * dt / 1_000_000;
    let new_speed = max_i64(speed - drop, 0);
    proof {
        assert(drop >= 0);
        lemma_mul_bound(velocity@.x, new_speed as int, 1_000_000_000, 1_800_000_000);
        lemma_mul_bound(velocity@.y, new_speed as int, 1_000_000_000, 1_800_000_000);
        lemma_mul_bound(velocity@.z, new_speed as int, 1_000_000_000, 1_800_000_000);
    }
    let rx = velocity.x * new_speed / speed;
    let ry = velocity.y * new_speed / speed;
    let rz = velocity.z * new_speed / speed;
    proof {
        lemma_friction_component(velocity@.x, new_speed as int, speed as int);
        lemma_friction_component(velocity@.y, new_speed as int, speed as int);
        lemma_friction_component(velocity@.z, new_speed as int, speed as int);
        lemma_sq_abs(rx as int);
        lemma_sq_abs(ry as int);
        lemma_sq_abs(rz as int);
        lemma_sq_abs(velocity@.x);
        lemma_sq_abs(velocity@.y);
        lemma_sq_abs(velocity@.z);
        lemma_square_ordered(abs(rx as int) as int, abs(velocity@.x) as int);
        lemma_square_ordered(abs(ry as int) as int, abs(velocity@.y) as int);
        lemma_square_ordered(abs(rz as int) as int, abs(velocity@.z) as int);
    }
    Vec3 { x: rx, y: ry, z: rz }
}

/// The velocity's component along the wish direction, in fixed-point
/// counts: the dot product carries a factor of `SCALE`, which is divided
/// back out.
pub open spec fn spec_current_speed(v: V3, d: V3) -> int {
    trunc_div(v3_dot(v, d), 1000)
}

/// The speed increment of one acceleration step: `accel * wish_speed * dt`,
/// clamped to the remaining deficit `add`.
pub open spec fn spec_accel_amount(wish_speed: int, accel: int, dt: int, add: int) -> int {
    min(trunc_div(accel * wish_speed * dt, 1_000_000), add)
}

/// A direction vector scaled by a fixed-point amount.
pub open spec fn spec_scale_dir(d: V3, amount: int) -> V3 {
    V3 {
        x: trunc_div(d.x * amount, 1000),
        y: trunc_div(d.y * amount, 1000),
        z: trunc_div(d.z * amount, 1000),
    }
}

/// Exact model of `accelerate`.
pub open spec fn spec_accelerate(v: V3, d: V3, wish_speed: int, accel: int, dt: int) -> V3 {
    let current = spec_current_speed(v, d);
    let add = wish_speed - current;
    if add <= 0 {
        v
    } else {
        v3_add(v, spec_scale_dir(d, spec_accel_amount(wish_speed, accel, dt, add)))
    }
}

/// One term of the dot product after adding a scaled direction: the term
/// `c * trunc_div(c * amount, 1000)` is nonnegative and, scaled by 1000,
/// at most `c * c * amount`.
pub(crate) proof fn lemma_scale_term(c: int, amount: int)
    requires
        amount >= 0,
    ensures
        0 <= c * trunc_div(c * amount, 1000),
        1000 * (c * trunc_div(c * amount, 1000)) <= (c * c) * amount,
{
    let t = trunc_div(c * amount, 1000);
    lemma_trunc_div_facts(c * amount, 1000);
    if c >= 0 {
        vstd::arithmetic::mul::lemma_mul_nonnegative(c, amount);
        assert(0 <= c * t && 1000 * (c * t) <= (c * c) * amount) by (nonlinear_arith)
            requires c >= 0 && amount >= 0 && 0 <= t * 1000 <= c * amount;
    } else {
        assert(c * amount <= 0) by (nonlinear_arith)
            requires c < 0 && amount >= 0;
        assert(0 <= c * t && 1000 * (c * t) <= (c * c) * amount) by (nonlinear_arith)
            requires c < 0 && amount >= 0 && c * amount <= t * 1000 <= 0;
    }
}

/// Adding the scaled direction `spec_scale_dir(d, amount)` to `v` never
/// lowers the dot product with `d`, and raises it (scaled by 1000) by at
/// most `norm_sq(d) * amount`.
pub(crate) proof fn lemma_add_scaled_dot(v: V3, d: V3, amount: int)
    requires
        amount >= 0,
    ensures
        v3_dot(v3_add(v, spec_scale_dir(d, amount)), d) >= v3_dot(v, d),
        1000 * v3_dot(v3_add(v, spec_scale_dir(d, amount)), d)
            <= 1000 * v3_dot(v, d) + v3_norm_sq(d) * amount,
{
    let t = spec_scale_dir(d, amount);
    lemma_scale_term(d.x, amount);
    lemma_scale_term(d.y, amount);
    lemma_scale_term(d.z, amount);
    vstd::arithmetic::mul::lemma_mul_is_distributive_add_other_way(d.x, v.x, t.x);
    vstd::arithmetic::mul::lemma_mul_is_distributive_add_other_way(d.y, v.y, t.y);
    vstd::arithmetic::mul::lemma_mul_is_distributive_add_other_way(d.z, v.z, t.z);
    vstd::arithmetic::mul::lemma_mul_is_commutative(t.x, d.x);
    vstd::arithmetic::mul::lemma_mul_is_commutative(t.y, d.y);
    vstd::arithmetic::mul::lemma_mul_is_commutative(t.z, d.z);
    vstd::arithmetic::mul::lemma_mul_is_distributive_add_other_way(
        amount, d.x * d.x + d.y * d.y, d.z * d.z);
    vstd::arithmetic::mul::lemma_mul_is_distributive_add_other_way(
        amount, d.x * d.x, d.y * d.y);
}

/// A component of a direction with squared length at most a million lies
/// within one `SCALE` of zero.
pub(crate) proof fn lemma_dir_components(d: V3)
    requires
        v3_norm_sq(d) <= 1_000_000,
    ensures
        -1000 <= d.x <= 1000,
        -1000 <= d.y <= 1000,
        -1000 <= d.z <= 1000,
{
    assert(-1000 <= d.x <= 1000 && -1000 <= d.y <= 1000 && -1000 <= d.z <= 1000)
        by (nonlinear_arith)
        requires d.x * d.x + d.y * d.y + d.z * d.z <= 1_000_000;
}

/// Quake-style ground acceleration: add speed along the wish direction
/// until the component of the velocity along it reaches `wish_speed`.
///
/// The result is the exact model `spec_accelerate`; in addition a velocity
/// already at or above the target along the wish axis is returned
/// unchanged, the vertical component is untouched for a horizontal wish
/// direction, the component along the wish direction never decreases, and
/// it never ends above `max(current, wish_speed)`.
pub fn accelerate(velocity: Vec3, wish_dir: Vec3, wish_speed: i64, accel: i64, dt: i64) -> (r: Vec3)
    requires
        v3_in_bounds(velocity@, 1_000_000_000),
        v3_norm_sq(wish_dir@) <= 1_000_000,
        1 <= wish_speed <= 1_000_000,
        1 <= accel <= 1_000_000,
        1 <= dt <= 1_000,
    ensures
        r@ == spec_accelerate(velocity@, wish_dir@, wish_speed as int, accel as int, dt as int),
        spec_current_speed(velocity@, wish_dir@) >= wish_speed ==> r@ == velocity@,
        wish_dir@.y == 0 ==> r@.y == velocity@.y,
        v3_dot(r@, wish_dir@) >= v3_dot(velocity@, wish_dir@),
        spec_current_speed(r@, wish_dir@)
            <= max(spec_current_speed(velocity@, wish_dir@), wish_speed as int),
        abs(r@.x - velocity@.x) <= trunc_div(accel * wish_speed * dt, 1_000_000),
        abs(r@.y - velocity@.y) <= trunc_div(accel * wish_speed * dt, 1_000_000),
        abs(r@.z - velocity@.z) <= trunc_div(accel * wish_speed * dt, 1_000_000),
        v3_in_bounds(r@, 2_000_000_000),
{
    proof {
        lemma_dir_components(wish_dir@);
        lemma_mul_bound(velocity@.x, wish_dir@.x, 1_000_000_000, 1_000);
        lemma_mul_bound(velocity@.y, wish_dir@.y, 1_000_000_000, 1_000);
        lemma_mul_bound(velocity@.z, wish_dir@.z, 1_000_000_000, 1_000);
    }
    let dot = velocity.dot(wish_dir);
    let current = dot / 1000;
    proof {
        lemma_trunc_div_abs(dot as int, 1000);
    }
    let add = wish_speed - current;
    if add <= 0 {
        return velocity;
    }
    proof {
        lemma_mul_bound(accel as int, wish_speed as int, 1_000_000, 1_000_000);
        lemma_mul_bound(accel * wish_speed, dt as int, 1_000_000_000_000, 1_000);
        lemma_trunc_div_facts(accel * wish_speed * dt, 1_000_000);
        lemma_trunc_div_upper(accel * wish_speed * dt, 1_000_000_000, 1_000_000);
        assert(1_000_000_000int * 1_000_000 + (1_000_000 - 1) >= 1_000_000_000_000_000)
            by (nonlinear_arith);
    }
    let amount = min_i64(accel * wish_speed * dt / 1_000_000, add);
    proof {
        lemma_mul_bound(wish_dir@.x, amount as int, 1_000, 1_000_000_000);
        lemma_mul_bound(wish_dir@.y, amount as int, 1_000, 1_000_000_000);
        lemma_mul_bound(wish_dir@.z, amount as int, 1_000, 1_000_000_000);
    }
    let tx = wish_dir.x * amount / 1000;
    let ty = wish_dir.y * amount / 1000;
    let tz = wish_dir.z * amount / 1000;
    proof {
        lemma_trunc_div_abs(wish_dir@.x * amount, 1000);
        lemma_trunc_div_abs(wish_dir@.y * amount, 1000);
        lemma_trunc_div_abs(wish_dir@.z * amount, 1000);
        lemma_abs_mul(wish_dir@.x, amount as int);
        lemma_abs_mul(wish_dir@.y, amount as int);
        lemma_abs_mul(wish_dir@.z, amount as int);
        assert(abs(wish_dir@.x) * amount <= 1000 * amount) by (nonlinear_arith)
            requires abs(wish_dir@.x) <= 1000 && amount >= 0;
        assert(abs(wish_dir@.y) * amount <= 1000 * amount) by (nonlinear_arith)
            requires abs(wish_dir@.y) <= 1000 && amount >= 0;
        assert(abs(wish_dir@.z) * amount <= 1000 * amount) by (nonlinear_arith)
            requires abs(wish_dir@.z) <= 1000 && amount >= 0;
        lemma_cancel_factor(abs(tx as int) as int, amount as int, 1000);
        lemma_cancel_factor(abs(ty as int) as int, amount as int, 1000);
        lemma_cancel_factor(abs(tz as int) as int, amount as int, 1000);
    }
    let r = Vec3 { x: velocity.x + tx, y: velocity.y + ty, z: velocity.z + tz };
    proof {
        assert(r@ == v3_add(velocity@, spec_scale_dir(wish_dir@, amount as int)));
        if wish_dir@.y == 0 {
            vstd::arithmetic::mul::lemma_mul_by_zero_is_zero(amount as int);
            vstd::arithmetic::div_mod::lemma_div_of0(1000);
        }
        lemma_add_scaled_dot(velocity@, wish_dir@, amount as int);
        vstd::arithmetic::mul::lemma_mul_inequality(
            v3_norm_sq(wish_dir@), 1_000_000, amount as int);
        lemma_trunc_div_facts(dot as int, 1000);
        lemma_trunc_div_upper(v3_dot(r@, wish_dir@), wish_speed as int, 1000);
    }
    r
}

/// Exact model of `air_accelerate`.  The add-speed deficit is measured
/// against `min(wish_speed, air_wish_cap)`, while the increment magnitude
/// still uses the full `wish_speed`; afterwards the horizontal speed is
/// soft-capped at `air_speed_cap`.
pub open spec fn spec_air_accelerate(
    v: V3,
    d: V3,
    wish_speed: int,
    accel: int,
    air_wish_cap: int,
    air_speed_cap: int,
    dt: int,
) -> V3 {
    let wish_capped = min(wish_speed, air_wish_cap);
    let current = spec_current_speed(v, d);
    let add = wish_capped - current;
    if add <= 0 {
        v
    } else {
        let nv = v3_add(v, spec_scale_dir(d, spec_accel_amount(wish_speed, accel, dt, add)));
        let hs = sqrt_floor(v3_hnorm_sq(nv));
        if hs > air_speed_cap {
            V3 {
                x: trunc_div(nv.x * air_speed_cap, hs),
                y: nv.y,
                z: trunc_div(nv.z * air_speed_cap, hs),
            }
        } else {
            nv
        }
    }
}

/// Rescaling the horizontal components by `cap / hs` (with `hs` the
/// floor-square-root of their squared length and `hs > cap`) brings the
/// squared horizontal length strictly under `(cap + 1)^2`, shrinking each
/// component.
pub(crate) proof fn lemma_air_rescale(nv: V3, cap: int, hs: int)
    requires
        cap >= 1,
        hs > cap,
        is_sqrt(v3_hnorm_sq(nv), hs),
    ensures
        trunc_div(nv.x * cap, hs) * trunc_div(nv.x * cap, hs)
            + trunc_div(nv.z * cap, hs) * trunc_div(nv.z * cap, hs)
            < (cap + 1) * (cap + 1),
        abs(trunc_div(nv.x * cap, hs)) <= abs(nv.x),
        abs(trunc_div(nv.z * cap, hs)) <= abs(nv.z),
{
    let rx = trunc_div(nv.x * cap, hs);
    let rz = trunc_div(nv.z * cap, hs);
    let ax = abs(rx) as int;
    let az = abs(rz) as int;
    let bx = abs(nv.x) as int;
    let bz = abs(nv.z) as int;
    lemma_trunc_div_abs(nv.x * cap, hs);
    lemma_trunc_div_abs(nv.z * cap, hs);
    lemma_abs_mul(nv.x, cap);
    lemma_abs_mul(nv.z, cap);
    assert(ax * hs <= bx * cap);
    assert(az * hs <= bz * cap);
    // Each component shrinks: ax * hs <= bx * cap <= bx * hs.
    vstd::arithmetic::mul::lemma_mul_inequality(cap, hs, bx);
    vstd::arithmetic::mul::lemma_mul_inequality(cap, hs, bz);
    vstd::arithmetic::mul::lemma_mul_is_commutative(cap, bx);
    vstd::arithmetic::mul::lemma_mul_is_commutative(cap, bz);
    vstd::arithmetic::mul::lemma_mul_is_commutative(hs, bx);
    vstd::arithmetic::mul::lemma_mul_is_commutative(hs, bz);
    lemma_cancel_factor(ax, bx, hs);
    lemma_cancel_factor(az, bz, hs);
    // Square the scaled component inequalities.
    vstd::arithmetic::mul::lemma_mul_nonnegative(ax, hs);
    vstd::arithmetic::mul::lemma_mul_nonnegative(az, hs);
    lemma_square_ordered(ax * hs, bx * cap);
    lemma_square_ordered(az * hs, bz * cap);
    assert((ax * hs) * (ax * hs) == (ax * ax) * (hs * hs)) by (nonlinear_arith);
    assert((az * hs) * (az * hs) == (az * az) * (hs * hs)) by (nonlinear_arith);
    assert((bx * cap) * (bx * cap) == (bx * bx) * (cap * cap)) by (nonlinear_arith);
    assert((bz * cap) * (bz * cap) == (bz * bz) * (cap * cap)) by (nonlinear_arith);
    lemma_sq_abs(rx);
    lemma_sq_abs(rz);
    lemma_sq_abs(nv.x);
    lemma_sq_abs(nv.z);
    let s = v3_hnorm_sq(nv);
    // Sum the squared inequalities.
    vstd::arithmetic::mul::lemma_mul_is_distributive_add_other_way(
        hs * hs, rx * rx, rz * rz);
    vstd::arithmetic::mul::lemma_mul_is_distributive_add_other_way(
        cap * cap, nv.x * nv.x, nv.z * nv.z);
    assert((rx * rx + rz * rz) * (hs * hs) <= s * (cap * cap));
    if rx * rx + rz * rz >= (cap + 1) * (cap + 1) {
        vstd::arithmetic::mul::lemma_mul_inequality(
            (cap + 1) * (cap + 1), rx * rx + rz * rz, hs * hs);
        assert(cap * cap >= 1) by (nonlinear_arith)
            requires cap >= 1;
        vstd::arithmetic::mul::lemma_mul_strict_inequality(
            s, (hs + 1) * (hs + 1), cap * cap);
        vstd::arithmetic::mul::lemma_mul_is_commutative(s, cap * cap);
        vstd::arithmetic::mul::lemma_mul_is_commutative((hs + 1) * (hs + 1), cap * cap);
        assert(((cap + 1) * (cap + 1)) * (hs * hs) == ((cap + 1) * hs) * ((cap + 1) * hs))
            by (nonlinear_arith);
        assert(((hs + 1) * (hs + 1)) * (cap * cap) == ((hs + 1) * cap) * ((hs + 1) * cap))
            by (nonlinear_arith);
        vstd::arithmetic::mul::lemma_mul_nonnegative(cap + 1, hs);
        lemma_square_ordered((cap + 1) * hs, (hs + 1) * cap);
        assert((cap + 1) * hs == cap * hs + hs && (hs + 1) * cap == hs * cap + cap)
            by (nonlinear_arith);
        vstd::arithmetic::mul::lemma_mul_is_commutative(cap, hs);
        assert(false);
    }
}

/// Quake-style air acceleration: the same mechanism as `accelerate`, but
/// the add-speed deficit is computed against the small `air_wish_cap`
/// while the increment is still scaled by the full `wish_speed` — the
/// combination that permits strafe-jump speed gain — and the resulting
/// horizontal speed is soft-capped at `air_speed_cap`.
///
/// The result is the exact model `spec_air_accelerate`; in addition the
/// vertical component is untouched for a horizontal wish direction, and
/// the squared horizontal speed never ends above the larger of its old
/// value and `(air_speed_cap + 1)^2 - 1` — so the horizontal speed itself
/// never ends above `max(old horizontal speed, air_speed_cap)`.
pub fn air_accelerate(
    velocity: Vec3,
    wish_dir: Vec3,
    wish_speed: i64,
    accel: i64,
    air_wish_cap: i64,
    air_speed_cap: i64,
    dt: i64,
) -> (r: Vec3)
    requires
        v3_in_bounds(velocity@, 1_000_000_000),
        v3_norm_sq(wish_dir@) <= 1_000_000,
        1 <= wish_speed <= 1_000_000,
        1 <= accel <= 1_000_000,
        1 <= air_wish_cap <= 1_000_000,
        1 <= air_speed_cap <= 1_000_000,
        1 <= dt <= 1_000,
    ensures
        r@ == spec_air_accelerate(
            velocity@, wish_dir@, wish_speed as int, accel as int,
            air_wish_cap as int, air_speed_cap as int, dt as int),
        wish_dir@.y == 0 ==> r@.y == velocity@.y,
        v3_hnorm_sq(r@) <= max(
            v3_hnorm_sq(velocity@),
            (air_speed_cap + 1) * (air_speed_cap + 1) - 1),
        abs(r@.y - velocity@.y) <= trunc_div(accel * wish_speed * dt, 1_000_000),
        v3_in_bounds(r@, 2_000_000_000),
{
    proof {
        lemma_dir_components(wish_dir@);
        lemma_mul_bound(velocity@.x, wish_dir@.x, 1_000_000_000, 1_000);
        lemma_mul_bound(velocity@.y, wish_dir@.y, 1_000_000_000, 1_000);
        lemma_mul_bound(velocity@.z, wish_dir@.z, 1_000_000_000, 1_000);
    }
    let wish_capped = min_i64(wish_speed, air_wish_cap);
    let dot = velocity.dot(wish_dir);
    let current = dot / 1000;
    proof {
        lemma_trunc_div_abs(dot as int, 1000);
    }
    let add = wish_capped - current;
    if add <= 0 {
        return velocity;
    }
    proof {
        lemma_mul_bound(accel as int, wish_speed as int, 1_000_000, 1_000_000);
        lemma_mul_bound(accel * wish_speed, dt as int, 1_000_000_000_000, 1_000);
        lemma_trunc_div_facts(accel * wish_speed * dt, 1_000_000);
        lemma_trunc_div_upper(accel * wish_speed * dt, 1_000_000_000, 1_000_000);
        assert(1_000_000_000int * 1_000_000 + (1_000_000 - 1) >= 1_000_000_000_000_000)
            by (nonlinear_arith);
    }
    let amount = min_i64(accel * wish_speed * dt / 1_000_000, add);
    proof {
        lemma_mul_bound(wish_dir@.x, amount as int, 1_000, 1_000_000_000);
        lemma_mul_bound(wish_dir@.y, amount as int, 1_000, 1_000_000_000);
        lemma_mul_bound(wish_dir@.z, amount as int, 1_000, 1_000_000_000);
    }
    let tx = wish_dir.x * amount / 1000;
    let ty = wish_dir.y * amount / 1000;
    let tz = wish_dir.z * amount / 1000;
    proof {
        lemma_trunc_div_abs(wish_dir@.x * amount, 1000);
        lemma_trunc_div_abs(wish_dir@.y * amount, 1000);
        lemma_trunc_div_abs(wish_dir@.z * amount, 1000);
        lemma_abs_mul(wish_dir@.x, amount as int);
        lemma_abs_mul(wish_dir@.y, amount as int);
        lemma_abs_mul(wish_dir@.z, amount as int);
        assert(abs(wish_dir@.x) * amount <= 1000 * amount) by (nonlinear_arith)
            requires abs(wish_dir@.x) <= 1000 && amount >= 0;
        assert(abs(wish_dir@.y) * amount <= 1000 * amount) by (nonlinear_arith)
            requires abs(wish_dir@.y) <= 1000 && amount >= 0;
        assert(abs(wish_dir@.z) * amount <= 1000 * amount) by (nonlinear_arith)
            requires abs(wish_dir@.z) <= 1000 && amount >= 0;
        lemma_cancel_factor(abs(tx as int) as int, amount as int, 1000);
        lemma_cancel_factor(abs(ty as int) as int, amount as int, 1000);
        lemma_cancel_factor(abs(tz as int) as int, amount as int, 1000);
        if wish_dir@.y == 0 {
            vstd::arithmetic::mul::lemma_mul_by_zero_is_zero(amount as int);
            vstd::arithmetic::div_mod::lemma_div_of0(1000);
        }
    }
    let nv = Vec3 { x: velocity.x + tx, y: velocity.y + ty, z: velocity.z + tz };
    proof {
        assert(nv@ == v3_add(velocity@, spec_scale_dir(wish_dir@, amount as int)));
    }
    let hsq = nv.hnorm_sq();
    let hs = isqrt(hsq);
    if hs > air_speed_cap {
        proof {
            lemma_mul_bound(nv@.x, air_speed_cap as int, 2_000_000_000, 1_000_000);
            lemma_mul_bound(nv@.z, air_speed_cap as int, 2_000_000_000, 1_000_000);
            lemma_air_rescale(nv@, air_speed_cap as int, hs as int);
        }
        let rx = nv.x * air_speed_cap / hs;
        let rz = nv.z * air_speed_cap / hs;
        Vec3 { x: rx, y: nv.y, z: rz }
    } else {
        proof {
            lemma_square_ordered(hs as int + 1, air_speed_cap as int + 1);
        }
        nv
    }
}

} // verus!
