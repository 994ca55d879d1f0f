//! Fixed-point 3-vectors.
//!
//! A `Vec3` holds coordinates in fixed-point counts (`SCALE` counts per world
//! unit).  Its mathematical model is `V3`, the same triple over unbounded
//! integers, reached through the view operator `@`.

use vstd::prelude::*;
use crate::math::{sqrt_floor, is_sqrt, isqrt};

verus! {

/// Mathematical model of a vector: a triple of unbounded integers.
pub struct V3 {
    pub x: int,
    pub y: int,
    pub z: int,
}

/// A coordinate triple in fixed-point counts.
#[derive(Clone, Copy, PartialEq, Eq, Structural, Debug)]
pub struct Vec3 {
    pub x: i64,
    pub y: i64,
    pub z: i64,
}

impl View for Vec3 {
    type V = V3;

    open spec fn view(&self) -> V3 {
        V3 { x: self.x as int, y: self.y as int, z: self.z as int }
    }
}

/// The zero vector.
pub open spec fn v3_zero() -> V3 {
    V3 { x: 0, y: 0, z: 0 }
}

/// Componentwise sum.
pub open spec fn v3_add(a: V3, b: V3) -> V3 {
    V3 { x: a.x + b.x, y: a.y + b.y, z: a.z + b.z }
}

/// Dot product.
pub open spec fn v3_dot(a: V3, b: V3) -> int {
    a.x * b.x + a.y * b.y + a.z * b.z
}

/// Squared length.
pub open spec fn v3_norm_sq(a: V3) -> int {
    a.x * a.x + a.y * a.y + a.z * a.z
}

/// Squared length of the horizontal (x, z) part.
pub open spec fn v3_hnorm_sq(a: V3) -> int {
    a.x * a.x + a.z * a.z
}

/// Every component lies in `[-bound, bound]`.
pub open spec fn v3_in_bounds(a: V3, bound: int) -> bool {
    &&& -bound <= a.x <= bound
    &&& -bound <= a.y <= bound
    &&& -bound <= a.z <= bound
}

/// A square of a value in `[-b, b]` lies in `[0, b * b]`.
pub proof fn lemma_sq_bound(x: int, b: int)
    requires
        -b <= x <= b,
    ensures
        0 <= x * x <= b * b,
{
    assert(0 <= x * x && x * x <= b * b) by (nonlinear_arith)
        requires -b <= x <= b;
}

/// A product of values bounded by `bx` and `by` is bounded by `bx * by`.
pub proof fn lemma_mul_bound(x: int, y: int, bx: int, by: int)
    requires
        -bx <= x <= bx,
        -by <= y <= by,
        0 <= bx,
        0 <= by,
    ensures
        -(bx * by) <= x * y <= bx * by,
{
    assert(-(bx * by) <= x * y <= bx * by) by (nonlinear_arith)
        requires -bx <= x <= bx && -by <= y <= by && 0 <= bx && 0 <= by;
}

impl Vec3 {
    /// The zero vector.
    pub fn zero() -> (r: Vec3)
        ensures
            r@ == v3_zero(),
    {
        Vec3 { x: 0, y: 0, z: 0 }
    }

    /// Dot product.  The bounds keep every term within `i64`.
    pub fn dot(self, o: Vec3) -> (r: i64)
        requires
            v3_in_bounds(self@, 2_000_000_000),
            v3_in_bounds(o@, 1_000_000),
        ensures
            r == v3_dot(self@, o@),
    {
        proof {
            lemma_mul_bound(self@.x, o@.x, 2_000_000_000, 1_000_000);
            lemma_mul_bound(self@.y, o@.y, 2_000_000_000, 1_000_000);
            lemma_mul_bound(self@.z, o@.z, 2_000_000_000, 1_000_000);
        }
        self.x * o.x + self.y * o.y + self.z * o.z
    }

    /// Squared length.
    pub fn norm_sq(self) -> (r: i64)
        requires
            v3_in_bounds(self@, 1_500_000_000),
        ensures
            r == v3_norm_sq(self@),
            0 <= r <= 6_750_000_000_000_000_000,
    {
        proof {
            lemma_sq_bound(self@.x, 1_500_000_000);
            lemma_sq_bound(self@.y, 1_500_000_000);
            lemma_sq_bound(self@.z, 1_500_000_000);
        }
        self.x * self.x + self.y * self.y + self.z * self.z
    }

    /// Squared length of the horizontal (x, z) part.
    pub fn hnorm_sq(self) -> (r: i64)
        requires
            v3_in_bounds(self@, 2_000_000_000),
        ensures
            r == v3_hnorm_sq(self@),
            0 <= r <= 8_000_000_000_000_000_000,
    {
        proof {
            lemma_sq_bound(self@.x, 2_000_000_000);
            lemma_sq_bound(self@.z, 2_000_000_000);
        }
        self.x * self.x + self.z * self.z
    }

    /// The horizontal speed (length of the (x, z) part), rounded down to
    /// whole fixed-point counts — what a speed readout displays.
    pub fn horizontal_speed(self) -> (r: i64)
        requires
            v3_in_bounds(self@, 2_000_000_000),
        ensures
            r == sqrt_floor(v3_hnorm_sq(self@)),
            is_sqrt(v3_hnorm_sq(self@), r as int),
    {
        isqrt(self.hnorm_sq())
    }
}

} // verus!
