//! Locomotion core of a first-person action game.
//!
//! The library turns per-frame player intent (a horizontal wish direction and
//! a jump request) into a velocity and position, resolving contact against
//! static level geometry.  All quantities are fixed-point: one world unit is
//! `SCALE` (1000) counts of an `i64`, so the arithmetic is exact and every
//! function here is verified against its specification.

pub mod agent;
pub mod collide;
pub mod ground;
pub mod kernel;
pub mod laws;
pub mod level;
pub mod math;
pub mod tick;
pub mod tuning;
pub mod vec3;

pub use math::SCALE;
