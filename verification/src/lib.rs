//! Motion-and-collision core of a 2D tile-based platformer.
//!
//! Positions, rectangle bounds and displacements are exact integers in
//! subpixel units (`SUBPIXELS` units per pixel), so every geometric
//! statement below is proved without rounding error. Collision fractions
//! are exact rationals (`movement::Frac`).

pub mod ferris;
pub mod geom;
pub mod level;
pub mod movement;

use vstd::prelude::*;

verus! {

/// Subpixel units per pixel: world coordinates are `i64` counts of
/// 1/1000 pixel, so a speed in pixels per second times a duration in
/// milliseconds is a displacement in subpixels, exactly.
pub const SUBPIXELS: i64 = 1000;

/// Bound on every coordinate the geometry handles, in subpixels
/// (about 4.3 million pixels). Keeps all intermediate products of the
/// sweep arithmetic inside `i128`.
pub const COORD_LIMIT: i64 = 0x1_0000_0000;

} // verus!
