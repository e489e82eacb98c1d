//! A text-mode first-person renderer core: a tile grid with collision
//! queries, a ray-marching distance algorithm, distance-based shading,
//! player movement with collision revert, and a character screen buffer
//! with clipped writes.
//!
//! All world quantities are fixed-point integers in milli-units
//! (`SCALE` sub-units per world unit), so that every rule is exact:
//! positions and distances are milli-world-units, angles are
//! milli-radians.

use vstd::prelude::*;

pub mod grid;
pub mod player;
pub mod screen;
pub mod ray;
pub mod render;
pub mod shade;

verus! {

/// Fixed-point scale: sub-units per world unit (and per radian).
pub const SCALE: i64 = 1000;

/// Maximum render distance, scaled: 16 world units.
pub const MAX_RENDER_DIST: i64 = 16000;

/// Ray-march step, scaled: 0.1 world units.
pub const RAY_STEP: i64 = 100;

/// Number of ray-march steps that reach `MAX_RENDER_DIST`.
pub const MAX_RAY_STEPS: i64 = 160;

/// Field of view, scaled: a quarter turn (pi/4 radians).
pub const FOV: i64 = 785;

/// A full turn (2 * pi radians), scaled.
pub const TWO_PI: i64 = 6283;

/// Linear movement speed in world units per second.
pub const LINEAR_SPEED: i64 = 10;

/// Angular turn speed in radians per second.
pub const ANGULAR_SPEED: i64 = 5;

} // verus!
