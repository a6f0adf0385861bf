//! Fixed parameters of the arena and of particle motion.
use vstd::prelude::*;

verus! {

/// Height of the arena in pixels, used to turn floor-relative positions into
/// screen offsets.
pub const CANVAS_HEIGHT: i32 = 600;

/// Rendered width of one particle in pixels.
pub const PIISPIS_WIDTH: i32 = 58;

/// Rendered height of one particle in pixels.
pub const PIISPIS_HEIGHT: i32 = 37;

/// Interval between two ticks of a particle, in milliseconds (about 60 Hz).
pub const ANIM_DELAY_MS: i32 = 16;

/// Magnitude of the horizontal launch speed before jitter.
pub const INITIAL_VELOCITY_X: i32 = 5;

/// Vertical launch speed before jitter.
pub const INITIAL_VELOCITY_Y: i32 = 15;

/// Change of the vertical velocity on every tick (gravity pulls down).
pub const ACCELERATION_Y: i32 = -1;

/// Exclusive upper bound of the horizontal launch jitter.
pub const JITTER_X_BOUND: i32 = 5;

/// Exclusive upper bound of the vertical launch jitter.
pub const JITTER_Y_BOUND: i32 = 7;

/// Number of particles that one click spawns.
pub const SPAWN_COUNT: usize = 5;

} // verus!
