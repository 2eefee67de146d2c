//! The fixed-point scale and the constants of the star field, in steps.
use vstd::prelude::*;

verus! {

/// Steps in one point of screen distance.
pub const UNIT: i32 = 1024;

/// The nearest depth a star may keep (one point): a star that would come
/// closer is sent back to the far end.
pub const NEAR: i32 = 1024;

/// Radius of a star drawn at depth zero (eight points).
pub const MAX_RADIUS: i64 = 8192;

/// Travel speed for a pointer at the right edge of the window (a hundred
/// points each tick).
pub const MAX_SPEED: i64 = 102400;

/// Travel speed of a new universe (ten points each tick).
pub const INITIAL_SPEED: i64 = 10240;

/// Number of stars in a new universe.
pub const STAR_COUNT: usize = 499;

} // verus!
