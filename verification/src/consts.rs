//! Fixed design constants of the game, and the coarse application states.
//!
//! Spatial constants are in millipixels (mpx, one thousandth of a pixel),
//! speeds in pixels per second, times in microseconds.

use vstd::prelude::*;

verus! {

/// Speed at which a Slow arrow moves, in pixels per second.
pub const BASE_SPEED: i64 = 200;

/// X coordinate (mpx) at which arrows spawn; out of screen.
pub const SPAWN_POSITION: i64 = -400_000;

/// X coordinate (mpx) where the arrows should be clicked.
pub const TARGET_POSITION: i64 = 200_000;

/// Margin of error (mpx) for clicking an arrow.
pub const THRESHOLD: i64 = 20_000;

/// Total distance (mpx) traveled by an arrow, from spawn to target.
pub const DISTANCE: i64 = TARGET_POSITION - SPAWN_POSITION;

/// An arrow that reaches this x coordinate (mpx) unclicked counts as failed.
pub const MISS_POSITION: i64 = 2 * TARGET_POSITION;

/// Time between session start and the first audio sample, in microseconds.
pub const LEAD_IN_US: i64 = 3_000_000;

/// Overshoot (mpx) past the outer edge of the target zone at which an
/// arrow starts falling, shrinking and spinning: 0.02 pixels.
pub const FALL_TRIGGER: i64 = 20;

/// Sprite scale of a freshly spawned arrow, in thousandths.
pub const SCALE_UNIT: i64 = 1000;

/// Smallest sprite scale a falling arrow shrinks to, in thousandths.
pub const SCALE_FLOOR: i64 = 200;

/// Lowest y coordinate (mpx) a falling arrow is tracked to; far below
/// any screen, it only bounds the fixed-point arithmetic.
pub const Y_FLOOR: i64 = -2_000_000_000;

/// Fewest points a successful click can earn.
pub const POINTS_MIN: i64 = 10;

/// Most points a successful click can earn.
pub const POINTS_MAX: i64 = 100;

/// Longest tick the simulation accepts, in microseconds (one minute).
/// Keeps every per-tick product comfortably inside `i64`.
pub const MAX_TICK_US: i64 = 60_000_000;

/// Largest session time tracked, in microseconds (about thirty years).
pub const MAX_TIME_US: i64 = 1_000_000_000_000_000;

/// A full turn, in microradians.
pub const TWO_PI_URAD: i64 = 6_283_185;

/// A quarter turn, in microradians.
pub const HALF_PI_URAD: i64 = 1_570_796;

/// A half turn, in microradians.
pub const PI_URAD: i64 = 3_141_593;

/// Three quarter turns, in microradians.
pub const THREE_HALF_PI_URAD: i64 = 4_712_389;

/// States the surrounding application moves through.
#[derive(Clone, PartialEq, Eq, Structural, Hash, Debug)]
pub enum AppState {
    Menu,
    Game,
    MakeMap,
}

} // verus!
