//! A rhythm-game core: a chart of timed directional cues is consumed by a
//! spawn scheduler, live cues travel toward a fixed target zone, and
//! edge-triggered key presses are judged against that zone to produce a
//! bounded score.
//!
//! All quantities are exact fixed-point integers:
//! positions in millipixels (one thousandth of a pixel), time in
//! microseconds, sprite scale in thousandths, angles in microradians.
//! Rendering, audio and window plumbing live outside this crate; the
//! simulation takes plain values (tick instants, key edges) and returns
//! plain values (cue transforms, judgment events, score counters).

pub mod arrows;
pub mod consts;
pub mod input;
pub mod score;
pub mod session;
pub mod time;
pub mod types;
