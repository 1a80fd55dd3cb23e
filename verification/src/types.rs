//! Directions, speed classes, and the chart of scheduled cues.

use vstd::prelude::*;

verus! {

use crate::consts::{
    BASE_SPEED, DISTANCE, HALF_PI_URAD, LEAD_IN_US, MAX_TIME_US, PI_URAD, THREE_HALF_PI_URAD,
};
use crate::input::InputState;

/// The four lanes an arrow can belong to.
#[derive(Copy, Clone, Debug, PartialEq, Eq, Structural)]
pub enum Directions {
    Up,
    Down,
    Left,
    Right,
}

/// Whether one of the two keys bound to `dir` went down on this tick.
pub open spec fn key_edge(dir: Directions, input: InputState) -> bool {
    match dir {
        Directions::Up => input.arrow_up.edge() || input.letter_d.edge(),
        Directions::Down => input.arrow_down.edge() || input.letter_f.edge(),
        Directions::Left => input.arrow_left.edge() || input.letter_j.edge(),
        Directions::Right => input.arrow_right.edge() || input.letter_k.edge(),
    }
}

/// Rotation a sprite of this direction is drawn with, in microradians,
/// normalized to one turn.
pub open spec fn rotation_of(dir: Directions) -> i64 {
    match dir {
        Directions::Up => HALF_PI_URAD,
        Directions::Down => THREE_HALF_PI_URAD,
        Directions::Left => PI_URAD,
        Directions::Right => 0,
    }
}

/// Lane y coordinate for this direction, in millipixels.
pub open spec fn y_of(dir: Directions) -> i64 {
    match dir {
        Directions::Up => 150_000,
        Directions::Down => 50_000,
        Directions::Left => -50_000i64,
        Directions::Right => -150_000i64,
    }
}

impl Directions {
    /// Checks if a key that corresponds to this direction went down on
    /// this tick (edge-triggered: a held key does not count).
    pub fn key_pressed(&self, input: &InputState) -> (r: bool)
        ensures
            r == key_edge(*self, *input),
    {
        match self {
            Directions::Up => input.arrow_up.just_pressed() || input.letter_d.just_pressed(),
            Directions::Down => input.arrow_down.just_pressed() || input.letter_f.just_pressed(),
            Directions::Left => input.arrow_left.just_pressed() || input.letter_j.just_pressed(),
            Directions::Right => input.arrow_right.just_pressed() || input.letter_k.just_pressed(),
        }
    }

    /// Returns the correct rotation for an arrow with this direction,
    /// in microradians.
    pub fn rotation(&self) -> (r: i64)
        ensures
            r == rotation_of(*self),
    {
        match self {
            Directions::Up => HALF_PI_URAD,
            Directions::Down => THREE_HALF_PI_URAD,
            Directions::Left => PI_URAD,
            Directions::Right => 0,
        }
    }

    /// Returns the correct y coordinate for an arrow with this
    /// direction, in millipixels.
    pub fn y(&self) -> (r: i64)
        ensures
            r == y_of(*self),
    {
        match self {
            Directions::Up => 150_000,
            Directions::Down => 50_000,
            Directions::Left => -50_000,
            Directions::Right => -150_000,
        }
    }
}

/// The three speed classes an arrow can travel at.
#[derive(Copy, Clone, Debug, PartialEq, Eq, Structural)]
pub enum Speed {
    Slow,
    Medium,
    Fast,
}

/// Speed multiplier of the class, in tenths.
pub open spec fn multiplier_tenths(s: Speed) -> int {
    match s {
        Speed::Slow => 10,
        Speed::Medium => 12,
        Speed::Fast => 15,
    }
}

/// Travel speed of the class, in pixels per second: the base speed
/// scaled by the class multiplier.
pub open spec fn speed_value(s: Speed) -> int {
    BASE_SPEED * multiplier_tenths(s) / 10
}

/// Microseconds an arrow of speed class `s` takes from spawn to target.
pub open spec fn travel_time_us(s: Speed) -> int {
    DISTANCE * 1000 / speed_value(s)
}

impl Speed {
    /// Returns the actual speed at which the arrow moves, in pixels per
    /// second.
    pub fn value(&self) -> (r: i64)
        ensures
            r == speed_value(*self),
            200 <= r <= 300,
    {
        ((BASE_SPEED as u64) * (self.multiplier() as u64) / 10) as i64
    }

    /// Speed multiplier, in tenths.
    pub fn multiplier(&self) -> (r: i64)
        ensures
            r == multiplier_tenths(*self),
            10 <= r <= 15,
    {
        match self {
            Speed::Slow => 10,
            Speed::Medium => 12,
            Speed::Fast => 15,
        }
    }
}

/// One scheduled cue: when it should spawn, how fast it travels, and
/// which lane it belongs to.
#[derive(Copy, Clone, Debug, PartialEq, Eq, Structural)]
pub struct ArrowTime {
    /// Session time (microseconds past the lead-in) at which the arrow
    /// enters the screen. Negative for clicks early in the song: the
    /// arrow is already under way when the audio starts.
    pub spawn_time_us: i64,
    pub speed: Speed,
    pub direction: Directions,
}

impl ArrowTime {
    /// Schedules an arrow so that it reaches the target exactly when the
    /// player is meant to click, `click_time_us` into the song.
    pub fn new(click_time_us: i64, speed: Speed, direction: Directions) -> (a: Self)
        requires
            0 <= click_time_us <= MAX_TIME_US,
        ensures
            a.spawn_time_us == click_time_us - travel_time_us(speed),
            a.speed == speed,
            a.direction == direction,
            -LEAD_IN_US <= a.spawn_time_us <= MAX_TIME_US,
    {
        let speed_value = speed.value();
        proof {
            assert(speed_value == 200 || speed_value == 240 || speed_value == 300);
            assert(travel_time_us(speed) == 3_000_000 || travel_time_us(speed) == 2_500_000
                || travel_time_us(speed) == 2_000_000);
        }
        let travel: i64 = (((DISTANCE as u64) * 1000) / (speed_value as u64)) as i64;
        assert(travel == travel_time_us(speed));
        ArrowTime { spawn_time_us: click_time_us - travel, speed, direction }
    }
}

/// The three travel times, spelled out: each speed class divides the
/// spawn-to-target distance exactly.
pub proof fn lemma_travel_times()
    ensures
        travel_time_us(Speed::Slow) == 3_000_000,
        travel_time_us(Speed::Medium) == 2_500_000,
        travel_time_us(Speed::Fast) == 2_000_000,
{
    assert(speed_value(Speed::Slow) == 200);
    assert(speed_value(Speed::Medium) == 240);
    assert(speed_value(Speed::Fast) == 300);
}

/// A chart: the scheduled cues still waiting to spawn, ordered by spawn
/// time. Entries are removed from the front as they spawn and never
/// revisited.
pub struct SongConfig {
    pub arrows: Vec<ArrowTime>,
}

/// The chart's pending queue is non-decreasing in spawn time; the spawn
/// scheduler's early-exit scan relies on this.
pub open spec fn sorted_by_spawn(s: Seq<ArrowTime>) -> bool {
    forall|i: int, j: int|
        0 <= i <= j < s.len() ==> #[trigger] s[i].spawn_time_us <= #[trigger] s[j].spawn_time_us
}

/// Every pending spawn time is at least `lo`: nothing due before `lo`
/// is still waiting.
pub open spec fn spawns_at_or_after(s: Seq<ArrowTime>, lo: int) -> bool {
    forall|i: int| 0 <= i < s.len() ==> lo <= #[trigger] s[i].spawn_time_us
}

/// The built-in demo song: five cues, one second apart.
pub fn load_config() -> (c: SongConfig)
    ensures
        c.arrows@.len() == 5,
        c.arrows@[0] == (ArrowTime {
            spawn_time_us: -2_000_000i64,
            speed: Speed::Slow,
            direction: Directions::Up,
        }),
        c.arrows@[1] == (ArrowTime {
            spawn_time_us: -1_000_000i64,
            speed: Speed::Slow,
            direction: Directions::Down,
        }),
        c.arrows@[2] == (ArrowTime {
            spawn_time_us: 0,
            speed: Speed::Slow,
            direction: Directions::Left,
        }),
        c.arrows@[3] == (ArrowTime {
            spawn_time_us: 1_500_000,
            speed: Speed::Medium,
            direction: Directions::Up,
        }),
        c.arrows@[4] == (ArrowTime {
            spawn_time_us: 3_000_000,
            speed: Speed::Fast,
            direction: Directions::Right,
        }),
        sorted_by_spawn(c.arrows@),
        spawns_at_or_after(c.arrows@, -LEAD_IN_US as int),
{
    proof {
        lemma_travel_times();
    }
    let mut arrows: Vec<ArrowTime> = Vec::new();
    arrows.push(ArrowTime::new(1_000_000, Speed::Slow, Directions::Up));
    arrows.push(ArrowTime::new(2_000_000, Speed::Slow, Directions::Down));
    arrows.push(ArrowTime::new(3_000_000, Speed::Slow, Directions::Left));
    arrows.push(ArrowTime::new(4_000_000, Speed::Medium, Directions::Up));
    arrows.push(ArrowTime::new(5_000_000, Speed::Fast, Directions::Right));
    SongConfig { arrows }
}

} // verus!
