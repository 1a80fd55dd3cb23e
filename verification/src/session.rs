//! One gameplay session: the clock, the pending chart, the live cues and
//! the score, advanced tick by tick.

use vstd::prelude::*;

verus! {

use crate::arrows::{
    cue_wf, despawn_arrows, due_count, judge_all, move_arrows, moved_cues, spawn_arrows,
    spawned_cues, CorrectArrowEvent, LiveCue,
};
use crate::consts::{LEAD_IN_US, MAX_TICK_US, MAX_TIME_US, MISS_POSITION};
use crate::input::InputState;
use crate::score::ScoreResource;
use crate::time::ControlledTime;
use crate::types::{sorted_by_spawn, spawns_at_or_after, SongConfig};

/// A whole gameplay session. The surrounding application drives one
/// `step` per rendered frame and forwards the returned events to the
/// presentation layer.
pub struct GameSession {
    pub time: ControlledTime,
    pub config: SongConfig,
    pub live: Vec<LiveCue>,
    pub score: ScoreResource,
}

/// The delta the clock will derive from advancing to `now`.
pub open spec fn tick_delta(s: GameSession, now: int) -> int {
    match s.time.last_update_us {
        Some(lu) => now - lu,
        None => 0,
    }
}

/// The session time after advancing to `now`.
pub open spec fn tick_elapsed(s: GameSession, now: int) -> int {
    s.time.elapsed_us + tick_delta(s, now)
}

/// This tick's upper spawn-window edge: session time minus the lead-in.
pub open spec fn tick_window_edge(s: GameSession, now: int) -> int {
    tick_elapsed(s, now) - LEAD_IN_US
}

/// How many chart entries this tick spawns.
pub open spec fn tick_spawn_count(s: GameSession, now: int) -> nat {
    due_count(s.config.arrows@, tick_window_edge(s, now))
}

/// The live set after this tick's spawn and move passes: the old cues
/// plus the newly spawned ones, each advanced by this tick's delta.
pub open spec fn tick_moved(s: GameSession, now: int) -> Seq<LiveCue> {
    moved_cues(
        s.live@ + spawned_cues(s.config.arrows@.take(tick_spawn_count(s, now) as int)),
        tick_delta(s, now),
    )
}

/// Everything this tick's judgment pass decides, given the moved live
/// set: the cues that stay, the hit events, the points gained and the
/// new misses.
pub open spec fn tick_outcome(s: GameSession, now: int, input: InputState) -> (Seq<LiveCue>, Seq<
    CorrectArrowEvent,
>, int, int) {
    judge_all(tick_moved(s, now), input)
}

impl GameSession {
    /// Between ticks every part of the session is in its lane: the clock
    /// in range, the pending chart sorted with nothing already due, and
    /// every live cue well formed and short of the miss line.
    pub open spec fn wf(self) -> bool {
        &&& self.time.wf()
        &&& sorted_by_spawn(self.config.arrows@)
        &&& spawns_at_or_after(self.config.arrows@, self.time.elapsed_us - LEAD_IN_US)
        &&& forall|i: int|
            0 <= i < self.live@.len() ==> cue_wf(#[trigger] self.live@[i]) && self.live@[i].x
                < MISS_POSITION
    }

    /// Starts a session on `config` with a fresh clock and zero score.
    pub fn new(config: SongConfig) -> (s: Self)
        requires
            sorted_by_spawn(config.arrows@),
            spawns_at_or_after(config.arrows@, -LEAD_IN_US as int),
        ensures
            s.wf(),
            s.config.arrows@ == config.arrows@,
            s.live@ == Seq::<LiveCue>::empty(),
            s.score.corrects == 0 && s.score.fails == 0 && s.score.score == 0,
            s.time.elapsed_us == 0 && s.time.delta_us == 0 && s.time.last_update_us is None,
    {
        GameSession {
            time: ControlledTime::new(),
            config,
            live: Vec::new(),
            score: ScoreResource::default(),
        }
    }

    /// Leaving gameplay: clears the live cues and re-anchors the clock,
    /// so chart timing starts over when gameplay is next entered. The
    /// pending chart and the score are kept.
    pub fn reset(&mut self)
        requires
            old(self).wf(),
        ensures
            final(self).wf(),
            final(self).live@ == Seq::<LiveCue>::empty(),
            final(self).config.arrows@ == old(self).config.arrows@,
            final(self).score == old(self).score,
            final(self).time.elapsed_us == 0,
            final(self).time.delta_us == 0,
            final(self).time.last_update_us is None,
    {
        self.time.reset_time();
        self.live.clear();
    }

    /// One simulation tick, at clock instant `now_us`: the clock
    /// advances, due chart entries spawn, every live cue moves, and the
    /// moved cues are judged against `input`. Returns this tick's hit
    /// events in cue order.
    pub fn step(&mut self, now_us: i64, input: &InputState) -> (events: Vec<CorrectArrowEvent>)
        requires
            old(self).wf(),
            0 <= now_us,
            old(self).time.last_update_us matches Some(lu) ==> lu <= now_us && now_us - lu
                <= MAX_TICK_US,
            tick_elapsed(*old(self), now_us as int) <= MAX_TIME_US,
            old(self).score.corrects + old(self).live@.len() + old(self).config.arrows@.len()
                <= usize::MAX,
            old(self).score.fails + old(self).live@.len() + old(self).config.arrows@.len()
                <= usize::MAX,
            old(self).score.score + 100 * (old(self).live@.len() + old(self).config.arrows@.len())
                <= usize::MAX,
        ensures
            final(self).wf(),
            final(self).time.delta_us == tick_delta(*old(self), now_us as int),
            final(self).time.elapsed_us == tick_elapsed(*old(self), now_us as int),
            final(self).time.last_update_us == Some(now_us),
            final(self).config.arrows@ == old(self).config.arrows@.skip(
                tick_spawn_count(*old(self), now_us as int) as int,
            ),
            final(self).live@ == tick_outcome(*old(self), now_us as int, *input).0,
            events@ == tick_outcome(*old(self), now_us as int, *input).1,
            final(self).score.score == old(self).score.score + tick_outcome(
                *old(self),
                now_us as int,
                *input,
            ).2,
            final(self).score.corrects == old(self).score.corrects + tick_outcome(
                *old(self),
                now_us as int,
                *input,
            ).1.len(),
            final(self).score.fails == old(self).score.fails + tick_outcome(
                *old(self),
                now_us as int,
                *input,
            ).3,
    {
        let ghost s0 = *self;

        self.time.update_with_instant(now_us);
        let elapsed = self.time.elapsed_micros();
        let delta = self.time.delta_micros();

        proof {
            crate::arrows::lemma_due_count_exact(
                s0.config.arrows@,
                tick_window_edge(s0, now_us as int),
            );
        }
        spawn_arrows(&mut self.config, &mut self.live, elapsed, delta);
        move_arrows(&mut self.live, delta);
        let events = despawn_arrows(&mut self.live, input, &mut self.score);

        proof {
            crate::arrows::lemma_judge_all_kept(tick_moved(s0, now_us as int), *input);
        }
        events
    }
}

} // verus!
