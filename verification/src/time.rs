//! A controllable virtual clock, decoupled from wall-clock pauses.
//!
//! The surrounding application feeds it one instant per tick (microseconds
//! on some monotonic scale of its choosing); the clock derives the tick
//! delta and the cumulative session time. Resetting re-anchors the session
//! time to zero, so time spent in menus never counts toward chart timing.

use vstd::prelude::*;

verus! {

use crate::consts::{MAX_TICK_US, MAX_TIME_US};

/// Per-tick delta and cumulative elapsed time, in microseconds.
pub struct ControlledTime {
    /// Time between the two most recent updates.
    pub delta_us: i64,
    /// Session time: the sum of all deltas since the last reset.
    pub elapsed_us: i64,
    /// Instant of the most recent update, if any since the last reset.
    pub last_update_us: Option<i64>,
}

impl Default for ControlledTime {
    /// Same as `new`: no tick seen yet, session time zero.
    fn default() -> (c: Self)
        ensures
            c.delta_us == 0,
            c.elapsed_us == 0,
            c.last_update_us is None,
            c.wf(),
    {
        ControlledTime { delta_us: 0, elapsed_us: 0, last_update_us: None }
    }
}

impl ControlledTime {
    /// Ranges every well-used clock stays inside; they keep all
    /// fixed-point products of one tick within `i64`.
    pub open spec fn wf(self) -> bool {
        &&& 0 <= self.delta_us <= MAX_TICK_US
        &&& 0 <= self.elapsed_us <= MAX_TIME_US
        &&& self.elapsed_us >= self.delta_us
    }

    /// A fresh clock: no tick seen yet, session time zero.
    pub fn new() -> (c: Self)
        ensures
            c.delta_us == 0,
            c.elapsed_us == 0,
            c.last_update_us is None,
            c.wf(),
    {
        ControlledTime { delta_us: 0, elapsed_us: 0, last_update_us: None }
    }

    /// Re-anchors session time to zero and forgets the last instant,
    /// so the next update counts as the first tick of a new session.
    pub fn reset_time(&mut self)
        ensures
            final(self).delta_us == 0,
            final(self).elapsed_us == 0,
            final(self).last_update_us is None,
            final(self).wf(),
    {
        self.delta_us = 0;
        self.elapsed_us = 0;
        self.last_update_us = None;
    }

    /// Advances the clock to `now_us`: the delta becomes the time since
    /// the previous update (zero on the first tick after a reset) and is
    /// accumulated into the session time.
    pub fn update_with_instant(&mut self, now_us: i64)
        requires
            old(self).wf(),
            0 <= now_us,
            old(self).last_update_us matches Some(lu) ==> lu <= now_us && now_us - lu
                <= MAX_TICK_US,
            (match old(self).last_update_us {
                Some(lu) => old(self).elapsed_us + (now_us - lu) <= MAX_TIME_US,
                None => true,
            }),
        ensures
            final(self).delta_us == (match old(self).last_update_us {
                Some(lu) => now_us - lu,
                None => 0,
            }),
            final(self).elapsed_us == old(self).elapsed_us + final(self).delta_us,
            final(self).last_update_us == Some(now_us),
            final(self).wf(),
    {
        if let Some(last) = self.last_update_us {
            self.delta_us = now_us - last;
        } else {
            self.delta_us = 0;
        }
        self.elapsed_us = self.elapsed_us + self.delta_us;
        self.last_update_us = Some(now_us);
    }

    /// The delta between the two most recent ticks, in microseconds.
    pub fn delta_micros(&self) -> (r: i64)
        ensures
            r == self.delta_us,
    {
        self.delta_us
    }

    /// The session time since the last reset, in microseconds.
    pub fn elapsed_micros(&self) -> (r: i64)
        ensures
            r == self.elapsed_us,
    {
        self.elapsed_us
    }
}

} // verus!
