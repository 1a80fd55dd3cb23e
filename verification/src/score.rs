//! The score accumulator: converts each hit's positional error into
//! bounded points and counts misses.

use vstd::prelude::*;

verus! {

use crate::consts::{POINTS_MAX, POINTS_MIN, THRESHOLD};

/// Absolute value of a signed positional error.
pub open spec fn abs_val(d: int) -> int {
    if d < 0 {
        -d
    } else {
        d
    }
}

/// Points awarded for a hit whose click landed `distance` millipixels
/// from the target: the closeness ratio as a rounded percentage,
/// clamped to `[POINTS_MIN, POINTS_MAX]`.
pub open spec fn points_for(distance: int) -> int {
    let raw = ((THRESHOLD - abs_val(distance)) * 100 + THRESHOLD / 2) / (THRESHOLD as int);
    if raw < POINTS_MIN {
        POINTS_MIN as int
    } else if raw > POINTS_MAX {
        POINTS_MAX as int
    } else {
        raw
    }
}

/// Session tally of hits, misses and accumulated points.
/// All three counters only ever grow.
pub struct ScoreResource {
    pub corrects: usize,
    pub fails: usize,
    pub score: usize,
}

impl Default for ScoreResource {
    /// A fresh tally with every counter at zero.
    fn default() -> (s: Self)
        ensures
            s.corrects == 0,
            s.fails == 0,
            s.score == 0,
    {
        ScoreResource { corrects: 0, fails: 0, score: 0 }
    }
}

impl ScoreResource {
    /// Increases the number of corrects and adds to the score the points
    /// earned by a click that landed `distance` millipixels from the
    /// target (positive when early, negative when late).
    pub fn increase_correct(&mut self, distance: i64) -> (points: usize)
        requires
            -THRESHOLD <= distance <= THRESHOLD,
            old(self).corrects < usize::MAX,
            old(self).score + POINTS_MAX <= usize::MAX,
        ensures
            final(self).corrects == old(self).corrects + 1,
            final(self).fails == old(self).fails,
            final(self).score == old(self).score + points_for(distance as int),
            points == points_for(distance as int),
            POINTS_MIN <= points <= POINTS_MAX,
    {
        self.corrects = self.corrects + 1;

        // How close the press was, from 0 (edge of the window) to
        // THRESHOLD (dead centre).
        let closeness: i64 = if distance < 0 {
            THRESHOLD + distance
        } else {
            THRESHOLD - distance
        };
        assert(closeness == THRESHOLD - abs_val(distance as int));

        // Rounded percentage, then at least 10 and at most 100 points.
        let raw: u64 = ((closeness as u64) * 100 + (THRESHOLD as u64) / 2) / (THRESHOLD as u64);
        let points64: u64 = if raw < (POINTS_MIN as u64) {
            POINTS_MIN as u64
        } else if raw > (POINTS_MAX as u64) {
            POINTS_MAX as u64
        } else {
            raw
        };
        let points: usize = points64 as usize;
        self.score = self.score + points;

        points
    }

    /// Increases the number of failures.
    pub fn increase_fails(&mut self)
        requires
            old(self).fails < usize::MAX,
        ensures
            final(self).fails == old(self).fails + 1,
            final(self).corrects == old(self).corrects,
            final(self).score == old(self).score,
    {
        self.fails = self.fails + 1;
    }

    // Getters

    pub fn score(&self) -> (r: usize)
        ensures
            r == self.score,
    {
        self.score
    }

    pub fn corrects(&self) -> (r: usize)
        ensures
            r == self.corrects,
    {
        self.corrects
    }

    pub fn fails(&self) -> (r: usize)
        ensures
            r == self.fails,
    {
        self.fails
    }
}

/// A press closer to the target never earns fewer points than one
/// further away.
pub proof fn lemma_points_monotonic(d1: int, d2: int)
    requires
        abs_val(d1) <= abs_val(d2) <= THRESHOLD,
    ensures
        points_for(d1) >= points_for(d2),
{
    let n1 = (THRESHOLD - abs_val(d1)) * 100 + THRESHOLD / 2;
    let n2 = (THRESHOLD - abs_val(d2)) * 100 + THRESHOLD / 2;
    vstd::arithmetic::div_mod::lemma_div_is_ordered(n2, n1, THRESHOLD as int);
}

/// A dead-centre press earns the full 100 points; one at either edge of
/// the hit window earns the minimum 10.
pub proof fn lemma_points_extremes()
    ensures
        points_for(0) == 100,
        points_for(THRESHOLD as int) == 10,
        points_for(-THRESHOLD as int) == 10,
{
}

/// Every hit inside the window earns between 10 and 100 points.
pub proof fn lemma_points_bounded(d: int)
    requires
        abs_val(d) <= THRESHOLD,
    ensures
        POINTS_MIN <= points_for(d) <= POINTS_MAX,
{
}

} // verus!
