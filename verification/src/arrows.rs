//! Live arrows: spawning them from the chart, moving them each tick, and
//! judging them against the target zone.
//!
//! The three passes run in a fixed order within one tick — spawn, then
//! move, then judge — because judgment must read positions that already
//! reflect this tick's motion.

use vstd::prelude::*;

verus! {

use crate::consts::{
    FALL_TRIGGER, LEAD_IN_US, MAX_TICK_US, MAX_TIME_US, MISS_POSITION, SCALE_FLOOR, SCALE_UNIT,
    SPAWN_POSITION, TARGET_POSITION, THRESHOLD, TWO_PI_URAD, Y_FLOOR,
};
use crate::input::InputState;
use crate::score::{points_for, ScoreResource};
use crate::types::{
    key_edge, multiplier_tenths, rotation_of, sorted_by_spawn, spawns_at_or_after, speed_value,
    y_of, ArrowTime, Directions, SongConfig, Speed,
};

/// An arrow on screen, from spawn until it is hit or misses.
#[derive(Copy, Clone, Debug, PartialEq, Eq, Structural)]
pub struct LiveCue {
    pub speed: Speed,
    pub direction: Directions,
    /// Horizontal position, millipixels; grows left to right.
    pub x: i64,
    /// Vertical position, millipixels.
    pub y: i64,
    /// Sprite scale, thousandths.
    pub scale: i64,
    /// Sprite rotation, microradians in `[0, TWO_PI_URAD)`.
    pub rotation: i64,
}

/// Signed distance (mpx) a cue at `x` has traveled past the outer edge
/// of the target zone.
pub open spec fn overshoot(x: int) -> int {
    x - (TARGET_POSITION + THRESHOLD)
}

/// Scale of a falling cue whose overshoot is `o`: shrinks with distance
/// past the target, never below the floor.
pub open spec fn fall_scale(o: int) -> int {
    if SCALE_UNIT - o / 300 < SCALE_FLOOR {
        SCALE_FLOOR as int
    } else {
        SCALE_UNIT - o / 300
    }
}

/// Every reachable cue state satisfies this. In the approach phase the
/// sprite is untransformed on its lane; once the overshoot reaches the
/// fall trigger, the scale is exactly the fall formula of the current
/// overshoot.
pub open spec fn cue_wf(c: LiveCue) -> bool {
    &&& SPAWN_POSITION <= c.x
    &&& Y_FLOOR <= c.y <= 150_000
    &&& 0 <= c.rotation < TWO_PI_URAD
    &&& SCALE_FLOOR <= c.scale <= SCALE_UNIT
    &&& if overshoot(c.x as int) >= FALL_TRIGGER {
        c.scale == fall_scale(overshoot(c.x as int))
    } else {
        c.scale == SCALE_UNIT && c.y == y_of(c.direction)
    }
}

/// The cue a chart entry materializes into: at the spawn edge, on its
/// lane, untransformed.
pub open spec fn spawn_cue(a: ArrowTime) -> LiveCue {
    LiveCue {
        speed: a.speed,
        direction: a.direction,
        x: SPAWN_POSITION,
        y: y_of(a.direction),
        scale: SCALE_UNIT,
        rotation: rotation_of(a.direction),
    }
}

/// The cues a run of chart entries materializes into, in order.
pub open spec fn spawned_cues(s: Seq<ArrowTime>) -> Seq<LiveCue> {
    s.map_values(|a: ArrowTime| spawn_cue(a))
}

/// Every live cue advanced by one tick of motion, in order.
pub open spec fn moved_cues(s: Seq<LiveCue>, delta: int) -> Seq<LiveCue> {
    s.map_values(|c: LiveCue| move_cue(c, delta))
}

/// How many entries at the front of the pending queue are due before
/// session time `hi`: the scan stops at the first entry not yet due.
pub open spec fn due_count(s: Seq<ArrowTime>, hi: int) -> nat
    decreases s.len(),
{
    if s.len() == 0 {
        0
    } else if s[0].spawn_time_us < hi {
        1 + due_count(s.skip(1), hi)
    } else {
        0
    }
}

/// On a sorted queue the early-exit scan is exact: the due prefix is
/// precisely the set of entries scheduled before `hi`.
pub proof fn lemma_due_count_exact(s: Seq<ArrowTime>, hi: int)
    requires
        sorted_by_spawn(s),
    ensures
        due_count(s, hi) <= s.len(),
        forall|i: int| 0 <= i < s.len() ==> (i < due_count(s, hi) <==> s[i].spawn_time_us < hi),
    decreases s.len(),
{
    if s.len() > 0 {
        let t = s.skip(1);
        assert(forall|i: int| 0 <= i < t.len() ==> t[i] == s[i + 1]);
        assert(sorted_by_spawn(t)) by {
            assert forall|i: int, j: int| 0 <= i <= j < t.len() implies t[i].spawn_time_us
                <= t[j].spawn_time_us by {
                assert(t[i] == s[i + 1]);
                assert(t[j] == s[j + 1]);
            }
        }
        lemma_due_count_exact(t, hi);
        if s[0].spawn_time_us < hi {
            assert(due_count(s, hi) == 1 + due_count(t, hi));
            assert forall|i: int| 0 <= i < s.len() implies (i < due_count(s, hi)
                <==> s[i].spawn_time_us < hi) by {
                if i > 0 {
                    assert(t[i - 1] == s[i]);
                    assert(i - 1 < due_count(t, hi) <==> t[i - 1].spawn_time_us < hi);
                }
            }
        } else {
            assert(due_count(s, hi) == 0);
            assert forall|i: int| 0 <= i < s.len() implies !(s[i].spawn_time_us < hi) by {
                assert(s[0].spawn_time_us <= s[i].spawn_time_us);
            }
        }
    }
}

/// Spawning is independent of how a time window is partitioned into
/// ticks: consuming the queue up to `b` and then consuming the remainder
/// up to `c` spawns the same entries, in the same order, and leaves the
/// same queue as consuming up to `c` in one step. With
/// `lemma_due_count_exact` this pins the cues spawned by any sequence of
/// ticks to exactly the chart prefix scheduled before the latest window
/// edge, however the elapsed time was divided.
pub proof fn lemma_spawn_window_partition(s: Seq<ArrowTime>, b: int, c: int)
    requires
        sorted_by_spawn(s),
        b <= c,
    ensures
        due_count(s, b) <= due_count(s, c) <= s.len(),
        due_count(s.skip(due_count(s, b) as int), c) == due_count(s, c) - due_count(s, b),
        s.take(due_count(s, b) as int) + s.skip(due_count(s, b) as int).take(
            due_count(s.skip(due_count(s, b) as int), c) as int,
        ) == s.take(due_count(s, c) as int),
        s.skip(due_count(s, b) as int).skip(due_count(s.skip(due_count(s, b) as int), c) as int)
            == s.skip(due_count(s, c) as int),
{
    lemma_due_count_exact(s, b);
    lemma_due_count_exact(s, c);
    let kb = due_count(s, b) as int;
    let kc = due_count(s, c) as int;
    let tail = s.skip(kb);
    assert(forall|i: int| 0 <= i < tail.len() ==> tail[i] == s[i + kb]);
    assert(sorted_by_spawn(tail));
    lemma_due_count_exact(tail, c);
    let kt = due_count(tail, c) as int;
    assert(kb <= kc) by {
        if kb > kc {
            assert(s[kc].spawn_time_us < b);
        }
    }
    assert(forall|i: int| 0 <= i < tail.len() ==> (i < kc - kb <==> tail[i].spawn_time_us < c));
    assert(kt == kc - kb) by {
        if kt < kc - kb {
            assert(tail[kt].spawn_time_us < c);
        }
        if kt > kc - kb {
            assert(kc - kb < tail.len());
            assert(tail[kc - kb].spawn_time_us < c);
        }
    }
    assert(s.take(kb) + tail.take(kt) =~= s.take(kc));
    assert(tail.skip(kt) =~= s.skip(kc));
}

/// Pops every chart entry due in this tick's window off the front of the
/// pending queue and materializes it as a live cue. The window is
/// half-open — due means scheduled at or after the previous tick's edge
/// and strictly before this tick's — so under any tick partition each
/// entry is claimed by exactly one tick.
pub fn spawn_arrows(
    song_config: &mut SongConfig,
    live: &mut Vec<LiveCue>,
    elapsed_us: i64,
    delta_us: i64,
)
    requires
        0 <= delta_us <= elapsed_us <= MAX_TIME_US,
        sorted_by_spawn(old(song_config).arrows@),
        spawns_at_or_after(old(song_config).arrows@, elapsed_us - delta_us - LEAD_IN_US),
    ensures
        final(song_config).arrows@ == old(song_config).arrows@.skip(
            due_count(old(song_config).arrows@, elapsed_us - LEAD_IN_US) as int,
        ),
        final(live)@ == old(live)@ + spawned_cues(
            old(song_config).arrows@.take(
                due_count(old(song_config).arrows@, elapsed_us - LEAD_IN_US) as int,
            ),
        ),
        sorted_by_spawn(final(song_config).arrows@),
        spawns_at_or_after(final(song_config).arrows@, elapsed_us - LEAD_IN_US),
{
    let ghost arrows0 = song_config.arrows@;
    let ghost live0 = live@;
    let hi = elapsed_us - LEAD_IN_US;
    let lo = hi - delta_us;
    let ghost k = due_count(arrows0, hi as int);
    proof {
        lemma_due_count_exact(arrows0, hi as int);
    }

    // Scan the sorted queue from the front; the first entry not yet due
    // ends the scan, since nothing after it can be due either.
    let mut count: usize = 0;
    while count < song_config.arrows.len()
        invariant_except_break
            song_config.arrows@ == arrows0,
            count <= arrows0.len(),
            sorted_by_spawn(arrows0),
            spawns_at_or_after(arrows0, lo as int),
            k == due_count(arrows0, hi as int),
            k <= arrows0.len(),
            forall|i: int| 0 <= i < arrows0.len() ==> (i < k <==> arrows0[i].spawn_time_us < hi),
            count <= k,
            forall|i: int| 0 <= i < count ==> arrows0[i].spawn_time_us < hi,
            live@ == live0 + spawned_cues(arrows0.take(count as int)),
        ensures
            song_config.arrows@ == arrows0,
            count == k,
            live@ == live0 + spawned_cues(arrows0.take(count as int)),
        decreases arrows0.len() - count,
    {
        let arrow = song_config.arrows[count];
        // The queue never holds an entry already behind the window, so
        // the lower-bound test only restates the invariant.
        if lo <= arrow.spawn_time_us && arrow.spawn_time_us < hi {
            let cue = LiveCue {
                speed: arrow.speed,
                direction: arrow.direction,
                x: SPAWN_POSITION,
                y: arrow.direction.y(),
                scale: SCALE_UNIT,
                rotation: arrow.direction.rotation(),
            };
            live.push(cue);
            proof {
                assert(cue == spawn_cue(arrows0[count as int]));
                assert(spawned_cues(arrows0.take(count + 1)) =~= spawned_cues(
                    arrows0.take(count as int),
                ) + seq![spawn_cue(arrows0[count as int])]);
            }
            count = count + 1;
        } else {
            proof {
                assert(arrow.spawn_time_us >= hi);
                assert(count == k) by {
                    if count < k {
                        assert(arrows0[count as int].spawn_time_us < hi);
                    }
                }
            }
            break;
        }
    }

    // Remove the spawned prefix from the pending queue.
    let mut removed: usize = 0;
    while removed < count
        invariant
            removed <= count <= arrows0.len(),
            song_config.arrows@ == arrows0.skip(removed as int),
        decreases count - removed,
    {
        song_config.arrows.remove(0);
        removed = removed + 1;
        proof {
            assert(arrows0.skip(removed - 1).remove(0) =~= arrows0.skip(removed as int));
        }
    }
    proof {
        assert(forall|i: int|
            0 <= i < arrows0.skip(k as int).len() ==> arrows0.skip(k as int)[i] == arrows0[i + k]);
    }
}

/// Where one tick's motion puts a cue that starts at `c`: the cue
/// advances with its travel speed; once past the target zone it also
/// falls, shrinks and spins in proportion to its overshoot.
pub open spec fn move_cue(c: LiveCue, delta: int) -> LiveCue {
    let x2 = c.x + delta * speed_value(c.speed) / 1000;
    let o = overshoot(x2);
    if o < FALL_TRIGGER {
        LiveCue { x: x2 as i64, ..c }
    } else {
        let y2 = c.y - delta * o * 2 / 1_000_000;
        let spin = (o * multiplier_tenths(c.speed) * 100 / 460) % (TWO_PI_URAD as int);
        let r2 = c.rotation - spin;
        LiveCue {
            speed: c.speed,
            direction: c.direction,
            x: x2 as i64,
            y: (if y2 < Y_FLOOR {
                Y_FLOOR as int
            } else {
                y2
            }) as i64,
            scale: fall_scale(o) as i64,
            rotation: (if r2 < 0 {
                r2 + TWO_PI_URAD
            } else {
                r2
            }) as i64,
        }
    }
}

/// One tick of motion for a single cue; exact fixed-point arithmetic.
fn step_cue(c: &LiveCue, delta_us: i64) -> (r: LiveCue)
    requires
        0 <= delta_us <= MAX_TICK_US,
        cue_wf(*c),
        c.x <= MISS_POSITION,
    ensures
        r == move_cue(*c, delta_us as int),
        cue_wf(r),
        c.x <= r.x,
{
    let pps = c.speed.value();
    assert(0 <= delta_us * pps <= 18_000_000_000) by (nonlinear_arith)
        requires
            0 <= delta_us <= MAX_TICK_US,
            200 <= pps <= 300,
    ;
    let dx = (((delta_us as u64) * (pps as u64)) / 1000) as i64;
    assert(dx == delta_us * pps / 1000);
    let x2 = c.x + dx;
    let o = x2 - (TARGET_POSITION + THRESHOLD);
    assert(o == overshoot(x2 as int));
    if o < FALL_TRIGGER {
        LiveCue { x: x2, ..*c }
    } else {
        // o is at most the spawn-to-miss span plus one tick's advance.
        assert(FALL_TRIGGER <= o <= 18_200_000);
        assert(0 <= delta_us * o * 2 <= 2_184_000_000_000_000) by (nonlinear_arith)
            requires
                0 <= delta_us <= MAX_TICK_US,
                FALL_TRIGGER <= o <= 18_200_000,
        ;
        let dy = (((delta_us as u64) * (o as u64) * 2) / 1_000_000) as i64;
        assert(dy == delta_us * o * 2 / 1_000_000);
        assert(0 <= dy <= 2_184_000_000);
        let y2 = if c.y - dy < Y_FLOOR {
            Y_FLOOR
        } else {
            c.y - dy
        };

        let shrink = ((o as u64) / 300) as i64;
        let scale = if SCALE_UNIT - shrink < SCALE_FLOOR {
            SCALE_FLOOR
        } else {
            SCALE_UNIT - shrink
        };
        assert(scale == fall_scale(o as int));

        let mt = c.speed.multiplier();
        assert(0 <= o * mt * 100 <= 27_300_000_000) by (nonlinear_arith)
            requires
                FALL_TRIGGER <= o <= 18_200_000,
                10 <= mt <= 15,
        ;
        let spin = ((((o as u64) * (mt as u64) * 100) / 460) % (TWO_PI_URAD as u64)) as i64;
        assert(spin == (o * mt * 100 / 460) % (TWO_PI_URAD as int));
        assert(0 <= spin < TWO_PI_URAD);
        let rotation = if c.rotation - spin < 0 {
            c.rotation - spin + TWO_PI_URAD
        } else {
            c.rotation - spin
        };

        LiveCue { speed: c.speed, direction: c.direction, x: x2, y: y2, scale, rotation }
    }
}

/// Advances every live cue by one tick of motion.
pub fn move_arrows(live: &mut Vec<LiveCue>, delta_us: i64)
    requires
        0 <= delta_us <= MAX_TICK_US,
        forall|i: int|
            0 <= i < old(live)@.len() ==> cue_wf(#[trigger] old(live)@[i]) && old(
                live,
            )@[i].x <= MISS_POSITION,
    ensures
        final(live)@ == moved_cues(old(live)@, delta_us as int),
        forall|i: int|
            0 <= i < final(live)@.len() ==> cue_wf(#[trigger] final(live)@[i]) && old(
                live,
            )@[i].x <= final(live)@[i].x,
{
    let ghost cues0 = live@;
    let mut moved: Vec<LiveCue> = Vec::new();
    let mut i: usize = 0;
    while i < live.len()
        invariant
            live@ == cues0,
            i <= cues0.len(),
            0 <= delta_us <= MAX_TICK_US,
            forall|j: int| 0 <= j < cues0.len() ==> cue_wf(#[trigger] cues0[j]) && cues0[j].x <= MISS_POSITION,
            moved@.len() == i,
            forall|j: int|
                0 <= j < i ==> #[trigger] moved@[j] == move_cue(cues0[j], delta_us as int)
                    && cue_wf(moved@[j]) && cues0[j].x <= moved@[j].x,
        decreases cues0.len() - i,
    {
        let c = live[i];
        let m = step_cue(&c, delta_us);
        moved.push(m);
        i = i + 1;
    }
    *live = moved;
    proof {
        assert(live@ =~= moved_cues(cues0, delta_us as int));
    }
}

/// One tick's advance is non-negative and small; the moved x coordinate
/// is its exact fixed-point value.
proof fn lemma_move_cue_x(c: LiveCue, delta: int)
    requires
        cue_wf(c),
        0 <= delta <= MAX_TICK_US,
        c.x <= MISS_POSITION,
    ensures
        0 <= delta * speed_value(c.speed) / 1000 <= 18_000_000,
        move_cue(c, delta).x == c.x + delta * speed_value(c.speed) / 1000,
        overshoot(c.x as int) <= overshoot(move_cue(c, delta).x as int),
{
    assert(0 <= delta * speed_value(c.speed) <= 18_000_000_000) by (nonlinear_arith)
        requires
            0 <= delta <= MAX_TICK_US,
            200 <= speed_value(c.speed) <= 300,
    ;
}

/// While a cue has not yet overshot the target zone by the fall trigger,
/// one tick of motion changes nothing but its x coordinate: the cue's y,
/// scale and rotation are exactly what they were.
pub proof fn lemma_approach_motion(c: LiveCue, delta: int)
    requires
        cue_wf(c),
        0 <= delta <= MAX_TICK_US,
        c.x <= MISS_POSITION,
        overshoot(move_cue(c, delta).x as int) < FALL_TRIGGER,
    ensures
        c.x <= move_cue(c, delta).x,
        move_cue(c, delta).y == c.y,
        move_cue(c, delta).scale == c.scale,
        move_cue(c, delta).rotation == c.rotation,
{
    lemma_move_cue_x(c, delta);
}

/// A cue's scale never grows and never shrinks below the floor, and its
/// y coordinate never rises: once in the fall phase the sprite keeps
/// shrinking toward (and never past) a fifth of its size.
pub proof fn lemma_fall_scale_monotonic(c: LiveCue, delta: int)
    requires
        cue_wf(c),
        0 <= delta <= MAX_TICK_US,
        c.x <= MISS_POSITION,
    ensures
        c.x <= move_cue(c, delta).x,
        SCALE_FLOOR <= move_cue(c, delta).scale <= c.scale,
        move_cue(c, delta).y <= c.y,
        cue_wf(move_cue(c, delta)),
{
    lemma_move_cue_x(c, delta);
    let m = move_cue(c, delta);
    let o1 = overshoot(c.x as int);
    let o2 = overshoot(m.x as int);
    if o2 >= FALL_TRIGGER {
        assert(0 <= o2 <= 18_200_000);
        assert(0 <= o2 / 300 <= 60_667);
        assert(SCALE_FLOOR <= fall_scale(o2) <= SCALE_UNIT);
        if o1 >= FALL_TRIGGER {
            vstd::arithmetic::div_mod::lemma_div_is_ordered(o1, o2, 300);
            assert(fall_scale(o2) <= fall_scale(o1));
        }
        assert(0 <= delta * o2 * 2) by (nonlinear_arith)
            requires
                0 <= delta,
                0 <= o2,
        ;
        assert(0 <= delta * o2 * 2 / 1_000_000);
    }
}

/// A hit notification: the judged direction and the points it earned.
#[derive(Copy, Clone, Debug, PartialEq, Eq, Structural)]
pub struct CorrectArrowEvent {
    pub direction: Directions,
    pub points: usize,
}

/// A cue is hit when it sits inside the target zone on a tick where one
/// of its direction's keys goes down.
pub open spec fn cue_hit(c: LiveCue, input: InputState) -> bool {
    TARGET_POSITION - THRESHOLD <= c.x <= TARGET_POSITION + THRESHOLD && key_edge(
        c.direction,
        input,
    )
}

/// A cue has missed once it travels to twice the target position.
pub open spec fn cue_missed(c: LiveCue) -> bool {
    c.x >= MISS_POSITION
}

/// The event a hit on `c` emits.
pub open spec fn hit_event(c: LiveCue) -> CorrectArrowEvent {
    CorrectArrowEvent {
        direction: c.direction,
        points: points_for(TARGET_POSITION - c.x) as usize,
    }
}

/// What one judgment pass over `cues` produces, front to back: the cues
/// that stay live, the emitted hit events in order, the points gained,
/// and the number of new misses. Each cue resolves independently; several
/// cues of one direction may hit against the same key edge.
pub open spec fn judge_all(cues: Seq<LiveCue>, input: InputState) -> (Seq<LiveCue>, Seq<
    CorrectArrowEvent,
>, int, int)
    decreases cues.len(),
{
    if cues.len() == 0 {
        (Seq::<LiveCue>::empty(), Seq::<CorrectArrowEvent>::empty(), 0, 0)
    } else {
        let c = cues[0];
        let rest = judge_all(cues.skip(1), input);
        if cue_hit(c, input) {
            (rest.0, seq![hit_event(c)] + rest.1, points_for(TARGET_POSITION - c.x) + rest.2, rest.3)
        } else if cue_missed(c) {
            (rest.0, rest.1, rest.2, rest.3 + 1)
        } else {
            (seq![c] + rest.0, rest.1, rest.2, rest.3)
        }
    }
}

/// Judgment distributes over concatenation: cues resolve independently.
pub proof fn lemma_judge_all_append(a: Seq<LiveCue>, b: Seq<LiveCue>, input: InputState)
    ensures
        judge_all(a + b, input).0 == judge_all(a, input).0 + judge_all(b, input).0,
        judge_all(a + b, input).1 == judge_all(a, input).1 + judge_all(b, input).1,
        judge_all(a + b, input).2 == judge_all(a, input).2 + judge_all(b, input).2,
        judge_all(a + b, input).3 == judge_all(a, input).3 + judge_all(b, input).3,
    decreases a.len(),
{
    if a.len() == 0 {
        assert(a + b =~= b);
        assert(judge_all(a, input).0 + judge_all(b, input).0 =~= judge_all(b, input).0);
        assert(judge_all(a, input).1 + judge_all(b, input).1 =~= judge_all(b, input).1);
    } else {
        assert((a + b).skip(1) =~= a.skip(1) + b);
        lemma_judge_all_append(a.skip(1), b, input);
        assert((a + b)[0] == a[0]);
        let c = a[0];
        if cue_hit(c, input) {
            assert(seq![hit_event(c)] + (judge_all(a.skip(1), input).1 + judge_all(b, input).1)
                =~= (seq![hit_event(c)] + judge_all(a.skip(1), input).1) + judge_all(b, input).1);
        } else if !cue_missed(c) {
            assert(seq![c] + (judge_all(a.skip(1), input).0 + judge_all(b, input).0)
                =~= (seq![c] + judge_all(a.skip(1), input).0) + judge_all(b, input).0);
        }
    }
}

/// Judgment of a single cue, spelled out per case.
pub proof fn lemma_judge_all_one(c: LiveCue, input: InputState)
    ensures
        cue_hit(c, input) ==> judge_all(seq![c], input) == (
            Seq::<LiveCue>::empty(),
            seq![hit_event(c)],
            points_for(TARGET_POSITION - c.x),
            0int,
        ),
        !cue_hit(c, input) && cue_missed(c) ==> judge_all(seq![c], input) == (
            Seq::<LiveCue>::empty(),
            Seq::<CorrectArrowEvent>::empty(),
            0int,
            1int,
        ),
        !cue_hit(c, input) && !cue_missed(c) ==> judge_all(seq![c], input) == (
            seq![c],
            Seq::<CorrectArrowEvent>::empty(),
            0int,
            0int,
        ),
{
    let s = seq![c];
    assert(s.skip(1) =~= Seq::<LiveCue>::empty());
    assert(judge_all(s.skip(1), input) == (
        Seq::<LiveCue>::empty(),
        Seq::<CorrectArrowEvent>::empty(),
        0int,
        0int,
    )) by {
        reveal_with_fuel(judge_all, 2);
    }
    if cue_hit(c, input) {
        assert(seq![hit_event(c)] + Seq::<CorrectArrowEvent>::empty() =~= seq![hit_event(c)]);
    } else if !cue_missed(c) {
        assert(seq![c] + Seq::<LiveCue>::empty() =~= seq![c]);
    }
}

/// Every cue a judgment pass keeps is one of the cues it was given, and
/// has neither hit nor missed.
pub proof fn lemma_judge_all_kept(cues: Seq<LiveCue>, input: InputState)
    ensures
        forall|j: int|
            0 <= j < judge_all(cues, input).0.len() ==> cues.contains(
                #[trigger] judge_all(cues, input).0[j],
            ) && !cue_missed(judge_all(cues, input).0[j]) && !cue_hit(
                judge_all(cues, input).0[j],
                input,
            ),
    decreases cues.len(),
{
    if cues.len() > 0 {
        lemma_judge_all_kept(cues.skip(1), input);
        let c = cues[0];
        let rest = judge_all(cues.skip(1), input);
        assert(forall|j: int|
            0 <= j < rest.0.len() ==> cues.skip(1).contains(#[trigger] rest.0[j]));
        assert(forall|x: LiveCue| cues.skip(1).contains(x) ==> cues.contains(x));
        if !cue_hit(c, input) && !cue_missed(c) {
            assert(forall|j: int|
                0 < j < judge_all(cues, input).0.len() ==> judge_all(cues, input).0[j] == rest.0[j
                    - 1]);
            assert(cues.contains(c)) by {
                assert(cues[0] == c);
            }
        }
    }
}

/// Judges every live cue, after this tick's motion: a cue inside the
/// target zone on a key edge of its direction is removed and scored; a
/// cue past twice the target position is removed as a miss; the rest
/// stay. Returns the hit events of this tick, in cue order.
pub fn despawn_arrows(
    live: &mut Vec<LiveCue>,
    keyboard_input: &InputState,
    score: &mut ScoreResource,
) -> (events: Vec<CorrectArrowEvent>)
    requires
        old(score).corrects + old(live)@.len() <= usize::MAX,
        old(score).fails + old(live)@.len() <= usize::MAX,
        old(score).score + 100 * old(live)@.len() <= usize::MAX,
    ensures
        final(live)@ == judge_all(old(live)@, *keyboard_input).0,
        events@ == judge_all(old(live)@, *keyboard_input).1,
        final(score).score == old(score).score + judge_all(old(live)@, *keyboard_input).2,
        final(score).corrects == old(score).corrects + judge_all(old(live)@, *keyboard_input).1.len(),
        final(score).fails == old(score).fails + judge_all(old(live)@, *keyboard_input).3,
{
    let ghost cues0 = live@;
    let ghost score0 = *score;
    let mut kept: Vec<LiveCue> = Vec::new();
    let mut events: Vec<CorrectArrowEvent> = Vec::new();
    let mut i: usize = 0;
    while i < live.len()
        invariant
            live@ == cues0,
            i <= cues0.len(),
            kept@ == judge_all(cues0.take(i as int), *keyboard_input).0,
            events@ == judge_all(cues0.take(i as int), *keyboard_input).1,
            score.score == score0.score + judge_all(cues0.take(i as int), *keyboard_input).2,
            score.corrects == score0.corrects + judge_all(
                cues0.take(i as int),
                *keyboard_input,
            ).1.len(),
            score.fails == score0.fails + judge_all(cues0.take(i as int), *keyboard_input).3,
            score.corrects + (cues0.len() - i) <= usize::MAX,
            score.fails + (cues0.len() - i) <= usize::MAX,
            score.score + 100 * (cues0.len() - i) <= usize::MAX,
        decreases cues0.len() - i,
    {
        let c = live[i];
        proof {
            assert(cues0.take(i + 1) =~= cues0.take(i as int) + seq![cues0[i as int]]);
            lemma_judge_all_append(cues0.take(i as int), seq![cues0[i as int]], *keyboard_input);
            lemma_judge_all_one(cues0[i as int], *keyboard_input);
        }
        let in_window = TARGET_POSITION - THRESHOLD <= c.x && c.x <= TARGET_POSITION + THRESHOLD;
        if in_window && c.direction.key_pressed(keyboard_input) {
            let points = score.increase_correct(TARGET_POSITION - c.x);
            events.push(CorrectArrowEvent { direction: c.direction, points });
            proof {
                assert(events@ =~= judge_all(cues0.take(i as int), *keyboard_input).1 + seq![
                    hit_event(cues0[i as int]),
                ]);
            }
        } else if c.x >= MISS_POSITION {
            score.increase_fails();
        } else {
            kept.push(c);
            proof {
                assert(kept@ =~= judge_all(cues0.take(i as int), *keyboard_input).0 + seq![
                    cues0[i as int],
                ]);
            }
        }
        i = i + 1;
    }
    proof {
        assert(cues0.take(cues0.len() as int) =~= cues0);
    }
    *live = kept;
    events
}

/// A held key never triggers a hit: if every pressed key of a cue's
/// direction was already down on the previous tick, the cue cannot hit
/// this tick, whatever its position. Only the tick on which a key
/// transitions to pressed can trigger a hit.
pub proof fn lemma_held_key_never_hits(c: LiveCue, input: InputState)
    requires
        match c.direction {
            Directions::Up => (input.arrow_up.held() || !input.arrow_up.pressed) && (
            input.letter_d.held() || !input.letter_d.pressed),
            Directions::Down => (input.arrow_down.held() || !input.arrow_down.pressed) && (
            input.letter_f.held() || !input.letter_f.pressed),
            Directions::Left => (input.arrow_left.held() || !input.arrow_left.pressed) && (
            input.letter_j.held() || !input.letter_j.pressed),
            Directions::Right => (input.arrow_right.held() || !input.arrow_right.pressed) && (
            input.letter_k.held() || !input.letter_k.pressed),
        },
    ensures
        !cue_hit(c, input),
{
}

} // verus!
