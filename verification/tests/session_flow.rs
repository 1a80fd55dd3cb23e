use rhythm::consts::{SPAWN_POSITION, TARGET_POSITION};
use rhythm::input::{InputState, KeyState};
use rhythm::session::GameSession;
use rhythm::types::{ArrowTime, Directions, SongConfig, Speed};

fn single_cue_chart() -> SongConfig {
    SongConfig { arrows: vec![ArrowTime::new(1_000_000, Speed::Slow, Directions::Up)] }
}

fn no_keys() -> InputState {
    InputState::new()
}

fn up_edge() -> InputState {
    let mut input = InputState::new();
    input.arrow_up = KeyState { pressed: true, was_pressed: false };
    input
}

#[test]
fn cue_is_live_just_past_one_second() {
    // Chart: one slow Up cue clicked one second into the song, so it
    // spawns at session time -2s, i.e. one second after session start
    // given the three-second lead-in.
    let mut session = GameSession::new(single_cue_chart());
    session.step(0, &no_keys());
    let events = session.step(1_000_000, &no_keys());
    assert!(events.is_empty());
    assert!(session.live.is_empty());

    session.step(1_000_001, &no_keys());
    assert_eq!(session.live.len(), 1);
    assert_eq!(session.live[0].x, SPAWN_POSITION);
    assert!(matches!(session.live[0].direction, Directions::Up));
    assert!(session.config.arrows.is_empty());
}

#[test]
fn cue_reaches_target_at_its_click_time_and_scores() {
    let mut session = GameSession::new(single_cue_chart());
    session.step(0, &no_keys());
    session.step(1_000_000, &no_keys());
    session.step(1_000_001, &no_keys());
    // Three seconds of travel at 200 px/s cover the 600 pixels to the
    // target exactly: press Up on that tick.
    session.step(4_000_001, &up_edge());
    assert!(session.live.is_empty());
    assert_eq!(session.score.corrects(), 1);
    assert_eq!(session.score.score(), 100);
    assert_eq!(session.score.fails(), 0);
}

#[test]
fn split_ticks_spawn_and_score_the_same() {
    // The same span of time, as one long tick or as several short ones,
    // spawns the same cue and lands it on the same target position.
    let mut coarse = GameSession::new(single_cue_chart());
    coarse.step(0, &no_keys());
    coarse.step(1_000_000, &no_keys());
    let events = coarse.step(4_000_001, &up_edge());
    assert_eq!(events.len(), 1);
    assert_eq!(events[0].points, 100);

    let mut fine = GameSession::new(single_cue_chart());
    fine.step(0, &no_keys());
    fine.step(1_000_000, &no_keys());
    fine.step(1_500_000, &no_keys());
    fine.step(2_500_000, &no_keys());
    let events = fine.step(4_000_001, &up_edge());
    assert_eq!(events.len(), 1);
    assert_eq!(events[0].points, 100);

    assert_eq!(coarse.score.score(), fine.score.score());
    assert_eq!(coarse.score.fails(), 0);
    assert_eq!(fine.score.fails(), 0);
}

#[test]
fn unhit_cue_times_out_as_a_fail() {
    let mut session = GameSession::new(single_cue_chart());
    session.step(0, &no_keys());
    session.step(1_000_001, &no_keys());
    // The cue passes twice the target position at session time 6s
    // (800_000 mpx past its spawn edge at 200 px/s).
    let events = session.step(7_000_000, &no_keys());
    assert!(events.is_empty());
    assert!(session.live.is_empty());
    assert_eq!(session.score.fails(), 1);
    assert_eq!(session.score.corrects(), 0);
    assert_eq!(session.score.score(), 0);
}

#[test]
fn miss_does_not_consume_the_key_edge_of_another_lane() {
    let mut session = GameSession::new(SongConfig {
        arrows: vec![
            ArrowTime::new(1_000_000, Speed::Slow, Directions::Up),
            ArrowTime::new(1_000_000, Speed::Slow, Directions::Down),
        ],
    });
    session.step(0, &no_keys());
    session.step(1_000_000, &no_keys());
    session.step(1_000_001, &no_keys());
    assert_eq!(session.live.len(), 2);
    // Hit only the Up cue at the target; the Down cue stays live.
    let events = session.step(4_000_001, &up_edge());
    assert_eq!(events.len(), 1);
    assert_eq!(session.live.len(), 1);
    assert!(matches!(session.live[0].direction, Directions::Down));
}

#[test]
fn reset_clears_cues_and_reanchors_time() {
    let mut session = GameSession::new(single_cue_chart());
    session.step(0, &no_keys());
    session.step(1_500_000, &no_keys());
    assert_eq!(session.live.len(), 1);
    session.reset();
    assert!(session.live.is_empty());
    // A new first tick starts session time over.
    session.step(9_000_000, &no_keys());
    assert!(session.live.is_empty());
    assert_eq!(session.score.fails(), 0);
}

#[test]
fn empty_chart_session_runs_to_completion_with_zero_score() {
    let mut session = GameSession::new(SongConfig { arrows: Vec::new() });
    session.step(0, &no_keys());
    for k in 1..=10i64 {
        let events = session.step(k * 1_000_000, &up_edge());
        assert!(events.is_empty());
    }
    assert_eq!(session.score.score(), 0);
    assert_eq!(session.score.corrects(), 0);
    assert_eq!(session.score.fails(), 0);
}
