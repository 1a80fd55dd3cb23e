use rhythm::arrows::{despawn_arrows, LiveCue};
use rhythm::consts::{TARGET_POSITION, THRESHOLD};
use rhythm::input::{InputState, KeyState};
use rhythm::score::ScoreResource;
use rhythm::types::{Directions, Speed};

fn cue_at(x: i64, direction: Directions) -> LiveCue {
    LiveCue {
        speed: Speed::Slow,
        direction,
        x,
        y: direction.y(),
        scale: 1000,
        rotation: direction.rotation(),
    }
}

fn edge(pressed: bool) -> KeyState {
    KeyState { pressed, was_pressed: false }
}

fn input_with_up_edge() -> InputState {
    let mut input = InputState::new();
    input.arrow_up = edge(true);
    input
}

#[test]
fn centre_hit_earns_hundred_and_one_event() {
    let mut live = vec![cue_at(TARGET_POSITION, Directions::Up)];
    let mut score = ScoreResource::default();
    let events = despawn_arrows(&mut live, &input_with_up_edge(), &mut score);
    assert!(live.is_empty());
    assert_eq!(events.len(), 1);
    assert!(matches!(events[0].direction, Directions::Up));
    assert_eq!(events[0].points, 100);
    assert_eq!(score.score(), 100);
    assert_eq!(score.corrects(), 1);
    assert_eq!(score.fails(), 0);
}

#[test]
fn either_bound_key_triggers_the_hit() {
    let mut live = vec![cue_at(TARGET_POSITION, Directions::Up)];
    let mut score = ScoreResource::default();
    let mut input = InputState::new();
    input.letter_d = edge(true);
    let events = despawn_arrows(&mut live, &input, &mut score);
    assert_eq!(events.len(), 1);
    assert!(live.is_empty());
}

#[test]
fn window_edges_are_inclusive() {
    let mut live = vec![
        cue_at(TARGET_POSITION - THRESHOLD, Directions::Up),
        cue_at(TARGET_POSITION + THRESHOLD, Directions::Up),
    ];
    let mut score = ScoreResource::default();
    let events = despawn_arrows(&mut live, &input_with_up_edge(), &mut score);
    assert_eq!(events.len(), 2);
    assert_eq!(events[0].points, 10);
    assert_eq!(events[1].points, 10);
    assert!(live.is_empty());
}

#[test]
fn just_outside_the_window_is_no_hit() {
    let mut live = vec![cue_at(TARGET_POSITION - THRESHOLD - 1, Directions::Up)];
    let mut score = ScoreResource::default();
    let events = despawn_arrows(&mut live, &input_with_up_edge(), &mut score);
    assert!(events.is_empty());
    assert_eq!(live.len(), 1);
    assert_eq!(score.corrects(), 0);
}

#[test]
fn wrong_direction_key_is_no_hit() {
    let mut live = vec![cue_at(TARGET_POSITION, Directions::Down)];
    let mut score = ScoreResource::default();
    let events = despawn_arrows(&mut live, &input_with_up_edge(), &mut score);
    assert!(events.is_empty());
    assert_eq!(live.len(), 1);
}

#[test]
fn held_key_never_triggers_a_hit() {
    let mut live = vec![cue_at(TARGET_POSITION, Directions::Up)];
    let mut score = ScoreResource::default();
    let mut input = InputState::new();
    // Both bound keys are down but were already down last tick.
    input.arrow_up = KeyState { pressed: true, was_pressed: true };
    input.letter_d = KeyState { pressed: true, was_pressed: true };
    let events = despawn_arrows(&mut live, &input, &mut score);
    assert!(events.is_empty());
    assert_eq!(live.len(), 1);
    assert_eq!(score.corrects(), 0);
    assert_eq!(score.score(), 0);
}

#[test]
fn release_then_press_triggers_again() {
    let mut input = InputState::new();
    input.advance(true, false, false, false, false, false, false, false);
    assert!(Directions::Up.key_pressed(&input));
    input.advance(true, false, false, false, false, false, false, false);
    assert!(!Directions::Up.key_pressed(&input));
    input.advance(false, false, false, false, false, false, false, false);
    input.advance(true, false, false, false, false, false, false, false);
    assert!(Directions::Up.key_pressed(&input));
}

#[test]
fn passing_the_miss_line_counts_one_fail() {
    let mut live = vec![LiveCue {
        speed: Speed::Slow,
        direction: Directions::Up,
        x: 2 * TARGET_POSITION,
        y: 0,
        scale: 400,
        rotation: 0,
    }];
    let mut score = ScoreResource::default();
    let events = despawn_arrows(&mut live, &InputState::new(), &mut score);
    assert!(events.is_empty());
    assert!(live.is_empty());
    assert_eq!(score.fails(), 1);
    assert_eq!(score.corrects(), 0);
    assert_eq!(score.score(), 0);
}

#[test]
fn short_of_the_miss_line_stays_live() {
    let mut live = vec![LiveCue {
        speed: Speed::Slow,
        direction: Directions::Up,
        x: 2 * TARGET_POSITION - 1,
        y: 0,
        scale: 401,
        rotation: 0,
    }];
    let mut score = ScoreResource::default();
    despawn_arrows(&mut live, &InputState::new(), &mut score);
    assert_eq!(live.len(), 1);
    assert_eq!(score.fails(), 0);
}

#[test]
fn stacked_cues_of_one_direction_all_score_on_one_edge() {
    let mut live = vec![
        cue_at(TARGET_POSITION, Directions::Up),
        cue_at(TARGET_POSITION - 5_000, Directions::Up),
        cue_at(TARGET_POSITION, Directions::Down),
    ];
    let mut score = ScoreResource::default();
    let events = despawn_arrows(&mut live, &input_with_up_edge(), &mut score);
    assert_eq!(events.len(), 2);
    assert_eq!(events[0].points, 100);
    assert_eq!(events[1].points, 75);
    assert_eq!(score.corrects(), 2);
    assert_eq!(score.score(), 175);
    // The Down cue is untouched.
    assert_eq!(live.len(), 1);
    assert!(matches!(live[0].direction, Directions::Down));
}
