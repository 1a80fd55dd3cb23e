use rhythm::consts::THRESHOLD;
use rhythm::score::ScoreResource;

#[test]
fn dead_centre_press_earns_full_points() {
    let mut score = ScoreResource::default();
    let points = score.increase_correct(0);
    assert_eq!(points, 100);
    assert_eq!(score.score(), 100);
    assert_eq!(score.corrects(), 1);
    assert_eq!(score.fails(), 0);
}

#[test]
fn edge_of_window_earns_minimum_points() {
    let mut score = ScoreResource::default();
    assert_eq!(score.increase_correct(THRESHOLD), 10);
    assert_eq!(score.increase_correct(-THRESHOLD), 10);
    assert_eq!(score.score(), 20);
    assert_eq!(score.corrects(), 2);
}

#[test]
fn halfway_press_rounds_to_fifty() {
    let mut score = ScoreResource::default();
    // (20_000 - 10_000) * 100 + 10_000 over 20_000 is 50.5, rounded down.
    assert_eq!(score.increase_correct(10_000), 50);
}

#[test]
fn points_are_monotonic_in_closeness() {
    let mut previous = 101;
    let mut distance: i64 = 0;
    while distance <= THRESHOLD {
        let mut score = ScoreResource::default();
        let p = score.increase_correct(distance);
        assert!(p <= previous, "distance {} gave {} > {}", distance, p, previous);
        assert!((10..=100).contains(&p));
        let mut mirrored = ScoreResource::default();
        assert_eq!(mirrored.increase_correct(-distance), p);
        previous = p;
        distance += 250;
    }
}

#[test]
fn increase_fails_counts_only_failures() {
    let mut score = ScoreResource::default();
    score.increase_fails();
    score.increase_fails();
    assert_eq!(score.fails(), 2);
    assert_eq!(score.corrects(), 0);
    assert_eq!(score.score(), 0);
}
