use rhythm::arrows::{move_arrows, LiveCue};
use rhythm::consts::{SPAWN_POSITION, TARGET_POSITION};
use rhythm::types::{Directions, Speed};

fn fresh_cue(speed: Speed, direction: Directions) -> LiveCue {
    LiveCue {
        speed,
        direction,
        x: SPAWN_POSITION,
        y: direction.y(),
        scale: 1000,
        rotation: direction.rotation(),
    }
}

#[test]
fn approach_advances_x_only() {
    let mut live = vec![fresh_cue(Speed::Slow, Directions::Up)];
    // One second at 200 px/s: 200 pixels.
    move_arrows(&mut live, 1_000_000);
    assert_eq!(live[0].x, SPAWN_POSITION + 200_000);
    assert_eq!(live[0].y, 150_000);
    assert_eq!(live[0].scale, 1000);
    assert_eq!(live[0].rotation, 1_570_796);
}

#[test]
fn speed_scales_the_advance() {
    let mut live = vec![
        fresh_cue(Speed::Slow, Directions::Up),
        fresh_cue(Speed::Medium, Directions::Down),
        fresh_cue(Speed::Fast, Directions::Left),
    ];
    move_arrows(&mut live, 500_000);
    assert_eq!(live[0].x, SPAWN_POSITION + 100_000);
    assert_eq!(live[1].x, SPAWN_POSITION + 120_000);
    assert_eq!(live[2].x, SPAWN_POSITION + 150_000);
}

#[test]
fn sub_unit_advance_truncates_to_zero() {
    // 4 microseconds at 200 px/s is less than one millipixel.
    let mut live = vec![fresh_cue(Speed::Slow, Directions::Right)];
    move_arrows(&mut live, 4);
    assert_eq!(live[0].x, SPAWN_POSITION);
}

#[test]
fn crossing_the_fall_trigger_starts_the_fall() {
    // Up cue just short of the outer target edge; 10 ms at 200 px/s
    // advances 2 pixels, to overshoot 1.5 px = 1500 mpx.
    let cue = LiveCue {
        speed: Speed::Slow,
        direction: Directions::Up,
        x: 219_500,
        y: 150_000,
        scale: 1000,
        rotation: 1_570_796,
    };
    let mut live = vec![cue];
    move_arrows(&mut live, 10_000);
    let m = live[0];
    assert_eq!(m.x, 221_500);
    // y falls by delta * overshoot * 2: 10_000 us * 1500 mpx * 2 / 1e6.
    assert_eq!(m.y, 150_000 - 30);
    // scale shrinks by overshoot / 300 thousandths.
    assert_eq!(m.scale, 995);
    // rotation spins back by overshoot * multiplier * 100 / 460 urad.
    assert_eq!(m.rotation, 1_570_796 - 3_260);
}

#[test]
fn deep_overshoot_hits_the_scale_floor() {
    // A cue on the miss line, one more second of motion: overshoot is
    // 380_000 mpx, far past where the scale formula bottoms out.
    let cue = LiveCue {
        speed: Speed::Slow,
        direction: Directions::Up,
        x: 400_000,
        y: 0,
        scale: 400,
        rotation: 1_570_796,
    };
    let mut live = vec![cue];
    move_arrows(&mut live, 1_000_000);
    let m = live[0];
    assert_eq!(m.x, 600_000);
    assert_eq!(m.scale, 200);
    assert_eq!(m.y, 0 - 760_000);
    assert_eq!(m.rotation, 1_570_796 - 826_086);
}

#[test]
fn falling_scale_never_grows() {
    let cue = LiveCue {
        speed: Speed::Fast,
        direction: Directions::Left,
        x: 219_990,
        y: -50_000,
        scale: 1000,
        rotation: 3_141_593,
    };
    let mut live = vec![cue];
    let mut last_scale = 1000;
    for _ in 0..14 {
        move_arrows(&mut live, 40_000);
        assert!(live[0].scale <= last_scale);
        assert!(live[0].scale >= 200);
        last_scale = live[0].scale;
    }
}

#[test]
fn x_never_moves_backward() {
    let mut live = vec![fresh_cue(Speed::Medium, Directions::Down)];
    let mut last_x = live[0].x;
    for _ in 0..10 {
        move_arrows(&mut live, 123_456);
        assert!(live[0].x >= last_x);
        last_x = live[0].x;
    }
    assert!(last_x > SPAWN_POSITION);
    assert!(last_x < 2 * TARGET_POSITION);
}
