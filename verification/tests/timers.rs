use take_cover::common::{animate_sprite, AnimationIndices};
use take_cover::timer::Timer;

#[test]
fn fresh_timer_has_not_started() {
    let t = Timer::new(1_000);
    assert_eq!(
        t,
        Timer { duration: 1_000, elapsed: 0, finished: false, just_finished: false }
    );
}

#[test]
fn timer_counts_up_until_its_duration() {
    let mut t = Timer::new(1_000);
    t.tick(400);
    assert_eq!(t.elapsed, 400);
    assert!(!t.finished());
    assert!(!t.just_finished());
    t.tick(599);
    assert_eq!(t.elapsed, 999);
    assert!(!t.finished());
}

#[test]
fn timer_finishes_exactly_at_its_duration() {
    let mut t = Timer::new(1_000);
    t.tick(400);
    t.tick(600);
    assert_eq!(t.elapsed, 1_000);
    assert!(t.finished());
    assert!(t.just_finished());
}

#[test]
fn timer_overshoot_is_held_at_the_duration() {
    let mut t = Timer::new(1_000);
    t.tick(u64::MAX);
    assert_eq!(t.elapsed, 1_000);
    assert!(t.finished());
}

#[test]
fn timer_reports_just_finished_on_one_tick_only() {
    let mut t = Timer::new(10);
    let mut times = 0;
    for _ in 0..20 {
        t.tick(3);
        if t.just_finished() {
            times += 1;
        }
    }
    assert_eq!(times, 1);
    assert!(t.finished());
    assert_eq!(t.elapsed, 10);
}

#[test]
fn timer_of_no_duration_finishes_on_its_first_tick() {
    let mut t = Timer::new(0);
    assert!(!t.finished());
    t.tick(0);
    assert!(t.finished());
    assert!(t.just_finished());
}

#[test]
fn reset_timer_starts_over() {
    let mut t = Timer::new(50);
    t.tick(80);
    t.reset();
    assert_eq!(t, Timer { duration: 50, elapsed: 0, finished: false, just_finished: false });
    t.tick(49);
    assert!(!t.finished());
}

#[test]
fn sprite_frame_steps_inside_its_range() {
    let range = Some(AnimationIndices { first: 7, last: 9 });
    assert_eq!(animate_sprite(range, true, 7), 8);
    assert_eq!(animate_sprite(range, true, 8), 9);
}

#[test]
fn sprite_frame_wraps_to_the_first() {
    let range = Some(AnimationIndices { first: 7, last: 9 });
    assert_eq!(animate_sprite(range, true, 9), 7);
    assert_eq!(animate_sprite(range, true, 30), 7);
    assert_eq!(animate_sprite(range, true, 2), 7);
}

#[test]
fn sprite_frame_waits_for_its_timer() {
    let range = Some(AnimationIndices { first: 7, last: 9 });
    assert_eq!(animate_sprite(range, false, 8), 8);
    assert_eq!(animate_sprite(None, true, 8), 8);
}
