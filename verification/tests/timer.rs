use lane_defense::timer::{Countdown, NANOS_PER_SECOND};

#[test]
fn fresh_countdown_has_not_finished() {
    let timer = Countdown::repeating(10);
    assert_eq!(timer, Countdown { duration: 10, elapsed: 0, finished: false });
    assert!(!timer.finished());
}

#[test]
fn countdown_from_seconds_counts_nanoseconds() {
    assert_eq!(NANOS_PER_SECOND, 1_000_000_000);
    let timer = Countdown::from_seconds(15);
    assert_eq!(timer, Countdown { duration: 15_000_000_000, elapsed: 0, finished: false });
    assert_eq!(Countdown::from_seconds(u32::MAX).duration, 4_294_967_295_000_000_000);
}

#[test]
fn tick_below_the_duration_accumulates() {
    let mut timer = Countdown::repeating(10);
    timer.tick(4);
    assert_eq!(timer, Countdown { duration: 10, elapsed: 4, finished: false });
    timer.tick(5);
    assert_eq!(timer, Countdown { duration: 10, elapsed: 9, finished: false });
}

#[test]
fn tick_that_reaches_the_duration_finishes_and_wraps() {
    let mut timer = Countdown::repeating(10);
    timer.tick(4);
    timer.tick(6);
    assert_eq!(timer, Countdown { duration: 10, elapsed: 0, finished: true });
    assert!(timer.finished());
}

#[test]
fn finished_lasts_for_one_tick_only() {
    let mut timer = Countdown::repeating(10);
    timer.tick(12);
    assert_eq!(timer, Countdown { duration: 10, elapsed: 2, finished: true });
    timer.tick(3);
    assert_eq!(timer, Countdown { duration: 10, elapsed: 5, finished: false });
}

#[test]
fn long_tick_records_one_expiry_and_keeps_the_remainder() {
    let mut timer = Countdown::repeating(10);
    timer.tick(25);
    assert_eq!(timer, Countdown { duration: 10, elapsed: 5, finished: true });
    timer.tick(0);
    assert_eq!(timer, Countdown { duration: 10, elapsed: 5, finished: false });
}

#[test]
fn zero_duration_finishes_on_every_tick() {
    let mut timer = Countdown::repeating(0);
    timer.tick(0);
    assert_eq!(timer, Countdown { duration: 0, elapsed: 0, finished: true });
    timer.tick(7);
    assert_eq!(timer, Countdown { duration: 0, elapsed: 0, finished: true });
}

#[test]
fn set_duration_keeps_elapsed_and_finished() {
    let mut timer = Countdown::repeating(10);
    timer.tick(17);
    timer.set_duration(3);
    assert_eq!(timer, Countdown { duration: 3, elapsed: 7, finished: true });
    timer.tick(0);
    assert_eq!(timer, Countdown { duration: 3, elapsed: 1, finished: true });
}

#[test]
fn tick_at_the_largest_values() {
    let mut timer = Countdown { duration: u64::MAX, elapsed: u64::MAX - 1, finished: false };
    timer.tick(u64::MAX);
    assert_eq!(timer, Countdown { duration: u64::MAX, elapsed: u64::MAX - 1, finished: true });
    let mut short = Countdown { duration: 1, elapsed: u64::MAX, finished: false };
    short.tick(u64::MAX);
    assert_eq!(short, Countdown { duration: 1, elapsed: 0, finished: true });
    let mut never = Countdown { duration: u64::MAX, elapsed: 0, finished: true };
    never.tick(u64::MAX - 1);
    assert_eq!(never, Countdown { duration: u64::MAX, elapsed: u64::MAX - 1, finished: false });
}
