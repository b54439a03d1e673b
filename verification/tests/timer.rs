use idle_arcade::util::Timer;
use std::time::Duration;

#[test]
fn new_timer_has_nothing_elapsed() {
    let timer = Timer::new(Duration::from_secs(2));
    assert_eq!(timer.target_nanos(), 2_000_000_000);
    assert_eq!(timer.elapsed_nanos(), 0);
    assert!(!timer.is_finished());
    assert_eq!(timer.time_left(), 2);
}

#[test]
fn elapsed_is_the_sum_of_the_updates() {
    let mut timer = Timer::new(Duration::from_secs(5));
    let steps = [0.25f32, 0.5, 0.0, 1.25, 2.0];
    let mut sum = Duration::ZERO;
    for step in steps {
        timer.update(Duration::from_secs_f32(step));
        sum += Duration::from_secs_f32(step);
    }
    assert_eq!(timer.elapsed_nanos(), sum.as_nanos());
    assert_eq!(timer.elapsed_nanos(), 4_000_000_000);
    assert!(!timer.is_finished());
    timer.update(Duration::from_secs(1));
    assert_eq!(timer.elapsed_nanos(), 5_000_000_000);
    assert!(timer.is_finished());
}

#[test]
fn finished_exactly_when_the_target_is_reached() {
    let mut timer = Timer::new(Duration::from_millis(100));
    timer.update(Duration::from_nanos(99_999_999));
    assert!(!timer.is_finished());
    timer.update(Duration::from_nanos(1));
    assert!(timer.is_finished());
    timer.update(Duration::from_secs(3));
    assert!(timer.is_finished());
}

#[test]
fn zero_target_is_finished_at_once() {
    let timer = Timer::new(Duration::ZERO);
    assert!(timer.is_finished());
    assert_eq!(timer.time_left(), 0);
}

#[test]
fn reset_then_empty_update_shows_the_whole_target() {
    let mut timer = Timer::new(Duration::from_millis(7_600));
    timer.update(Duration::from_secs(3));
    timer.reset();
    timer.update(Duration::ZERO);
    assert_eq!(timer.elapsed_nanos(), 0);
    assert_eq!(timer.target_nanos(), 7_600_000_000);
    assert_eq!(timer.time_left(), 8);
}

#[test]
fn time_left_rounds_to_the_nearest_second() {
    let mut timer = Timer::new(Duration::from_secs(5));
    timer.update(Duration::from_millis(1_400));
    assert_eq!(timer.time_left(), 4);
    timer.update(Duration::from_millis(100));
    assert_eq!(timer.time_left(), 4);
    timer.update(Duration::from_millis(1));
    assert_eq!(timer.time_left(), 3);
}

#[test]
fn time_left_counts_up_again_after_expiry() {
    let mut timer = Timer::new(Duration::from_secs(2));
    timer.update(Duration::from_secs(2));
    assert_eq!(timer.time_left(), 0);
    timer.update(Duration::from_secs(3));
    assert!(timer.is_finished());
    assert_eq!(timer.time_left(), 3);
}

#[test]
fn time_left_stops_at_the_largest_number() {
    let timer = Timer::new(Duration::from_secs(10_000_000_000));
    assert_eq!(timer.time_left(), i32::MAX);
}

#[test]
fn elapsed_time_stops_at_the_end_of_the_counter() {
    let mut timer = Timer::new(Duration::from_secs(1));
    timer.advance(u128::MAX - 5);
    timer.advance(3);
    assert_eq!(timer.elapsed_nanos(), u128::MAX - 2);
    timer.advance(10);
    assert_eq!(timer.elapsed_nanos(), u128::MAX);
    assert!(timer.is_finished());
}
