use bevy::time::{Timer, TimerMode};
use sprite_walker::clock::{FrameTimer, Span, NANOS_PER_SEC};
use std::time::Duration;

fn millis(ms: u32) -> Span {
    Span { secs: (ms / 1000) as u64, nanos: (ms % 1000) * 1_000_000 }
}

#[test]
fn span_rejects_a_full_second_of_nanos() {
    assert_eq!(NANOS_PER_SEC, 1_000_000_000);
    assert_eq!(Span::new(3, 999_999_999), Some(Span { secs: 3, nanos: 999_999_999 }));
    assert_eq!(Span::new(3, 1_000_000_000), None);
    assert_eq!(Span::new(0, u32::MAX), None);
    assert!(Span { secs: 0, nanos: 0 }.is_valid());
    assert!(!Span { secs: 0, nanos: 1_000_000_000 }.is_valid());
}

#[test]
fn zero_span() {
    assert_eq!(Span::zero(), Span { secs: 0, nanos: 0 });
}

#[test]
fn new_timer_has_nothing_elapsed() {
    let timer = FrameTimer::new(millis(100));
    assert_eq!(timer.period, millis(100));
    assert_eq!(timer.elapsed, Span::zero());
    assert!(timer.is_valid());
}

#[test]
fn invalid_period_makes_invalid_timer() {
    let timer = FrameTimer::new(Span { secs: 0, nanos: 2_000_000_000 });
    assert!(!timer.is_valid());
}

#[test]
fn tick_below_period_does_not_fire() {
    let mut timer = FrameTimer::new(millis(100));
    assert!(!timer.tick(millis(30)));
    assert_eq!(timer.elapsed, millis(30));
    assert!(!timer.tick(millis(60)));
    assert_eq!(timer.elapsed, millis(90));
    assert_eq!(timer.period, millis(100));
}

#[test]
fn tick_reaching_period_fires_and_wraps() {
    let mut timer = FrameTimer::new(millis(100));
    assert!(!timer.tick(millis(90)));
    assert!(timer.tick(millis(10)));
    assert_eq!(timer.elapsed, millis(0));
    assert!(!timer.tick(millis(40)));
    assert!(timer.tick(millis(110)));
    assert_eq!(timer.elapsed, millis(50));
}

#[test]
fn tick_over_several_periods_keeps_the_remainder() {
    let mut timer = FrameTimer::new(millis(1000));
    assert!(timer.tick(millis(3500)));
    assert_eq!(timer.elapsed, millis(500));
}

#[test]
fn tick_of_nothing_changes_nothing() {
    let mut timer = FrameTimer::new(millis(100));
    timer.tick(millis(70));
    assert!(!timer.tick(Span::zero()));
    assert_eq!(timer.elapsed, millis(70));
}

#[test]
fn reset_starts_the_period_over() {
    let mut timer = FrameTimer::new(millis(100));
    timer.tick(millis(70));
    timer.reset();
    assert_eq!(timer, FrameTimer::new(millis(100)));
    assert!(!timer.tick(millis(70)));
    assert_eq!(timer.elapsed, millis(70));
}

#[test]
fn tick_carries_nanoseconds_into_seconds() {
    let mut timer = FrameTimer::new(Span { secs: 10, nanos: 0 });
    timer.tick(Span { secs: 1, nanos: 600_000_000 });
    assert!(!timer.tick(Span { secs: 1, nanos: 600_000_000 }));
    assert_eq!(timer.elapsed, Span { secs: 3, nanos: 200_000_000 });
}

#[test]
fn agrees_with_the_engine_timer_over_a_run() {
    let period = Duration::from_secs_f32(0.1);
    let mut engine = Timer::new(period, TimerMode::Repeating);
    let mut timer = FrameTimer::new(Span { secs: period.as_secs(), nanos: period.subsec_nanos() });
    let mut fired = 0;
    for step in 0..200u32 {
        let delta = Duration::new(0, 7_000_000 + step * 311_111);
        engine.tick(delta);
        let got = timer.tick(Span { secs: delta.as_secs(), nanos: delta.subsec_nanos() });
        assert_eq!(got, engine.just_finished());
        assert_eq!(timer.elapsed.secs, engine.elapsed().as_secs());
        assert_eq!(timer.elapsed.nanos, engine.elapsed().subsec_nanos());
        if got {
            fired += 1;
        }
        if step % 37 == 0 {
            engine.reset();
            timer.reset();
        }
    }
    assert!(fired > 0);
}

#[test]
fn zero_period_fires_on_every_tick_and_keeps_nothing() {
    let mut timer = FrameTimer::new(Span::zero());
    assert!(timer.tick(millis(30)));
    assert_eq!(timer.elapsed, Span::zero());
    assert!(timer.tick(Span::zero()));
    assert_eq!(timer.elapsed, Span::zero());
}

#[test]
fn tick_exactly_one_period_fires_and_keeps_nothing() {
    let mut timer = FrameTimer::new(millis(100));
    assert!(timer.tick(millis(100)));
    assert_eq!(timer.elapsed, Span::zero());
}

#[test]
fn tick_one_nanosecond_short_is_silent() {
    let mut timer = FrameTimer::new(millis(100));
    assert!(!timer.tick(Span { secs: 0, nanos: 99_999_999 }));
    assert_eq!(timer.elapsed, Span { secs: 0, nanos: 99_999_999 });
    assert!(timer.tick(Span { secs: 0, nanos: 1 }));
    assert_eq!(timer.elapsed, Span::zero());
}

#[test]
fn tick_of_a_second_on_a_tenth_fires() {
    let mut timer = FrameTimer::new(millis(100));
    assert!(timer.tick(millis(1000)));
    assert_eq!(timer.elapsed, Span::zero());
}

#[test]
fn tick_keeps_a_remainder_of_whole_seconds() {
    let mut timer = FrameTimer::new(Span { secs: 7, nanos: 500_000_000 });
    assert!(timer.tick(Span { secs: 40, nanos: 250_000_000 }));
    assert_eq!(timer.elapsed, Span { secs: 2, nanos: 750_000_000 });
}
