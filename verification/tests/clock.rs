use canvas_control::clock::{ClockSource, Span, MILLIS_PER_SECOND};

#[test]
fn new_clock_has_no_time_elapsed() {
    let clock = ClockSource::new(2_500);
    assert_eq!(clock.last_update(), 2_500);
    assert_eq!(clock.elapsed(), Span { millis: 0 });
}

#[test]
fn tick_returns_the_time_since_the_last_update() {
    let mut clock = ClockSource::new(1_000);
    let delta = clock.tick(1_016);
    assert_eq!(delta, Span { millis: 16 });
    assert_eq!(clock.elapsed().as_millis(), 16);
    assert_eq!(clock.last_update(), 1_016);
}

#[test]
fn tick_at_the_last_update_changes_nothing() {
    let mut clock = ClockSource::new(1_000);
    clock.tick(1_250);
    let delta = clock.tick(1_250);
    assert_eq!(delta.as_millis(), 0);
    assert_eq!(clock.elapsed().as_millis(), 250);
    assert_eq!(clock.last_update(), 1_250);
}

#[test]
fn tick_before_the_last_update_changes_nothing() {
    let mut clock = ClockSource::new(1_000);
    clock.tick(1_250);
    let delta = clock.tick(3);
    assert_eq!(delta.as_millis(), 0);
    assert_eq!(clock.elapsed().as_millis(), 250);
    assert_eq!(clock.last_update(), 1_250);
    let delta = clock.tick(1_249);
    assert_eq!(delta.as_millis(), 0);
    assert_eq!(clock.elapsed().as_millis(), 250);
    assert_eq!(clock.last_update(), 1_250);
}

#[test]
fn increasing_ticks_accumulate_first_to_last() {
    let ticks: [u64; 6] = [100, 116, 133, 150, 1_000, 4_321];
    let mut clock = ClockSource::new(ticks[0]);
    let mut sum = 0;
    for now in ticks {
        sum += clock.tick(now).as_millis();
    }
    assert_eq!(clock.elapsed().as_millis(), 4_321 - 100);
    assert_eq!(sum, 4_221);
    assert_eq!(clock.last_update(), 4_321);
    assert_eq!(clock.elapsed().whole_seconds(), 4);
    assert_eq!(clock.elapsed().subsec_millis(), 221);
}

#[test]
fn clock_started_before_the_first_tick_counts_from_its_start() {
    let mut clock = ClockSource::new(0);
    clock.tick(5);
    clock.tick(10);
    assert_eq!(clock.elapsed().as_millis(), 10);
}

#[test]
fn elapsed_never_decreases_whatever_the_order() {
    let ticks: [u64; 9] = [50, 10, 60, 60, 0, u64::MAX / 2, 7, u64::MAX, 1];
    let mut clock = ClockSource::new(20);
    let mut before = clock.elapsed().as_millis();
    let mut last = clock.last_update();
    for now in ticks {
        let delta = clock.tick(now).as_millis();
        let after = clock.elapsed().as_millis();
        assert!(after >= before);
        assert_eq!(after - before, delta);
        assert!(clock.last_update() >= last);
        before = after;
        last = clock.last_update();
    }
    assert_eq!(clock.elapsed().as_millis(), u64::MAX - 20);
    assert_eq!(clock.last_update(), u64::MAX);
}

#[test]
fn tick_over_the_whole_range_does_not_overflow() {
    let mut clock = ClockSource::new(0);
    let delta = clock.tick(u64::MAX);
    assert_eq!(delta.as_millis(), u64::MAX);
    assert_eq!(clock.elapsed().as_millis(), u64::MAX);
    assert_eq!(clock.tick(u64::MAX).as_millis(), 0);
}

#[test]
fn span_splits_into_seconds_and_milliseconds() {
    assert_eq!(MILLIS_PER_SECOND, 1_000);
    let short = Span::from_millis(16);
    assert_eq!(short.whole_seconds(), 0);
    assert_eq!(short.subsec_millis(), 16);
    let long = Span::from_millis(2_500);
    assert_eq!(long.whole_seconds(), 2);
    assert_eq!(long.subsec_millis(), 500);
    let exact = Span::from_millis(3_000);
    assert_eq!(exact.whole_seconds(), 3);
    assert_eq!(exact.subsec_millis(), 0);
    let most = Span::from_millis(u64::MAX);
    assert_eq!(most.whole_seconds(), 18_446_744_073_709_551);
    assert_eq!(most.subsec_millis(), 615);
    assert_eq!(short.as_millis() as f64 / 1000.0, 0.016);
}
