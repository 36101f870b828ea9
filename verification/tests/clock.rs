use orbit_sim::sim_clock::{clamp_transform_time_us, SimClock, FRAME_TRANSFORM_HORIZON_US};

const HOUR_US: i64 = 3_600_000_000;

#[test]
fn clock_starts_at_epoch() {
    let clock = SimClock::new(1_000_000, HOUR_US);
    assert_eq!(clock.now_us(), 1_000_000);
    assert_eq!(clock.elapsed_us(), 0);
}

#[test]
fn advance_adds_one_step_interval() {
    let mut clock = SimClock::new(0, HOUR_US);
    clock.advance();
    assert_eq!(clock.now_us(), HOUR_US);
    assert_eq!(clock.elapsed_us(), HOUR_US);
    clock.advance();
    assert_eq!(clock.elapsed_us(), 2 * HOUR_US);
}

#[test]
fn elapsed_is_non_decreasing_over_many_steps() {
    let mut clock = SimClock::new(642_038_400_000_000, HOUR_US);
    let mut previous = clock.elapsed_us();
    for _ in 0..1000 {
        clock.advance();
        let elapsed = clock.elapsed_us();
        assert!(elapsed >= previous);
        assert_eq!(elapsed - previous, HOUR_US);
        previous = elapsed;
    }
}

#[test]
fn advance_saturates_at_the_top_of_the_range() {
    let mut clock = SimClock::new(i64::MAX - 10, HOUR_US);
    clock.advance();
    assert_eq!(clock.now_us(), i64::MAX);
    assert_eq!(clock.elapsed_us(), 10);
    clock.advance();
    assert_eq!(clock.now_us(), i64::MAX);
}

#[test]
fn elapsed_saturates_for_extreme_epochs() {
    let mut clock = SimClock::new(i64::MIN, i64::MAX);
    clock.advance();
    assert_eq!(clock.now_us(), -1);
    assert_eq!(clock.elapsed_us(), i64::MAX);
    clock.advance();
    assert_eq!(clock.elapsed_us(), i64::MAX);
}

#[test]
fn zero_step_interval_keeps_time_still() {
    let mut clock = SimClock::new(55, 0);
    clock.advance();
    assert_eq!(clock.now_us(), 55);
    assert_eq!(clock.elapsed_us(), 0);
}

#[test]
fn transform_time_below_horizon_passes_through() {
    assert_eq!(FRAME_TRANSFORM_HORIZON_US, 1_767_250_888_000_000);
    assert_eq!(clamp_transform_time_us(0), 0);
    assert_eq!(clamp_transform_time_us(-5), -5);
    assert_eq!(
        clamp_transform_time_us(FRAME_TRANSFORM_HORIZON_US - 1),
        FRAME_TRANSFORM_HORIZON_US - 1
    );
}

#[test]
fn transform_time_at_or_past_horizon_is_clamped() {
    assert_eq!(
        clamp_transform_time_us(FRAME_TRANSFORM_HORIZON_US),
        FRAME_TRANSFORM_HORIZON_US
    );
    assert_eq!(
        clamp_transform_time_us(FRAME_TRANSFORM_HORIZON_US + 1),
        FRAME_TRANSFORM_HORIZON_US
    );
    assert_eq!(
        clamp_transform_time_us(i64::MAX),
        FRAME_TRANSFORM_HORIZON_US
    );
}
