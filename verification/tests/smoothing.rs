use gaze_pointer::smoothing::LowPassFilter;
use gaze_pointer::smoothing::OneEuroFilter;
use gaze_pointer::smoothing::DEFAULT_FREQ;
use gaze_pointer::units::SCALE;

#[test]
fn lowpass_first_call_returns_input_exactly() {
    let mut f = LowPassFilter::new();
    assert_eq!(f.filter(123_456, 300_000), 123_456);
    assert_eq!(f.last_val(), 123_456);
}

#[test]
fn lowpass_alpha_one_tracks_every_input() {
    let mut f = LowPassFilter::new();
    assert_eq!(f.filter(100, SCALE), 100);
    assert_eq!(f.filter(42, SCALE), 42);
    assert_eq!(f.filter(-7, SCALE), -7);
    assert_eq!(f.last_val(), -7);
}

#[test]
fn lowpass_alpha_zero_keeps_state() {
    let mut f = LowPassFilter::new();
    f.filter(1000, SCALE);
    assert_eq!(f.filter(999_999, 0), 1000);
    assert_eq!(f.filter(-999_999, 0), 1000);
}

#[test]
fn lowpass_step_blends_exactly() {
    let mut f = LowPassFilter::new();
    f.filter(0, SCALE);
    // state 0, value 1_000_000, alpha one half: exactly the midpoint.
    assert_eq!(f.filter(1_000_000, 500_000), 500_000);
    // state 500_000, value 1_000_000, alpha one quarter.
    assert_eq!(f.filter(1_000_000, 250_000), 625_000);
}

#[test]
fn lowpass_never_overshoots() {
    let mut f = LowPassFilter::new();
    f.filter(0, SCALE);
    let mut prev = 0i64;
    for _ in 0..50 {
        let out = f.filter(1_000_000, 137_000);
        assert!(prev <= out && out <= 1_000_000);
        prev = out;
    }
}

#[test]
fn lowpass_constant_input_converges_to_the_quantum() {
    // With coefficient one half the state halves its gap each call and
    // can stall at most one micro-unit short of the input.
    let mut f = LowPassFilter::new();
    f.filter(0, SCALE);
    let mut out = 0i64;
    for _ in 0..40 {
        out = f.filter(1_000_000, 500_000);
    }
    assert!(999_999 <= out && out <= 1_000_000);
}

#[test]
fn one_euro_first_call_returns_input_exactly() {
    let mut f = OneEuroFilter::new(10_000, 2_000);
    assert_eq!(f.filter_at(765_432, 1_000_000), 765_432);
    assert_eq!(f.freq, DEFAULT_FREQ);
}

#[test]
fn one_euro_constant_input_stays_at_value() {
    let mut f = OneEuroFilter::new(10_000, 2_000);
    let mut t = 1_000_000u64;
    assert_eq!(f.filter_at(250_000, t), 250_000);
    for _ in 0..20 {
        t += 33_333;
        assert_eq!(f.filter_at(250_000, t), 250_000);
    }
}

#[test]
fn one_euro_step_input_monotonic_no_overshoot() {
    let mut f = OneEuroFilter::new(10_000, 2_000);
    let mut t = 1_000_000u64;
    f.filter_at(0, t);
    let mut prev = 0i64;
    for _ in 0..100 {
        t += 33_333;
        let out = f.filter_at(1_000_000, t);
        assert!(prev <= out && out <= 1_000_000);
        prev = out;
    }
}

#[test]
fn one_euro_updates_frequency_from_elapsed_time() {
    let mut f = OneEuroFilter::new(10_000, 2_000);
    f.filter_at(0, 1_000_000);
    // 20_000 microseconds elapsed: 50 Hz, in micro-hertz.
    f.filter_at(0, 1_020_000);
    assert_eq!(f.freq, 50_000_000);
    // Clock going backwards: the estimate is kept.
    f.filter_at(0, 900_000);
    assert_eq!(f.freq, 50_000_000);
}

#[test]
fn one_euro_wall_clock_filter_stays_in_band() {
    let mut f = OneEuroFilter::new(10_000, 2_000);
    assert_eq!(f.filter(300_000), 300_000);
    let out = f.filter(400_000);
    assert!(300_000 <= out && out <= 400_000);
}
