use mcycle_delay::convert::clamp_duration;
use mcycle_delay::convert::ms_to_cycles;
use mcycle_delay::convert::us_to_cycles;
use mcycle_delay::delay::McycleDelay;

#[test]
fn microsecond_conversion_is_floor() {
    assert_eq!(us_to_cycles(1_000_000, 1), 1);
    assert_eq!(us_to_cycles(1_500_000, 1), 1);
    assert_eq!(us_to_cycles(1_999_999, 1), 1);
    assert_eq!(us_to_cycles(2_000_000, 1), 2);
    assert_eq!(us_to_cycles(999_999, 1), 0);
    assert_eq!(us_to_cycles(3, 7), 0);
    assert_eq!(us_to_cycles(25_000_000, 3), 75);
}

#[test]
fn millisecond_conversion_is_floor() {
    assert_eq!(ms_to_cycles(1_000, 1), 1);
    assert_eq!(ms_to_cycles(1_500, 1), 1);
    assert_eq!(ms_to_cycles(999, 1), 0);
    assert_eq!(ms_to_cycles(1, 1_999), 1);
    assert_eq!(ms_to_cycles(32_768, 3), 98);
}

#[test]
fn one_mhz_500_microseconds_is_500_cycles() {
    assert_eq!(us_to_cycles(1_000_000, 500), 500);
}

#[test]
fn eight_mhz_2_milliseconds_is_16000_cycles() {
    assert_eq!(ms_to_cycles(8_000_000, 2), 16_000);
}

#[test]
fn negative_16_bit_duration_is_zero_cycles() {
    let raw: i16 = -10;
    let clamped: u64 = clamp_duration(raw as i64);
    assert_eq!(clamped, 0);
    assert_eq!(us_to_cycles(48_000_000, clamped), 0);
}

#[test]
fn hundred_mhz_1_microsecond_is_100_cycles() {
    assert_eq!(us_to_cycles(100_000_000, 1), 100);
}

#[test]
fn negative_durations_clamp_to_zero() {
    assert_eq!(clamp_duration(-1), 0);
    assert_eq!(clamp_duration(i64::MIN), 0);
    assert_eq!(clamp_duration(0), 0);
    assert_eq!(clamp_duration(1), 1);
    assert_eq!(clamp_duration(i64::MAX), i64::MAX as u64);
    assert_eq!(
        us_to_cycles(48_000_000, clamp_duration(-7)),
        us_to_cycles(48_000_000, 0)
    );
    assert_eq!(
        ms_to_cycles(48_000_000, clamp_duration(-7)),
        ms_to_cycles(48_000_000, 0)
    );
}

#[test]
fn conversion_is_monotone_in_the_duration() {
    let freq: u32 = 13_560_000;
    let mut previous_us: u64 = 0;
    let mut previous_ms: u64 = 0;
    for d in 0u64..2_000 {
        let us_cycles: u64 = us_to_cycles(freq, d);
        let ms_cycles: u64 = ms_to_cycles(freq, d);
        assert!(us_cycles >= previous_us);
        assert!(ms_cycles >= previous_ms);
        previous_us = us_cycles;
        previous_ms = ms_cycles;
    }
}

#[test]
fn elapsed_cycles_handles_wraparound() {
    assert_eq!(McycleDelay::elapsed_cycles(5, u64::MAX - 9), 15);
    assert_eq!(McycleDelay::elapsed_cycles(0, u64::MAX), 1);
    assert_eq!(McycleDelay::elapsed_cycles(0, 1), u64::MAX);
    assert_eq!(McycleDelay::elapsed_cycles(10, 10), 0);
    assert_eq!(McycleDelay::elapsed_cycles(20, 10), 10);
    assert_eq!(McycleDelay::elapsed_cycles(u64::MAX, 0), u64::MAX);
}

#[test]
fn providers_with_equal_frequency_are_equal() {
    assert_eq!(McycleDelay::new(42), McycleDelay::new(42));
    assert_eq!(McycleDelay::new(0), McycleDelay::new(0));
    assert_ne!(McycleDelay::new(42), McycleDelay::new(43));
}

#[test]
fn zero_frequency_yields_zero_cycles() {
    assert_eq!(us_to_cycles(0, 123_456), 0);
    assert_eq!(ms_to_cycles(0, 123_456), 0);
}

#[test]
fn conversion_handles_extreme_magnitudes() {
    let big: u64 = u32::MAX as u64;
    assert_eq!(us_to_cycles(u32::MAX, big), (big * big) / 1_000_000);
    assert_eq!(us_to_cycles(1, u64::MAX), u64::MAX / 1_000_000);
    assert_eq!(ms_to_cycles(1, u64::MAX), u64::MAX / 1_000);
}

#[test]
fn zero_target_needs_no_more_than_one_elapsed_cycle() {
    assert!(McycleDelay::still_waiting(0, 0));
    assert!(!McycleDelay::still_waiting(1, 0));
    assert!(McycleDelay::still_waiting(5, 5));
    assert!(!McycleDelay::still_waiting(6, 5));
    assert!(McycleDelay::still_waiting(0, u64::MAX));
}
