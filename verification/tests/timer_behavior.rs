//! Behavior of the countdown adapter against the recording delay
//! collaborator.

use countdown::Duration;
use countdown::RecordingDelay;
use countdown::Timer;

#[test]
fn start_twice_same_value_keeps_last_write() {
    let mut timer = Timer::new(RecordingDelay::new());
    let d = Duration::from_millis(1500);
    timer.start(d);
    timer.start(d);
    assert!(timer.wait().is_ok());
    assert_eq!(timer.delay_ref().calls().as_slice(), &[1_500_000u32]);
}

#[test]
fn start_overwrites_previous_value() {
    let mut timer = Timer::new(RecordingDelay::new());
    timer.start(Duration::from_secs(7));
    timer.start(Duration::from_millis(2));
    assert!(timer.wait().is_ok());
    assert_eq!(timer.delay_ref().calls().as_slice(), &[2_000u32]);
}

#[test]
fn wait_delegates_exact_microseconds() {
    let mut timer = Timer::new(RecordingDelay::new());
    timer.start(Duration::from_millis(1500));
    assert!(timer.wait().is_ok());
    assert_eq!(timer.delay_ref().calls().as_slice(), &[1_500_000u32]);
}

#[test]
fn wait_before_start_requests_zero() {
    let mut timer = Timer::new(RecordingDelay::new());
    assert!(timer.wait().is_ok());
    assert_eq!(timer.delay_ref().calls().as_slice(), &[0u32]);
}

#[test]
fn wait_succeeds_on_maximum_duration() {
    let mut timer = Timer::new(RecordingDelay::new());
    timer.start(Duration::from_secs(u64::MAX));
    assert!(timer.wait().is_ok());
    // u64::MAX seconds is (2^64 - 1) * 10^6 microseconds; modulo 2^32
    // that is 2^32 - 10^6.
    assert_eq!(timer.delay_ref().calls().as_slice(), &[4_293_967_296u32]);
}

#[test]
fn cancel_succeeds_and_preserves_duration() {
    let mut timer = Timer::new(RecordingDelay::new());
    timer.start(Duration::from_millis(250));
    assert!(timer.cancel().is_ok());
    assert!(timer.wait().is_ok());
    assert_eq!(timer.delay_ref().calls().as_slice(), &[250_000u32]);
}

#[test]
fn cancel_before_any_start_succeeds() {
    let mut timer = Timer::new(RecordingDelay::new());
    assert!(timer.cancel().is_ok());
    assert!(timer.wait().is_ok());
    assert_eq!(timer.delay_ref().calls().as_slice(), &[0u32]);
}

#[test]
fn truncation_wraps_at_two_to_the_32_micros() {
    let mut timer = Timer::new(RecordingDelay::new());
    timer.start(Duration::from_micros(1u64 << 32));
    assert!(timer.wait().is_ok());
    assert_eq!(timer.delay_ref().calls().as_slice(), &[0u32]);
}

#[test]
fn truncation_keeps_low_bits_above_the_boundary() {
    let mut timer = Timer::new(RecordingDelay::new());
    timer.start(Duration::from_micros((1u64 << 32) + 5));
    assert!(timer.wait().is_ok());
    assert_eq!(timer.delay_ref().calls().as_slice(), &[5u32]);
}

#[test]
fn one_second_scenario() {
    let mut timer = Timer::new(RecordingDelay::new());
    timer.start(Duration::from_secs(1));
    assert!(timer.wait().is_ok());
    assert_eq!(timer.delay_ref().calls().as_slice(), &[1_000_000u32]);
}

#[test]
fn repeated_waits_each_request_the_stored_duration() {
    let mut timer = Timer::new(RecordingDelay::new());
    timer.start(Duration::from_micros(42));
    assert!(timer.wait().is_ok());
    assert!(timer.wait().is_ok());
    assert!(timer.wait().is_ok());
    assert_eq!(timer.delay_ref().calls().as_slice(), &[42u32, 42u32, 42u32]);
}

#[test]
fn timer_is_not_periodic() {
    let timer = Timer::new(RecordingDelay::new());
    assert!(!timer.is_periodic());
}

#[test]
fn recording_delay_starts_empty() {
    let rec = RecordingDelay::new();
    assert!(rec.calls().is_empty());
}
