use entrainde::clock::elapsed;
use entrainde::clock::DebounceClock;
use entrainde::clock::DEBOUNCE_MILLIS;
use entrainde::clock::NEVER_HIDDEN;

#[test]
fn nothing_elapsed_before_first_hide() {
    assert_eq!(elapsed(NEVER_HIDDEN, 0), None);
    assert_eq!(elapsed(NEVER_HIDDEN, 1_000), None);
    assert_eq!(elapsed(0, u64::MAX), None);
}

#[test]
fn elapsed_is_the_difference() {
    assert_eq!(elapsed(1_000, 1_000), Some(0));
    assert_eq!(elapsed(1_000, 1_150), Some(150));
    assert_eq!(elapsed(1_000, 1_250), Some(250));
    assert_eq!(elapsed(1, u64::MAX), Some(u64::MAX - 1));
}

#[test]
fn elapsed_wraps_when_the_time_went_back() {
    assert_eq!(elapsed(1_000, 999), Some(u64::MAX));
    assert_eq!(elapsed(u64::MAX, 5), Some(6));
}

#[test]
fn threshold_is_two_hundred_milliseconds() {
    assert_eq!(DEBOUNCE_MILLIS, 200);
    assert_eq!(NEVER_HIDDEN, 0);
}

#[test]
fn new_clock_reports_nothing() {
    let clock = DebounceClock::new();
    assert_eq!(clock.snapshot(), 0);
    assert_eq!(clock.elapsed_since(5_000), None);
}

#[test]
fn clock_reports_time_since_recorded_hide() {
    let clock = DebounceClock::new();
    clock.record_hide(1_000);
    assert_eq!(clock.snapshot(), 1_000);
    assert_eq!(clock.elapsed_since(1_000), Some(0));
    assert_eq!(clock.elapsed_since(1_037), Some(37));
    assert_eq!(clock.elapsed_since(1_000 + 86_400_000), Some(86_400_000));
}

#[test]
fn later_hide_overwrites_earlier_one() {
    let clock = DebounceClock::new();
    clock.record_hide(1_000);
    clock.record_hide(4_000);
    assert_eq!(clock.elapsed_since(4_100), Some(100));
    clock.record_hide(2_000);
    assert_eq!(clock.elapsed_since(4_100), Some(2_100));
}

#[test]
fn recording_zero_reads_as_never_hidden() {
    let clock = DebounceClock::new();
    clock.record_hide(7);
    clock.record_hide(0);
    assert_eq!(clock.elapsed_since(50), None);
}

#[test]
fn clock_is_written_through_a_shared_reference() {
    let clock = std::sync::Arc::new(DebounceClock::new());
    let writer = std::sync::Arc::clone(&clock);
    writer.record_hide(9_000);
    assert_eq!(clock.elapsed_since(9_120), Some(120));
}
