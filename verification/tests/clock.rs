use power_mon::clock::{elapsed_nanos, millis_in, ClockError, NANOS_PER_MILLI};

#[test]
fn elapsed_is_the_difference() {
    assert_eq!(elapsed_nanos(1_000, 26_000_000), Ok(25_999_000));
    assert_eq!(elapsed_nanos(0, u64::MAX), Ok(u64::MAX));
}

#[test]
fn elapsed_between_equal_instants_is_zero() {
    assert_eq!(elapsed_nanos(42, 42), Ok(0));
    assert_eq!(elapsed_nanos(u64::MAX, u64::MAX), Ok(0));
}

#[test]
fn elapsed_fails_when_time_runs_backwards() {
    assert_eq!(
        elapsed_nanos(26_000_000, 1_000),
        Err(ClockError { reference: 26_000_000, observed: 1_000 })
    );
    assert_eq!(elapsed_nanos(1, 0), Err(ClockError { reference: 1, observed: 0 }));
}

#[test]
fn millis_are_rounded_down() {
    assert_eq!(NANOS_PER_MILLI, 1_000_000);
    assert_eq!(millis_in(0), 0);
    assert_eq!(millis_in(999_999), 0);
    assert_eq!(millis_in(1_000_000), 1);
    assert_eq!(millis_in(23_999_999), 23);
    assert_eq!(millis_in(24_000_000), 24);
    assert_eq!(millis_in(25_999_999), 25);
    assert_eq!(millis_in(26_000_000), 26);
    assert_eq!(millis_in(u64::MAX), 18_446_744_073_709);
}
