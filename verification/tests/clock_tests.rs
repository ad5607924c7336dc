use vita_agent::clock::{get_timestamp, timestamp_from_reading, timestamp_from_secs};

#[test]
fn timestamp_of_a_reading() {
    assert_eq!(timestamp_from_secs(0), 0);
    assert_eq!(timestamp_from_secs(1), 1);
    assert_eq!(timestamp_from_secs(1_700_000_000), 1_700_000_000);
    assert_eq!(timestamp_from_secs(i64::MAX as u64), i64::MAX);
}

#[test]
fn timestamp_beyond_the_signed_range_keeps_the_bits() {
    assert_eq!(timestamp_from_secs(i64::MAX as u64 + 1), i64::MIN);
    assert_eq!(timestamp_from_secs(u64::MAX), -1);
    for secs in [0u64, 5, 1 << 62, (1 << 63) - 1, 1 << 63, (1 << 63) + 12345, u64::MAX - 1] {
        assert_eq!(timestamp_from_secs(secs), secs as i64);
    }
}

#[test]
fn the_clock_stands_after_the_epoch() {
    let first = get_timestamp().expect("the clock stands before the epoch");
    let second = get_timestamp().expect("the clock stands before the epoch");
    assert!(first > 1_500_000_000);
    assert!(second >= first - 1);
}

#[test]
fn timestamp_of_a_clock_without_reading() {
    assert_eq!(timestamp_from_reading(None), None);
    assert_eq!(timestamp_from_reading(Some(0)), Some(0));
    assert_eq!(timestamp_from_reading(Some(1_700_000_000)), Some(1_700_000_000));
    assert_eq!(timestamp_from_reading(Some(u64::MAX)), Some(-1));
}
