use itch_feed::version::{Version, LOCATE_HEADER_LEN, MAX_TIMESTAMP, NANOS_PER_SECOND};

#[test]
fn only_the_later_format_has_the_header() {
    assert!(!Version::V41.has_header());
    assert!(Version::V50.has_header());
    assert_eq!(Version::V41.header_len(), 0);
    assert_eq!(Version::V50.header_len(), 4);
    assert_eq!(LOCATE_HEADER_LEN, 4);
}

#[test]
fn only_the_earlier_format_counts_from_the_clock() {
    assert!(Version::V41.clock_relative());
    assert!(!Version::V50.clock_relative());
}

#[test]
fn nanoseconds_follow_the_format() {
    assert_eq!(Version::V41.nanoseconds(2, 5), 2_000_000_005);
    assert_eq!(Version::V50.nanoseconds(2, 5), 5);
    assert_eq!(Version::V41.nanoseconds(0, 0), 0);
    assert_eq!(
        Version::V41.nanoseconds(u32::MAX, MAX_TIMESTAMP),
        u32::MAX as u64 * NANOS_PER_SECOND + MAX_TIMESTAMP
    );
    assert_eq!(Version::V50.nanoseconds(u32::MAX, MAX_TIMESTAMP), 281_474_976_710_655);
}
