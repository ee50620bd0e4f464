//! The times in the log and in reports.

use chiu::clock::{timestamp, timestamp_or_epoch, END_SECOND, FIRST_SECOND, NANOSECONDS};
use chiu::diagnostics::report::safe_timestamp;

#[test]
fn times_are_written_in_universal_time() {
    for (seconds, text) in [
        (0, "1970-01-01T00:00:00Z"),
        (1_786_363_200, "2026-08-10T12:00:00Z"),
        (951_782_399, "2000-02-28T23:59:59Z"),
        (951_782_400, "2000-02-29T00:00:00Z"),
        (-1, "1969-12-31T23:59:59Z"),
        (FIRST_SECOND, "0000-01-01T00:00:00Z"),
        (END_SECOND - 1, "9999-12-31T23:59:59Z"),
    ] {
        assert_eq!(timestamp(seconds * NANOSECONDS), text);
    }
}

#[test]
fn parts_of_a_second_are_written_without_zeros_at_the_end() {
    assert_eq!(timestamp(500_000_000), "1970-01-01T00:00:00.5Z");
    assert_eq!(timestamp(1), "1970-01-01T00:00:00.000000001Z");
    assert_eq!(timestamp(-1), "1969-12-31T23:59:59.999999999Z");
    assert_eq!(
        timestamp(END_SECOND * NANOSECONDS - 1),
        "9999-12-31T23:59:59.999999999Z"
    );
}

#[test]
fn times_that_cannot_be_written_stand_for_the_epoch() {
    for nanoseconds in [
        END_SECOND * NANOSECONDS,
        FIRST_SECOND * NANOSECONDS - 1,
        i128::MAX,
        i128::MIN,
    ] {
        assert_eq!(timestamp(nanoseconds), "1970-01-01T00:00:00Z");
    }
    assert_eq!(timestamp_or_epoch(None), "1970-01-01T00:00:00Z");
    assert_eq!(timestamp_or_epoch(Some("noon".to_owned())), "noon");
}

#[test]
fn reports_show_every_time_as_it_is() {
    for nanoseconds in [0, 1, -1, 1_786_363_200_123_456_789, i128::MAX] {
        let text = timestamp(nanoseconds);
        assert_eq!(safe_timestamp(&text), text);
    }
}
