use teleop_ui::clock::{current_timestamp, timestamp_from_fields, LocalTime};
use teleop_ui::timefmt::{
    appended_log, format_timestamp, format_timestamp_compact, four_digits, log_entry, two_digits,
    Timestamp,
};

fn ts(year: u16, month: u8, day: u8, hour: u8, minute: u8, second: u8) -> Timestamp {
    Timestamp { year, month, day, hour, minute, second }
}

#[test]
fn log_append_preserves_prior_lines_and_adds_exactly_one() {
    let prior = "[2024-01-01 00:00:00] boot\n";
    let t = ts(2024, 1, 2, 3, 4, 5);
    let after = appended_log(prior, &t, "hello");
    assert_eq!(
        after,
        "[2024-01-01 00:00:00] boot\n[2024-01-02 03:04:05] hello\n"
    );
}

#[test]
fn log_entry_has_the_exact_bracketed_form() {
    let t = ts(2024, 12, 31, 23, 59, 59);
    assert_eq!(log_entry(&t, "hello"), "[2024-12-31 23:59:59] hello\n");
}

#[test]
fn appending_to_empty_log_gives_one_line() {
    let t = ts(2000, 6, 7, 8, 9, 10);
    assert_eq!(appended_log("", &t, "x"), "[2000-06-07 08:09:10] x\n");
}

#[test]
fn timestamp_is_zero_padded() {
    let t = ts(7, 1, 2, 3, 4, 5);
    assert_eq!(format_timestamp(&t), "0007-01-02 03:04:05");
}

#[test]
fn compact_timestamp_matches_export_name_form() {
    let t = ts(2024, 1, 2, 3, 4, 5);
    assert_eq!(format_timestamp_compact(&t), "20240102-030405");
}

#[test]
fn digit_helpers_pad() {
    assert_eq!(two_digits(0), "00");
    assert_eq!(two_digits(9), "09");
    assert_eq!(two_digits(42), "42");
    assert_eq!(four_digits(0), "0000");
    assert_eq!(four_digits(2024), "2024");
    assert_eq!(four_digits(31), "0031");
}

#[test]
fn clock_fields_outside_civil_ranges_give_nothing() {
    let bad = LocalTime { year: 10000, month: 1, day: 1, hour: 0, minute: 0, second: 0 };
    assert!(timestamp_from_fields(&bad).is_none());
    let bad = LocalTime { year: 2024, month: 13, day: 1, hour: 0, minute: 0, second: 0 };
    assert!(timestamp_from_fields(&bad).is_none());
    let bad = LocalTime { year: -1, month: 1, day: 1, hour: 0, minute: 0, second: 0 };
    assert!(timestamp_from_fields(&bad).is_none());
}

#[test]
fn clock_fields_in_range_carry_over() {
    let good = LocalTime { year: 2024, month: 1, day: 2, hour: 3, minute: 4, second: 5 };
    let t = timestamp_from_fields(&good).expect("in range");
    assert_eq!(format_timestamp(&t), "2024-01-02 03:04:05");
}

#[test]
fn host_clock_narrows_to_a_renderable_stamp() {
    // The host clock's year is within four digits for any plausible run of
    // this test; the stamp it yields must render in the fixed 19-char form.
    let t = current_timestamp().expect("host clock in civil range");
    let s = format_timestamp(&t);
    assert_eq!(s.len(), 19);
    let b = s.as_bytes();
    assert_eq!(b[4], b'-');
    assert_eq!(b[7], b'-');
    assert_eq!(b[10], b' ');
    assert_eq!(b[13], b':');
    assert_eq!(b[16], b':');
}
