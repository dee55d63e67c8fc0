use caldash::parse::{parse_u32, split_trimmed, string_to_naive_date, trim};

#[test]
fn date_time_parses_both_separators() {
    let dt = string_to_naive_date("2024-03-10 12:30:05").unwrap();
    assert_eq!(
        (dt.date.year, dt.date.month, dt.date.day),
        (2024, 3, 10)
    );
    assert_eq!((dt.hour, dt.minute, dt.second), (12, 30, 5));

    let dt = string_to_naive_date("2024-03-10T12:30:05").unwrap();
    assert_eq!((dt.hour, dt.minute, dt.second), (12, 30, 5));
}

#[test]
fn date_time_accepts_a_leap_day_only_in_a_leap_year() {
    assert!(string_to_naive_date("2024-02-29 00:00:00").is_some());
    assert!(string_to_naive_date("2023-02-29 00:00:00").is_none());
}

#[test]
fn malformed_date_times_are_rejected() {
    assert!(string_to_naive_date("").is_none());
    assert!(string_to_naive_date("2024-03-10").is_none());
    assert!(string_to_naive_date("2024-03-10 24:00:00").is_none());
    assert!(string_to_naive_date("2024-03-10 12:60:00").is_none());
    assert!(string_to_naive_date("2024-00-10 12:00:00").is_none());
    assert!(string_to_naive_date("2024-03-32 12:00:00").is_none());
    assert!(string_to_naive_date("2024-03-10X12:00:00").is_none());
    assert!(string_to_naive_date("0000-03-10 12:00:00").is_none());
    assert!(string_to_naive_date("2024-3-10 12:00:00 ").is_none());
}

#[test]
fn trim_strips_both_ends_only() {
    assert_eq!(trim("  a b\t"), "a b");
    assert_eq!(trim("\r\n x \n"), "x");
    assert_eq!(trim(""), "");
    assert_eq!(trim("   "), "");
    assert_eq!(trim("no-ws"), "no-ws");
}

#[test]
fn numbers_parse_with_explicit_failures() {
    assert_eq!(parse_u32("123"), Some(123));
    assert_eq!(parse_u32("+7"), Some(7));
    assert_eq!(parse_u32("0"), Some(0));
    assert_eq!(parse_u32("4294967295"), Some(u32::MAX));
    assert_eq!(parse_u32("4294967296"), None);
    assert_eq!(parse_u32(""), None);
    assert_eq!(parse_u32("+"), None);
    assert_eq!(parse_u32("12a"), None);
    assert_eq!(parse_u32("-1"), None);
}

#[test]
fn splitting_trims_each_field_and_keeps_empty_ones() {
    let fields = split_trimmed("a, b ,c");
    assert_eq!(fields, vec!["a", "b", "c"]);
    let fields = split_trimmed(" one ");
    assert_eq!(fields, vec!["one"]);
    let fields = split_trimmed("x,,y,");
    assert_eq!(fields, vec!["x", "", "y", ""]);
}
