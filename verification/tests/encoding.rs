use chrono::{Datelike, Timelike};
use coingecko::dates::{Date, DateTime};
use coingecko::query::{bool_str, fmt_i64, fmt_u64, join_with};

#[test]
fn join_single_item_has_no_separator() {
    let parts = vec![String::from("bitcoin")];
    assert_eq!(join_with(&parts, "%2C"), "bitcoin");
}

#[test]
fn join_counts_separators() {
    let parts = vec![
        String::from("a"),
        String::from("b"),
        String::from("c"),
        String::from("d"),
    ];
    let joined = join_with(&parts, "%2C");
    assert_eq!(joined, "a%2Cb%2Cc%2Cd");
    assert_eq!(joined.matches("%2C").count(), parts.len() - 1);
    assert!(!joined.contains(','));
}

#[test]
fn join_empty_list_is_empty() {
    let parts: Vec<String> = vec![];
    assert_eq!(join_with(&parts, "%2C"), "");
}

#[test]
fn join_with_ampersand() {
    let parts = vec![String::from("x=1"), String::from("y=2")];
    assert_eq!(join_with(&parts, "&"), "x=1&y=2");
}

#[test]
fn bool_tokens_are_literals() {
    assert_eq!(bool_str(true), "true");
    assert_eq!(bool_str(false), "false");
}

#[test]
fn unsigned_decimal_rendering() {
    assert_eq!(fmt_u64(0), "0");
    assert_eq!(fmt_u64(7), "7");
    assert_eq!(fmt_u64(10), "10");
    assert_eq!(fmt_u64(146097), "146097");
    assert_eq!(fmt_u64(u64::MAX), "18446744073709551615");
}

#[test]
fn signed_decimal_rendering() {
    assert_eq!(fmt_i64(0), "0");
    assert_eq!(fmt_i64(42), "42");
    assert_eq!(fmt_i64(-1), "-1");
    assert_eq!(fmt_i64(-719468), "-719468");
    assert_eq!(fmt_i64(i64::MAX), "9223372036854775807");
    assert_eq!(fmt_i64(i64::MIN), "-9223372036854775808");
}

#[test]
fn date_validation_accepts_calendar_dates() {
    assert!(Date::from_ymd(2024, 2, 29).is_some());
    assert!(Date::from_ymd(2023, 2, 29).is_none());
    assert!(Date::from_ymd(1900, 2, 29).is_none());
    assert!(Date::from_ymd(2000, 2, 29).is_some());
    assert!(Date::from_ymd(2021, 4, 31).is_none());
    assert!(Date::from_ymd(2021, 0, 1).is_none());
    assert!(Date::from_ymd(2021, 13, 1).is_none());
    assert!(Date::from_ymd(2021, 1, 0).is_none());
    assert!(Date::from_ymd(0, 1, 1).is_none());
    assert!(Date::from_ymd(9999, 12, 31).is_some());
}

#[test]
fn date_time_validation_bounds_time_of_day() {
    let d = Date::from_ymd(2021, 6, 1).unwrap();
    assert!(DateTime::new(d, 23, 59, 59).is_some());
    assert!(DateTime::new(d, 24, 0, 0).is_none());
    assert!(DateTime::new(d, 0, 60, 0).is_none());
    assert!(DateTime::new(d, 0, 0, 60).is_none());
}

#[test]
fn date_formats_pad_components() {
    let d = Date::from_ymd(7, 3, 4).unwrap();
    assert_eq!(d.format_dmy(), "04-03-0007");
    assert_eq!(d.format_ymd(), "0007-03-04");
}

#[test]
fn date_formats_match_calendar_library() {
    let cases = [
        (1970u16, 1u8, 1u8),
        (2017, 12, 30),
        (2024, 2, 29),
        (980, 11, 3),
    ];
    for (y, m, d) in cases {
        let ours = Date::from_ymd(y, m, d).unwrap();
        let theirs = chrono::NaiveDate::from_ymd_opt(y as i32, m as u32, d as u32).unwrap();
        assert_eq!(ours.format_dmy(), theirs.format("%d-%m-%Y").to_string());
        assert_eq!(ours.format_ymd(), theirs.format("%Y-%m-%d").to_string());
    }
}

#[test]
fn epoch_seconds_match_calendar_library() {
    let cases = [
        (1970u16, 1u8, 1u8, 0u8, 0u8, 0u8),
        (2014, 2, 16, 19, 0, 32),
        (2015, 1, 30, 0, 20, 32),
        (1969, 12, 31, 23, 59, 59),
        (1600, 2, 29, 12, 0, 0),
        (9999, 12, 31, 23, 59, 59),
        (2000, 3, 1, 0, 0, 0),
    ];
    for (y, mo, d, h, mi, s) in cases {
        let date = Date::from_ymd(y, mo, d).unwrap();
        let ours = DateTime::new(date, h, mi, s).unwrap().unix_timestamp();
        let theirs = chrono::NaiveDate::from_ymd_opt(y as i32, mo as u32, d as u32)
            .unwrap()
            .and_hms_opt(h as u32, mi as u32, s as u32)
            .unwrap()
            .and_utc()
            .timestamp();
        assert_eq!(ours, theirs);
    }
}

#[test]
fn epoch_seconds_pure_in_any_call_order() {
    let date = Date::from_ymd(2014, 2, 16).unwrap();
    let a = DateTime::new(date, 19, 0, 32).unwrap();
    let b = DateTime::new(date, 19, 0, 32).unwrap();
    let first = a.unix_timestamp();
    let second = b.unix_timestamp();
    let third = a.unix_timestamp();
    assert_eq!(first, second);
    assert_eq!(first, third);
}

#[test]
fn roundtrip_datetime_conversion_from_calendar_library() {
    let theirs = chrono::NaiveDate::from_ymd_opt(2021, 10, 7)
        .unwrap()
        .and_hms_opt(8, 30, 15)
        .unwrap();
    let date = Date::from_ymd(
        theirs.year() as u16,
        theirs.month() as u8,
        theirs.day() as u8,
    )
    .unwrap();
    let ours = DateTime::new(
        date,
        theirs.hour() as u8,
        theirs.minute() as u8,
        theirs.second() as u8,
    )
    .unwrap();
    assert_eq!(ours.unix_timestamp(), theirs.and_utc().timestamp());
}
