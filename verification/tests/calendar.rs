use perfwindow::calendar::{chrono_like_utc, days_to_ymd};

#[test]
fn epoch_is_the_first_of_january_1970() {
    assert_eq!(days_to_ymd(0), (1970, 1, 1));
    assert_eq!(days_to_ymd(31), (1970, 2, 1));
    assert_eq!(days_to_ymd(365), (1971, 1, 1));
}

#[test]
fn leap_days_are_counted() {
    // 2000 is a leap year (divisible by 400), 2100 is not.
    assert_eq!(days_to_ymd(11_016), (2000, 2, 29));
    assert_eq!(days_to_ymd(11_017), (2000, 3, 1));
    assert_eq!(days_to_ymd(47_540), (2100, 2, 28));
    assert_eq!(days_to_ymd(47_541), (2100, 3, 1));
}

#[test]
fn utc_timestamps_are_iso_8601() {
    assert_eq!(chrono_like_utc(0), "1970-01-01T00:00:00Z");
    assert_eq!(chrono_like_utc(1_700_000_000), "2023-11-14T22:13:20Z");
    assert_eq!(chrono_like_utc(951_782_400 + 3_661), "2000-02-29T01:01:01Z");
}

#[test]
fn consecutive_day_numbers_are_consecutive_dates() {
    assert_eq!(days_to_ymd(19_722), (2023, 12, 31));
    assert_eq!(days_to_ymd(19_723), (2024, 1, 1));
    assert_eq!(days_to_ymd(19_753), (2024, 1, 31));
    assert_eq!(days_to_ymd(19_754), (2024, 2, 1));
}
