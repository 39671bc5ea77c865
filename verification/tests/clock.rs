use rk_bar::modules::clock::{month_length, ClockTime};

fn at(y: i32, mo: u32, d: u32, h: u32, mi: u32, s: u32, ns: u32) -> ClockTime {
    ClockTime::new(y, mo, d, h, mi, s, ns).unwrap()
}

#[test]
fn label_writes_date_weekday_and_time() {
    assert_eq!(at(2021, 3, 5, 14, 7, 33, 0).label(), "2021-03-05 Fri 1407");
    assert_eq!(at(2000, 1, 1, 0, 0, 0, 0).label(), "2000-01-01 Sat 0000");
    assert_eq!(at(1970, 1, 1, 9, 5, 0, 0).label(), "1970-01-01 Thu 0905");
    assert_eq!(at(2024, 2, 29, 23, 59, 59, 999_999_999).label(), "2024-02-29 Thu 2359");
}

#[test]
fn label_pads_small_years_and_signs_others() {
    assert_eq!(at(33, 7, 4, 1, 2, 3, 0).label(), "0033-07-04 Mon 0102");
    assert_eq!(at(-5, 1, 1, 0, 0, 0, 0).label(), "-0005-01-01 Sun 0000");
    assert_eq!(at(12345, 12, 31, 10, 20, 0, 0).label(), "+12345-12-31 Mon 1020");
    assert_eq!(at(-262143, 1, 1, 0, 0, 0, 0).label(), "-262143-01-01 Thu 0000");
    assert_eq!(at(262142, 12, 31, 0, 0, 0, 0).label(), "+262142-12-31 Mon 0000");
}

#[test]
fn wait_runs_to_the_start_of_the_next_minute() {
    assert_eq!(at(2021, 3, 5, 14, 7, 17, 250_000_000).wait_until_next_minute(), Some((43, 0)));
    assert_eq!(at(2021, 3, 5, 14, 7, 0, 0).wait_until_next_minute(), Some((60, 0)));
    assert_eq!(at(2021, 3, 5, 14, 7, 59, 999_999_999).wait_until_next_minute(), Some((1, 0)));
    assert_eq!(at(2021, 12, 31, 23, 59, 30, 0).wait_until_next_minute(), Some((30, 0)));
    assert_eq!(at(2024, 2, 28, 23, 59, 10, 7).wait_until_next_minute(), Some((50, 0)));
    assert_eq!(at(2023, 2, 28, 23, 59, 0, 0).wait_until_next_minute(), Some((60, 0)));
    assert_eq!(at(-1, 12, 31, 23, 59, 59, 0).wait_until_next_minute(), Some((1, 0)));
}

#[test]
fn wait_within_a_leap_second() {
    assert_eq!(at(2016, 6, 30, 12, 30, 59, 1_500_000_000).wait_until_next_minute(), Some((1, 0)));
    assert_eq!(at(2016, 12, 31, 23, 59, 59, 1_500_000_000).wait_until_next_minute(), Some((0, 0)));
    assert_eq!(at(2015, 6, 30, 23, 59, 59, 1_000_000_000).wait_until_next_minute(), Some((0, 0)));
    assert_eq!(at(2015, 6, 30, 23, 58, 59, 1_999_999_999).wait_until_next_minute(), Some((1, 0)));
}

#[test]
fn new_accepts_only_valid_times() {
    assert!(ClockTime::new(2021, 2, 29, 0, 0, 0, 0).is_none());
    assert!(ClockTime::new(2020, 2, 29, 0, 0, 0, 0).is_some());
    assert!(ClockTime::new(1900, 2, 29, 0, 0, 0, 0).is_none());
    assert!(ClockTime::new(2000, 2, 29, 0, 0, 0, 0).is_some());
    assert!(ClockTime::new(2021, 13, 1, 0, 0, 0, 0).is_none());
    assert!(ClockTime::new(2021, 4, 31, 0, 0, 0, 0).is_none());
    assert!(ClockTime::new(2021, 4, 30, 24, 0, 0, 0).is_none());
    assert!(ClockTime::new(2021, 4, 30, 23, 60, 0, 0).is_none());
    assert!(ClockTime::new(2021, 4, 30, 23, 59, 60, 0).is_none());
    assert!(ClockTime::new(2021, 4, 30, 23, 59, 58, 1_000_000_000).is_none());
    assert!(ClockTime::new(2021, 4, 30, 23, 59, 59, 1_000_000_000).is_some());
    assert!(ClockTime::new(2021, 4, 30, 23, 59, 59, 2_000_000_000).is_none());
    assert!(ClockTime::new(262142, 12, 31, 0, 0, 0, 0).is_some());
    assert!(ClockTime::new(262143, 1, 1, 0, 0, 0, 0).is_none());
    assert!(ClockTime::new(-262143, 1, 1, 0, 0, 0, 0).is_some());
    assert!(ClockTime::new(-262144, 1, 1, 0, 0, 0, 0).is_none());
    let t = at(2021, 3, 5, 14, 7, 33, 12);
    assert_eq!(
        (t.year(), t.month(), t.day(), t.hour(), t.minute(), t.second(), t.nanosecond()),
        (2021, 3, 5, 14, 7, 33, 12)
    );
}

#[test]
fn month_lengths_follow_the_gregorian_calendar() {
    assert_eq!(month_length(2021, 1), 31);
    assert_eq!(month_length(2021, 2), 28);
    assert_eq!(month_length(2024, 2), 29);
    assert_eq!(month_length(-4, 2), 29);
    assert_eq!(month_length(-100, 2), 28);
    assert_eq!(month_length(-400, 2), 29);
    assert_eq!(month_length(2021, 11), 30);
}

#[test]
fn label_changes_only_with_the_minute() {
    assert_eq!(at(2021, 3, 5, 14, 7, 0, 0).label(), at(2021, 3, 5, 14, 7, 59, 999_999_999).label());
    assert_ne!(at(2021, 3, 5, 14, 7, 59, 0).label(), at(2021, 3, 5, 14, 8, 0, 0).label());
    let t = at(2021, 3, 5, 14, 7, 17, 0);
    assert_eq!(t.second() as u64 + t.wait_until_next_minute().unwrap().0, 60);
    assert!(!t.is_in_last_minute());
    assert!(at(262142, 12, 31, 23, 59, 0, 0).is_in_last_minute());
}
