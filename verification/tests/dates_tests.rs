use caldash::dates::{days_in_month, is_leap_year, next_month, prev_month, Date, DateTime};

#[test]
fn leap_years_match_the_civil_calendar() {
    assert!(is_leap_year(2000));
    assert!(!is_leap_year(1900));
    assert!(is_leap_year(2024));
    assert!(!is_leap_year(2023));
    assert!(is_leap_year(1996));
    assert!(!is_leap_year(2100));
}

#[test]
fn days_in_month_matches_the_civil_calendar() {
    let expected_2023 = [31, 28, 31, 30, 31, 30, 31, 31, 30, 31, 30, 31];
    for m in 1..=12u32 {
        assert_eq!(days_in_month(2023, m), expected_2023[(m - 1) as usize]);
    }
    assert_eq!(days_in_month(2000, 2), 29);
    assert_eq!(days_in_month(1900, 2), 28);
    assert_eq!(days_in_month(2024, 2), 29);
    assert_eq!(days_in_month(2023, 2), 28);
}

#[test]
fn date_construction_checks_validity() {
    assert!(Date::new(2024, 2, 29).is_some());
    assert!(Date::new(2023, 2, 29).is_none());
    assert!(Date::new(2024, 0, 1).is_none());
    assert!(Date::new(2024, 13, 1).is_none());
    assert!(Date::new(0, 1, 1).is_none());
    assert!(Date::new(9999, 12, 31).is_some());
}

#[test]
fn date_time_construction_checks_the_time_of_day() {
    let d = Date::new(2024, 3, 10).unwrap();
    assert!(DateTime::new(d, 23, 59, 59).is_some());
    assert!(DateTime::new(d, 24, 0, 0).is_none());
    assert!(DateTime::new(d, 0, 60, 0).is_none());
    assert!(DateTime::new(d, 0, 0, 60).is_none());
}

#[test]
fn weekday_from_sunday_matches_known_dates() {
    // 2024-03-01 was a Friday, 2024-09-01 a Sunday, 2000-01-01 a Saturday.
    let mk = |y, m, d| DateTime::at_midnight(Date::new(y, m, d).unwrap());
    assert_eq!(mk(2024, 3, 1).weekday_from_sunday(), 5);
    assert_eq!(mk(2024, 9, 1).weekday_from_sunday(), 0);
    assert_eq!(mk(2000, 1, 1).weekday_from_sunday(), 6);
    assert_eq!(mk(2024, 3, 10).weekday_from_sunday(), 0);
}

#[test]
fn next_month_clamps_the_day() {
    let jan31 = Date::new(2024, 1, 31).unwrap();
    let feb = next_month(jan31).unwrap();
    assert_eq!((feb.year, feb.month, feb.day), (2024, 2, 29));
    let jan31_2023 = Date::new(2023, 1, 31).unwrap();
    let feb_2023 = next_month(jan31_2023).unwrap();
    assert_eq!((feb_2023.year, feb_2023.month, feb_2023.day), (2023, 2, 28));
}

#[test]
fn month_navigation_round_trips_on_the_month() {
    // The round trip returns to the same year and month; the day may have
    // been clamped on the way (Jan 31 -> Feb 29 -> Jan 29).
    let start = Date::new(2024, 1, 31).unwrap();
    let there = next_month(start).unwrap();
    let back = prev_month(there).unwrap();
    assert_eq!((back.year, back.month), (start.year, start.month));
    assert_eq!(back.day, 29);

    let d = Date::new(2024, 12, 15).unwrap();
    let there = next_month(d).unwrap();
    assert_eq!((there.year, there.month, there.day), (2025, 1, 15));
    let back = prev_month(there).unwrap();
    assert_eq!((back.year, back.month, back.day), (2024, 12, 15));
}

#[test]
fn month_navigation_is_defined_at_the_range_ends() {
    assert!(next_month(Date::new(9999, 12, 5).unwrap()).is_none());
    assert!(prev_month(Date::new(1, 1, 5).unwrap()).is_none());
    assert!(next_month(Date::new(9999, 11, 30).unwrap()).is_some());
    assert!(prev_month(Date::new(1, 2, 1).unwrap()).is_some());
}
