use greenbois::dates::{is_holiday, is_leap_year, next_day, prev_day, should_skip_date, Date};

fn d(year: i32, month: u8, day: u8) -> Date {
    Date { year, month, day }
}

#[test]
fn all_fixed_holidays_are_holidays() {
    let table = [
        (1u8, 1u8),
        (5, 27),
        (7, 4),
        (7, 5),
        (9, 2),
        (11, 11),
        (11, 28),
        (11, 29),
        (12, 24),
        (12, 25),
        (12, 31),
    ];
    for (month, day) in table {
        assert!(is_holiday(d(2020, month, day)));
        assert!(is_holiday(d(1999, month, day)));
    }
}

#[test]
fn ordinary_days_are_not_holidays() {
    assert!(!is_holiday(d(2020, 1, 2)));
    assert!(!is_holiday(d(2020, 3, 17)));
    assert!(!is_holiday(d(2020, 11, 27)));
    assert!(!is_holiday(d(2020, 11, 30)));
    assert!(!is_holiday(d(2020, 12, 26)));
    assert!(!is_holiday(d(2020, 7, 3)));
}

#[test]
fn weekends_are_skipped() {
    let day = d(2020, 3, 17);
    assert!(should_skip_date(day, 0)); // Sunday
    assert!(should_skip_date(day, 6)); // Saturday
    assert!(!should_skip_date(day, 1));
    assert!(!should_skip_date(day, 2));
    assert!(!should_skip_date(day, 3));
    assert!(!should_skip_date(day, 4));
    assert!(!should_skip_date(day, 5));
}

#[test]
fn holidays_are_skipped_on_any_weekday() {
    for wd in 0..7u8 {
        assert!(should_skip_date(d(2021, 12, 25), wd));
    }
}

#[test]
fn leap_year_rule() {
    assert!(is_leap_year(2024));
    assert!(is_leap_year(2000));
    assert!(!is_leap_year(1900));
    assert!(!is_leap_year(2023));
    assert!(is_leap_year(-4));
    assert!(!is_leap_year(-100));
}

#[test]
fn stepping_forward_through_month_and_year_ends() {
    assert_eq!(next_day(d(2024, 2, 28)), d(2024, 2, 29));
    assert_eq!(next_day(d(2024, 2, 29)), d(2024, 3, 1));
    assert_eq!(next_day(d(2023, 2, 28)), d(2023, 3, 1));
    assert_eq!(next_day(d(2020, 12, 31)), d(2021, 1, 1));
    assert_eq!(next_day(d(2020, 6, 30)), d(2020, 7, 1));
    assert_eq!(next_day(d(2020, 6, 15)), d(2020, 6, 16));
}

#[test]
fn stepping_backward_through_month_and_year_starts() {
    assert_eq!(prev_day(d(2024, 3, 1)), d(2024, 2, 29));
    assert_eq!(prev_day(d(2023, 3, 1)), d(2023, 2, 28));
    assert_eq!(prev_day(d(2021, 1, 1)), d(2020, 12, 31));
    assert_eq!(prev_day(d(2020, 7, 1)), d(2020, 6, 30));
    assert_eq!(prev_day(d(2020, 6, 16)), d(2020, 6, 15));
}

#[test]
fn stepping_back_and_forth_round_trips() {
    let days = [
        d(2024, 2, 29),
        d(2024, 3, 1),
        d(2021, 1, 1),
        d(1999, 12, 31),
        d(2020, 7, 15),
    ];
    for day in days {
        assert_eq!(next_day(prev_day(day)), day);
        assert_eq!(prev_day(next_day(day)), day);
    }
}
