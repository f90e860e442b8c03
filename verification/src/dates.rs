use vstd::prelude::*;

verus! {

/// A calendar date in the proleptic Gregorian calendar, held as plain values
/// so that the scheduling rules can be verified directly.
#[derive(Debug, Clone, Copy, PartialEq, Eq, Structural)]
pub struct Date {
    pub year: i32,
    pub month: u8,
    pub day: u8,
}

/// Weekday number of Saturday, counting from Sunday = 0.
pub const SATURDAY: u8 = 6;

/// Weekday number of Sunday, counting from Sunday = 0.
pub const SUNDAY: u8 = 0;

/// Gregorian leap-year rule.
pub open spec fn spec_is_leap_year(year: int) -> bool {
    (year % 4 == 0 && year % 100 != 0) || year % 400 == 0
}

/// Number of days in the given month of the given year.
pub open spec fn spec_days_in_month(year: int, month: int) -> int {
    if month == 2 {
        if spec_is_leap_year(year) {
            29
        } else {
            28
        }
    } else if month == 4 || month == 6 || month == 9 || month == 11 {
        30
    } else {
        31
    }
}

/// Bound on the years the scheduler works over; it keeps all the date and
/// timestamp arithmetic far away from any machine limit.
pub const YEAR_BOUND: i32 = 1_000_000_000;

/// A well-formed calendar date within the supported year span.
pub open spec fn valid_date(d: Date) -> bool {
    &&& -YEAR_BOUND <= d.year <= YEAR_BOUND
    &&& 1 <= d.month <= 12
    &&& 1 <= d.day <= spec_days_in_month(d.year as int, d.month as int)
}

/// The calendar day immediately after `d`.
pub open spec fn spec_next_day(d: Date) -> Date {
    if (d.day as int) < spec_days_in_month(d.year as int, d.month as int) {
        Date { year: d.year, month: d.month, day: (d.day + 1) as u8 }
    } else if d.month < 12 {
        Date { year: d.year, month: (d.month + 1) as u8, day: 1 }
    } else {
        Date { year: (d.year + 1) as i32, month: 1, day: 1 }
    }
}

/// The calendar day immediately before `d`.
pub open spec fn spec_prev_day(d: Date) -> Date {
    if d.day > 1 {
        Date { year: d.year, month: d.month, day: (d.day - 1) as u8 }
    } else if d.month > 1 {
        Date {
            year: d.year,
            month: (d.month - 1) as u8,
            day: spec_days_in_month(d.year as int, d.month as int - 1) as u8,
        }
    } else {
        Date { year: (d.year - 1) as i32, month: 12, day: 31 }
    }
}

/// The fixed holiday table: eleven month/day pairs (New Year's Day, Memorial
/// Day, Independence Day and the day after, Labor Day, Veterans Day,
/// Thanksgiving and the day after, Christmas Eve, Christmas Day, New Year's
/// Eve). The table compares month and day only, so it recurs every year; it
/// deliberately does not track floating holidays.
pub open spec fn spec_is_holiday(d: Date) -> bool {
    ||| (d.month == 1 && d.day == 1)
    ||| (d.month == 5 && d.day == 27)
    ||| (d.month == 7 && d.day == 4)
    ||| (d.month == 7 && d.day == 5)
    ||| (d.month == 9 && d.day == 2)
    ||| (d.month == 11 && d.day == 11)
    ||| (d.month == 11 && d.day == 28)
    ||| (d.month == 11 && d.day == 29)
    ||| (d.month == 12 && d.day == 24)
    ||| (d.month == 12 && d.day == 25)
    ||| (d.month == 12 && d.day == 31)
}

/// A date is skipped when its weekday (counted from Sunday = 0) is Saturday
/// or Sunday, or when it falls on one of the fixed holidays.
pub open spec fn spec_should_skip(d: Date, weekday: u8) -> bool {
    weekday == SATURDAY || weekday == SUNDAY || spec_is_holiday(d)
}

/// Whether the given date falls on one of the fixed holidays.
pub fn is_holiday(date: Date) -> (r: bool)
    ensures
        r == spec_is_holiday(date),
{
    (date.month == 1 && date.day == 1) || (date.month == 5 && date.day == 27) || (date.month == 7
        && date.day == 4) || (date.month == 7 && date.day == 5) || (date.month == 9 && date.day
        == 2) || (date.month == 11 && date.day == 11) || (date.month == 11 && date.day == 28) || (
    date.month == 11 && date.day == 29) || (date.month == 12 && date.day == 24) || (date.month == 12
        && date.day == 25) || (date.month == 12 && date.day == 31)
}

/// Whether no synthetic commits should be generated on the given date.
/// The weekday counts from Sunday = 0.
pub fn should_skip_date(date: Date, weekday: u8) -> (r: bool)
    ensures
        r == spec_should_skip(date, weekday),
{
    if weekday == SATURDAY || weekday == SUNDAY {
        return true;
    }
    is_holiday(date)
}

/// Gregorian leap-year test.
pub fn is_leap_year(year: i32) -> (r: bool)
    ensures
        r == spec_is_leap_year(year as int),
{
    let div4: bool = year % 4 == 0;
    let div100: bool = year % 100 == 0;
    let div400: bool = year % 400 == 0;
    proof {
        assert(div4 == ((year as int) % 4 == 0));
        assert(div100 == ((year as int) % 100 == 0));
        assert(div400 == ((year as int) % 400 == 0));
    }
    (div4 && !div100) || div400
}

/// Number of days in the given month.
pub fn days_in_month(year: i32, month: u8) -> (r: u8)
    requires
        1 <= month <= 12,
    ensures
        r as int == spec_days_in_month(year as int, month as int),
{
    if month == 2 {
        if is_leap_year(year) {
            29
        } else {
            28
        }
    } else if month == 4 || month == 6 || month == 9 || month == 11 {
        30
    } else {
        31
    }
}

/// Steps one day forward through the calendar.
pub fn next_day(d: Date) -> (r: Date)
    requires
        valid_date(d),
        d.year < YEAR_BOUND,
    ensures
        r == spec_next_day(d),
        valid_date(r),
{
    let dim = days_in_month(d.year, d.month);
    if d.day < dim {
        Date { year: d.year, month: d.month, day: d.day + 1 }
    } else if d.month < 12 {
        Date { year: d.year, month: d.month + 1, day: 1 }
    } else {
        Date { year: d.year + 1, month: 1, day: 1 }
    }
}

/// Steps one day backward through the calendar.
pub fn prev_day(d: Date) -> (r: Date)
    requires
        valid_date(d),
        d.year > -YEAR_BOUND,
    ensures
        r == spec_prev_day(d),
        valid_date(r),
{
    if d.day > 1 {
        Date { year: d.year, month: d.month, day: d.day - 1 }
    } else if d.month > 1 {
        Date { year: d.year, month: d.month - 1, day: days_in_month(d.year, d.month - 1) }
    } else {
        Date { year: d.year - 1, month: 12, day: 31 }
    }
}

/// The date `n` calendar days after `d`.
pub open spec fn date_plus_days(d: Date, n: nat) -> Date
    decreases n,
{
    if n == 0 {
        d
    } else {
        spec_next_day(date_plus_days(d, (n - 1) as nat))
    }
}

/// The date `n` calendar days before `d`.
pub open spec fn date_minus_days(d: Date, n: nat) -> Date
    decreases n,
{
    if n == 0 {
        d
    } else {
        spec_prev_day(date_minus_days(d, (n - 1) as nat))
    }
}

/// The weekday after `w`, counting from Sunday = 0.
pub open spec fn wd_next(w: u8) -> u8 {
    if w == 6 {
        0
    } else {
        (w + 1) as u8
    }
}

/// The weekday before `w`, counting from Sunday = 0.
pub open spec fn wd_prev(w: u8) -> u8 {
    if w == 0 {
        6
    } else {
        (w - 1) as u8
    }
}

/// The weekday `n` days after `w`.
pub open spec fn wd_plus_days(w: u8, n: nat) -> u8
    decreases n,
{
    if n == 0 {
        w
    } else {
        wd_next(wd_plus_days(w, (n - 1) as nat))
    }
}

/// The weekday `n` days before `w`.
pub open spec fn wd_minus_days(w: u8, n: nat) -> u8
    decreases n,
{
    if n == 0 {
        w
    } else {
        wd_prev(wd_minus_days(w, (n - 1) as nat))
    }
}

/// Stepping forward undoes stepping backward.
pub proof fn lemma_prev_then_next(d: Date)
    requires
        valid_date(d),
        d.year > -YEAR_BOUND,
    ensures
        spec_next_day(spec_prev_day(d)) == d,
{
}

} // verus!
