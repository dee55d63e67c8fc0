//! Gregorian date utility: leap years, the month day-count table, weekday
//! offsets from Sunday, and calendar-safe month navigation.
//!
//! Dates are held as plain (year, month, day) fields, valid in years 1
//! through 9999 of the proleptic Gregorian calendar; date-times add a
//! time-of-day that day-level operations ignore.

use vstd::prelude::*;

verus! {

/// Largest year the engine works with; the parser reads four-digit years.
pub const MAX_YEAR: u32 = 9999;

/// The standard Gregorian leap-year rule: divisible by 4, except centuries
/// not divisible by 400.
pub open spec fn spec_is_leap_year(y: int) -> bool {
    (y % 4 == 0 && y % 100 != 0) || y % 400 == 0
}

/// Number of days in a month of the civil calendar: the 28/29/30/31 table.
pub open spec fn spec_days_in_month(y: int, m: int) -> int {
    if m == 2 {
        if spec_is_leap_year(y) {
            29
        } else {
            28
        }
    } else if m == 4 || m == 6 || m == 9 || m == 11 {
        30
    } else {
        31
    }
}

pub open spec fn valid_ym(y: int, m: int) -> bool {
    1 <= y <= MAX_YEAR && 1 <= m <= 12
}

pub open spec fn valid_ymd(y: int, m: int, d: int) -> bool {
    valid_ym(y, m) && 1 <= d <= spec_days_in_month(y, m)
}

pub fn is_leap_year(year: u32) -> (r: bool)
    ensures
        r == spec_is_leap_year(year as int),
{
    (year % 4 == 0 && year % 100 != 0) || year % 400 == 0
}

/// Day count of a month of the civil calendar, leap-year aware.
pub fn days_in_month(year: u32, month: u32) -> (r: u32)
    requires
        valid_ym(year as int, month as int),
    ensures
        r == spec_days_in_month(year as int, month as int),
        28 <= r <= 31,
{
    match month {
        2 => if is_leap_year(year) {
            29
        } else {
            28
        },
        4 | 6 | 9 | 11 => 30,
        _ => 31,
    }
}

/// Days in months 1 through m-1 of year y: the offset of month m's first
/// day within its year.
pub open spec fn spec_days_before_month(y: int, m: int) -> int
    decreases m,
{
    if m <= 1 {
        0
    } else {
        spec_days_before_month(y, m - 1) + spec_days_in_month(y, m - 1)
    }
}

/// Days in all years before year y, counted from 0001-01-01: 365 per year
/// plus one per leap year, by the closed form of the Gregorian rule.
pub open spec fn spec_days_before_year(y: int) -> int {
    365 * (y - 1) + (y - 1) / 4 - (y - 1) / 100 + (y - 1) / 400
}

/// Position of a date in the proleptic Gregorian calendar: 0001-01-01 is
/// day 0, and each next calendar day is one higher.
pub open spec fn spec_day_number(y: int, m: int, d: int) -> int {
    spec_days_before_year(y) + spec_days_before_month(y, m) + (d - 1)
}

/// Weekday of a date, counted from Sunday (0 = Sunday ... 6 = Saturday).
/// 0001-01-01 of the proleptic Gregorian calendar is a Monday, so day
/// number 0 has weekday 1.
pub open spec fn spec_weekday_from_sunday(y: int, m: int, d: int) -> int {
    (spec_day_number(y, m, d) + 1) % 7
}

/// A calendar date, always a valid proleptic-Gregorian date.
#[derive(Clone, Copy, Debug, PartialEq, Eq, Structural)]
pub struct Date {
    pub year: u32,
    pub month: u32,
    pub day: u32,
}

impl Date {
    pub open spec fn valid(self) -> bool {
        valid_ymd(self.year as int, self.month as int, self.day as int)
    }

    pub fn new(year: u32, month: u32, day: u32) -> (r: Option<Date>)
        ensures
            r is Some <==> valid_ymd(year as int, month as int, day as int),
            r is Some ==> r->0 == (Date { year, month, day }) && r->0.valid(),
    {
        if 1 <= year && year <= MAX_YEAR && 1 <= month && month <= 12 && 1 <= day && day
            <= days_in_month(year, month) {
            Some(Date { year, month, day })
        } else {
            None
        }
    }
    /// Weekday of this date, counted from Sunday (0 = Sunday ... 6 =
    /// Saturday).
    pub fn weekday_from_sunday(&self) -> (r: u32)
        requires
            self.valid(),
        ensures
            r == spec_weekday_from_sunday(self.year as int, self.month as int, self.day as int),
            r < 7,
    {
        let n = self.year - 1;
        assert(n / 100 <= n && n / 4 <= n && n / 400 <= n) by (nonlinear_arith);
        let before_year: u32 = 365 * n + n / 4 - n / 100 + n / 400;
        let before_month: u32 = days_before_month(self.year, self.month);
        let day_number: u32 = before_year + before_month + (self.day - 1);
        (day_number + 1) % 7
    }
}

/// Days in the months of year `year` that precede month `month`.
pub fn days_before_month(year: u32, month: u32) -> (r: u32)
    requires
        valid_ym(year as int, month as int),
    ensures
        r == spec_days_before_month(year as int, month as int),
        r <= 341,
{
    let mut acc: u32 = 0;
    let mut m: u32 = 1;
    while m < month
        invariant
            1 <= m <= month <= 12,
            valid_ym(year as int, month as int),
            acc == spec_days_before_month(year as int, m as int),
            acc <= 31 * (m - 1),
        decreases month - m,
    {
        acc = acc + days_in_month(year, m);
        m = m + 1;
    }
    acc
}

/// One calendar month after `d`: month 12 rolls the year over, and the day
/// of month is clamped to the target month's day count (Jan 31 to Feb 28).
/// `None` exactly at the end of the supported range, 9999-12.
pub open spec fn spec_next_month(d: Date) -> Option<Date> {
    if d.year == MAX_YEAR && d.month == 12 {
        None
    } else {
        let y: u32 = if d.month == 12 {
            (d.year + 1) as u32
        } else {
            d.year
        };
        let m: u32 = if d.month == 12 {
            1u32
        } else {
            (d.month + 1) as u32
        };
        Some(Date { year: y, month: m, day: clamp_day(d.day, y, m) })
    }
}

/// One calendar month before `d`, with the same clamping policy. `None`
/// exactly at the start of the supported range, 0001-01.
pub open spec fn spec_prev_month(d: Date) -> Option<Date> {
    if d.year == 1 && d.month == 1 {
        None
    } else {
        let y: u32 = if d.month == 1 {
            (d.year - 1) as u32
        } else {
            d.year
        };
        let m: u32 = if d.month == 1 {
            12u32
        } else {
            (d.month - 1) as u32
        };
        Some(Date { year: y, month: m, day: clamp_day(d.day, y, m) })
    }
}

pub open spec fn clamp_day(day: u32, y: u32, m: u32) -> u32 {
    if day as int <= spec_days_in_month(y as int, m as int) {
        day
    } else {
        spec_days_in_month(y as int, m as int) as u32
    }
}

/// Calendar-safe month advance; see `spec_next_month` for the policy.
pub fn next_month(d: Date) -> (r: Option<Date>)
    requires
        d.valid(),
    ensures
        r == spec_next_month(d),
        r is Some <==> !(d.year == MAX_YEAR && d.month == 12),
        r is Some ==> r->0.valid(),
{
    if d.year == MAX_YEAR && d.month == 12 {
        None
    } else {
        let y: u32 = if d.month == 12 {
            d.year + 1
        } else {
            d.year
        };
        let m: u32 = if d.month == 12 {
            1
        } else {
            d.month + 1
        };
        let dim = days_in_month(y, m);
        let day = if d.day <= dim {
            d.day
        } else {
            dim
        };
        Some(Date { year: y, month: m, day })
    }
}

/// Calendar-safe month retreat; see `spec_prev_month` for the policy.
pub fn prev_month(d: Date) -> (r: Option<Date>)
    requires
        d.valid(),
    ensures
        r == spec_prev_month(d),
        r is Some <==> !(d.year == 1 && d.month == 1),
        r is Some ==> r->0.valid(),
{
    if d.year == 1 && d.month == 1 {
        None
    } else {
        let y: u32 = if d.month == 1 {
            d.year - 1
        } else {
            d.year
        };
        let m: u32 = if d.month == 1 {
            12
        } else {
            d.month - 1
        };
        let dim = days_in_month(y, m);
        let day = if d.day <= dim {
            d.day
        } else {
            dim
        };
        Some(Date { year: y, month: m, day })
    }
}

/// Advancing a month and then retreating one returns to the starting year
/// and month from any date. The day can differ when clamping occurred:
/// Jan 31 goes to Feb 28 and back to Jan 28, so the round trip holds on the
/// month, not on the day.
pub proof fn lemma_next_then_prev_month(d: Date)
    requires
        d.valid(),
        spec_next_month(d) is Some,
    ensures
        spec_prev_month(spec_next_month(d)->0) is Some,
        spec_prev_month(spec_next_month(d)->0)->0.year == d.year,
        spec_prev_month(spec_next_month(d)->0)->0.month == d.month,
{
}

/// Retreating a month and then advancing one likewise returns to the
/// starting year and month.
pub proof fn lemma_prev_then_next_month(d: Date)
    requires
        d.valid(),
        spec_prev_month(d) is Some,
    ensures
        spec_next_month(spec_prev_month(d)->0) is Some,
        spec_next_month(spec_prev_month(d)->0)->0.year == d.year,
        spec_next_month(spec_prev_month(d)->0)->0.month == d.month,
{
}

/// A calendar date with a time of day; day-level operations ignore the time.
#[derive(Clone, Copy, Debug, PartialEq, Eq, Structural)]
pub struct DateTime {
    pub date: Date,
    pub hour: u32,
    pub minute: u32,
    pub second: u32,
}

impl DateTime {
    pub open spec fn valid(self) -> bool {
        &&& self.date.valid()
        &&& self.hour < 24
        &&& self.minute < 60
        &&& self.second < 60
    }

    pub fn new(date: Date, hour: u32, minute: u32, second: u32) -> (r: Option<DateTime>)
        requires
            date.valid(),
        ensures
            r is Some <==> hour < 24 && minute < 60 && second < 60,
            r is Some ==> r->0 == (DateTime { date, hour, minute, second }) && r->0.valid(),
    {
        if hour < 24 && minute < 60 && second < 60 {
            Some(DateTime { date, hour, minute, second })
        } else {
            None
        }
    }

    /// Weekday of this date-time's calendar date, counted from Sunday.
    pub fn weekday_from_sunday(&self) -> (r: u32)
        requires
            self.valid(),
        ensures
            r == spec_weekday_from_sunday(
                self.date.year as int,
                self.date.month as int,
                self.date.day as int,
            ),
            r < 7,
    {
        self.date.weekday_from_sunday()
    }

    /// Midnight of the given date.
    pub fn at_midnight(date: Date) -> (r: DateTime)
        requires
            date.valid(),
        ensures
            r.valid(),
            r.date == date,
            r.hour == 0 && r.minute == 0 && r.second == 0,
    {
        DateTime { date, hour: 0, minute: 0, second: 0 }
    }
}

} // verus!
