//! The calendar: which date a day has.

use vstd::prelude::*;

verus! {

/// A date of the Gregorian calendar, which is used for all years, before its
/// introduction too. The year before 1 is 0.
pub struct Date {
    pub year: int,
    pub month: int,
    pub day: int,
}

/// Whether a year has a day more than the others.
pub open spec fn is_leap(year: int) -> bool {
    year % 4 == 0 && (year % 100 != 0 || year % 400 == 0)
}

/// The number of days in a month.
pub open spec fn month_days(year: int, month: int) -> int {
    if month == 2 {
        if is_leap(year) {
            29
        } else {
            28
        }
    } else if month == 4 || month == 6 || month == 9 || month == 11 {
        30
    } else {
        31
    }
}

/// The number of days in a year before a month.
pub open spec fn days_before_month(year: int, month: int) -> int
    decreases month,
{
    if month <= 1 {
        0
    } else {
        days_before_month(year, month - 1) + month_days(year, month - 1)
    }
}

/// The number of leap years before a year, counted from the year 1 on. Before
/// that year it is negative.
pub open spec fn leap_years_before(year: int) -> int {
    (year - 1) / 4 - (year - 1) / 100 + (year - 1) / 400
}

/// The number of days from 1970-01-01 to the first day of a year.
pub open spec fn days_before_year(year: int) -> int {
    365 * (year - 1970) + leap_years_before(year) - leap_years_before(1970)
}

impl Date {
    /// Whether the calendar has the date.
    pub open spec fn valid(self) -> bool {
        1 <= self.month <= 12 && 1 <= self.day <= month_days(self.year, self.month)
    }

    /// The number of days from 1970-01-01 to the date.
    pub open spec fn days(self) -> int {
        days_before_year(self.year) + days_before_month(self.year, self.month) + self.day - 1
    }
}

/// The date of a day that is given by its distance from 1970-01-01.
pub open spec fn date_of(days: int) -> Date {
    choose|date: Date| date.valid() && #[trigger] date.days() == days
}

proof fn year_length(year: int)
    ensures
        days_before_month(year, 13) == if is_leap(year) {
            366int
        } else {
            365int
        },
        days_before_year(year + 1) == days_before_year(year) + days_before_month(year, 13),
{
    reveal_with_fuel(days_before_month, 13);
}

/// Every day has a date.
pub proof fn every_day_has_a_date(days: int)
    ensures
        date_of(days).valid(),
        date_of(days).days() == days,
    decreases
            if days < 0 {
                -days
            } else {
                days
            },
{
    let date = if days == 0 {
        Date { year: 1970, month: 1, day: 1 }
    } else if days > 0 {
        every_day_has_a_date(days - 1);
        let before = date_of(days - 1);
        year_length(before.year);
        if before.day < month_days(before.year, before.month) {
            Date { day: before.day + 1, ..before }
        } else if before.month < 12 {
            Date { month: before.month + 1, day: 1, ..before }
        } else {
            Date { year: before.year + 1, month: 1, day: 1 }
        }
    } else {
        every_day_has_a_date(days + 1);
        let after = date_of(days + 1);
        year_length(after.year - 1);
        if after.day > 1 {
            Date { day: after.day - 1, ..after }
        } else if after.month > 1 {
            Date {
                month: after.month - 1,
                day: month_days(after.year, after.month - 1),
                ..after
            }
        } else {
            Date { year: after.year - 1, month: 12, day: 31 }
        }
    };
    assert(date.valid() && date.days() == days);
}

proof fn years_follow(a: int, b: int)
    requires
        a <= b,
    ensures
        days_before_year(a) <= days_before_year(b),
    decreases b - a,
{
    if a < b {
        years_follow(a, b - 1);
        year_length(b - 1);
    }
}

proof fn months_follow(year: int, a: int, b: int)
    requires
        1 <= a <= b,
    ensures
        days_before_month(year, a) <= days_before_month(year, b),
    decreases b - a,
{
    if a < b {
        months_follow(year, a, b - 1);
    }
}

/// A date lies within its year.
pub proof fn date_in_year(date: Date)
    requires
        date.valid(),
    ensures
        days_before_year(date.year) <= date.days() < days_before_year(date.year + 1),
{
    year_length(date.year);
    months_follow(date.year, 1, date.month);
    months_follow(date.year, date.month + 1, 13);
}

/// Dates are in the order of their days.
pub proof fn dates_follow(a: Date, b: Date)
    requires
        a.valid(),
        b.valid(),
    ensures
        a.days() < b.days() <==> {
            ||| a.year < b.year
            ||| a.year == b.year && a.month < b.month
            ||| a.year == b.year && a.month == b.month && a.day < b.day
        },
{
    date_in_year(a);
    date_in_year(b);
    if a.year < b.year {
        years_follow(a.year + 1, b.year);
    } else if b.year < a.year {
        years_follow(b.year + 1, a.year);
    } else if a.month < b.month {
        months_follow(a.year, a.month + 1, b.month);
    } else if b.month < a.month {
        months_follow(a.year, b.month + 1, a.month);
    }
}

/// No day has two dates: a date is the date of the day that it stands for.
pub proof fn every_date_is_of_one_day(date: Date)
    requires
        date.valid(),
    ensures
        date_of(date.days()) == date,
{
    let other = date_of(date.days());
    every_day_has_a_date(date.days());
    dates_follow(date, other);
    dates_follow(other, date);
}

} // verus!
