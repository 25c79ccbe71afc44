//! Points in time as plain values, and how they are written.

use crate::calendar;
use crate::calendar::Date;
use crate::text;
use vstd::prelude::*;

verus! {

/// The earliest second, counted from 1970-01-01, that has a calendar date.
pub const MIN_SECS: i64 = -8334601228800;

/// The latest second, counted from 1970-01-01, that has a calendar date.
pub const MAX_SECS: i64 = 8210266876799;

/// The number of nanoseconds in a second.
pub const NANOS_PER_SEC: u32 = 1_000_000_000;

/// The first second, counted from 1970-01-01, of the year 10000.
pub const YEAR_10000: i64 = 253_402_300_800;

/// A calendar time in UTC, by the seconds since 1970-01-01 and the nanoseconds
/// within the second.
#[derive(Copy, Clone, PartialEq, Eq, Structural, Debug)]
pub struct UtcTime {
    pub secs: i64,
    pub nanos: u32,
}

/// A time of the system clock, by the seconds since 1970-01-01 and the
/// nanoseconds within the second.
#[derive(Copy, Clone, PartialEq, Eq, Structural, Debug)]
pub struct ClockTime {
    pub secs: i64,
    pub nanos: u32,
}

/// The pattern of the time of day on the console.
pub const CLOCK_PATTERN: &'static str = "%H:%M::%S";

/// The pattern of the time in the name of a log file.
pub const STAMP_PATTERN: &'static str = "%d_%m_%Y_%H_%M";

/// The number of seconds in a day.
pub const SECS_PER_DAY: u32 = 86400;

/// The date of a time that is given by the seconds since 1970-01-01.
pub open spec fn date(secs: int) -> Date {
    calendar::date_of(secs / (SECS_PER_DAY as int))
}

/// The hour of the day, in two digits.
pub open spec fn hour(secs: int) -> Seq<char> {
    text::two_digits((secs % (SECS_PER_DAY as int) / 3600) as nat)
}

/// The minute of the hour, in two digits.
pub open spec fn minute(secs: int) -> Seq<char> {
    text::two_digits((secs % (SECS_PER_DAY as int) / 60 % 60) as nat)
}

/// The second of the minute, in two digits.
pub open spec fn second(secs: int) -> Seq<char> {
    text::two_digits((secs % (SECS_PER_DAY as int) % 60) as nat)
}

/// The millisecond of the second, in three digits.
pub open spec fn millisecond(nanos: u32) -> Seq<char> {
    text::three_digits((nanos / 1_000_000) as nat)
}

/// A number in at least four digits.
pub open spec fn at_least_four_digits(n: nat) -> Seq<char> {
    if n < 10000 {
        text::four_digits(n)
    } else {
        text::decimal(n)
    }
}

/// A year in at least four digits, with its sign when it lies outside of 0 to
/// 9999.
pub open spec fn year_number(year: int) -> Seq<char> {
    if year < 0 {
        "-"@ + at_least_four_digits((-year) as nat)
    } else if year < 10000 {
        text::four_digits(year as nat)
    } else {
        "+"@ + at_least_four_digits(year as nat)
    }
}

impl UtcTime {
    /// Whether the time has a calendar date.
    pub open spec fn valid(self) -> bool {
        MIN_SECS <= self.secs <= MAX_SECS && self.nanos < NANOS_PER_SEC
    }

    /// Whether the time has a calendar date.
    pub fn is_valid(self) -> (valid: bool)
        ensures
            valid == self.valid(),
    {
        MIN_SECS <= self.secs && self.secs <= MAX_SECS && self.nanos < NANOS_PER_SEC
    }

    /// The hour, minute and second of the day.
    pub open spec fn time_of_day(self) -> Seq<char> {
        hour(self.secs as int) + ":"@ + minute(self.secs as int) + "::"@ + second(self.secs as int)
    }

    /// The time of day to the millisecond, as it is shown on the console.
    pub open spec fn clock(self) -> Seq<char> {
        self.time_of_day() + "."@ + millisecond(self.nanos)
    }

    /// The date and time to the minute, as it stands in the name of a log file.
    pub open spec fn stamp(self) -> Seq<char> {
        let date = date(self.secs as int);
        text::two_digits(date.day as nat) + "_"@ + text::two_digits(date.month as nat) + "_"@
            + year_number(date.year) + "_"@ + hour(self.secs as int) + "_"@ + minute(
            self.secs as int,
        )
    }

    /// Calls `chrono::DateTime::format` on the time in UTC that
    /// `chrono::DateTime::from_timestamp` gives.
    ///
    /// Trusted: each place of the pattern is filled with a part of the date or
    /// the time of day. The pattern of the console has places for the hour, the
    /// minute and the second; the one of the log file for the day, the month,
    /// the year, the hour and the minute. All are written in two digits, and the
    /// year in four, with its sign when it lies outside of 0 to 9999.
    #[verifier::external_body]
    fn format(self, pattern: &str) -> (shown: String)
        requires
            self.valid(),
            pattern@ == CLOCK_PATTERN@ || pattern@ == STAMP_PATTERN@,
        ensures
            pattern@ == CLOCK_PATTERN@ ==> shown@ == self.time_of_day(),
            pattern@ == STAMP_PATTERN@ ==> shown@ == self.stamp(),
    {
        chrono::DateTime::from_timestamp(self.secs, self.nanos).unwrap().format(pattern).to_string()
    }

    /// The time of day to the millisecond, as it is shown on the console.
    pub fn clock_text(self) -> (shown: String)
        requires
            self.valid(),
        ensures
            shown@ == self.clock(),
    {
        let mut shown = self.format(CLOCK_PATTERN);
        shown.append(".");
        shown.append(text::three_digits_text((self.nanos / 1_000_000) as u64).as_str());
        shown
    }

    /// The date and time to the minute, as it stands in the name of a log file.
    pub fn stamp_text(self) -> (shown: String)
        requires
            self.valid(),
        ensures
            shown@ == self.stamp(),
    {
        self.format(STAMP_PATTERN)
    }
}

impl ClockTime {
    /// Whether the time can be written as a timestamp: it does not lie before
    /// 1970, and lies before the year 10000.
    pub open spec fn valid(self) -> bool {
        0 <= self.secs < YEAR_10000 && self.nanos < NANOS_PER_SEC
    }

    /// Whether the time can be written as a timestamp.
    pub fn is_valid(self) -> (valid: bool)
        ensures
            valid == self.valid(),
    {
        0 <= self.secs && self.secs < YEAR_10000 && self.nanos < NANOS_PER_SEC
    }

    /// The time as an RFC 3339 timestamp in UTC with milliseconds.
    pub open spec fn timestamp(self) -> Seq<char> {
        let date = date(self.secs as int);
        text::four_digits(date.year as nat) + "-"@ + text::two_digits(date.month as nat) + "-"@
            + text::two_digits(date.day as nat) + "T"@ + hour(self.secs as int) + ":"@ + minute(
            self.secs as int,
        ) + ":"@ + second(self.secs as int) + "."@ + millisecond(self.nanos) + "Z"@
    }

    /// Calls `humantime::format_rfc3339_millis` on the system time that lies
    /// this long after 1970-01-01.
    ///
    /// Trusted: the text is the date and the time of day in UTC, in the notation
    /// of RFC 3339, with the milliseconds rounded down.
    #[verifier::external_body]
    pub(crate) fn timestamp_text(self) -> (shown: String)
        requires
            self.valid(),
        ensures
            shown@ == self.timestamp(),
    {
        let since = std::time::Duration::new(self.secs as u64, self.nanos);
        humantime::format_rfc3339_millis(std::time::UNIX_EPOCH + since).to_string()
    }
}

/// A time that can be written as a timestamp has a year of four digits.
pub proof fn timestamps_have_four_digit_years(time: ClockTime)
    requires
        time.valid(),
    ensures
        date(time.secs as int).valid(),
        1970 <= date(time.secs as int).year < 10000,
{
    let days = time.secs as int / (SECS_PER_DAY as int);
    let date = calendar::date_of(days);
    calendar::every_day_has_a_date(days);
    calendar::dates_follow(date, Date { year: 1970, month: 1, day: 1 });
    calendar::dates_follow(date, Date { year: 10000, month: 1, day: 1 });
}

} // verus!
