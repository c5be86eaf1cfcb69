//! Calendar days and wall-clock readings in the service's reference time
//! zone, and what is derived from them: the name of the day's counter and the
//! time left until the day rolls over.

use vstd::prelude::*;
use vstd::string::*;
use chrono::{Datelike, Timelike};

verus! {

/// The earliest year a calendar day can lie in.
pub const MIN_YEAR: i32 = -262143;

/// The latest year a calendar day can lie in.
pub const MAX_YEAR: i32 = 262142;

/// Seconds in one calendar day.
pub const SECONDS_PER_DAY: u32 = 86400;

/// Nanoseconds in one second.
pub const NANOS_PER_SECOND: i64 = 1_000_000_000;

/// Prefix shared by the names of all daily win counters.
pub const WINS_KEY_PREFIX: &'static str = "wins:";

/// Leap years of the proleptic Gregorian calendar.
pub open spec fn is_leap_year(year: int) -> bool {
    year % 4 == 0 && (year % 100 != 0 || year % 400 == 0)
}

/// Number of days of `month` in `year`; `month` counts from 1.
pub open spec fn days_in_month(year: int, month: int) -> int {
    if month == 2 {
        if is_leap_year(year) {
            29
        } else {
            28
        }
    } else if month == 4 || month == 6 || month == 9 || month == 11 {
        30
    } else {
        31
    }
}

/// Whether year, month and day name a day of the calendar.
pub open spec fn is_calendar_day(year: int, month: int, day: int) -> bool {
    &&& MIN_YEAR <= year <= MAX_YEAR
    &&& 1 <= month <= 12
    &&& 1 <= day <= days_in_month(year, month)
}

/// Whole seconds from a time of day to the following midnight, rounded
/// toward zero. The time of day is given as whole seconds since midnight and
/// nanoseconds beyond them.
pub open spec fn seconds_to_midnight(second_of_day: int, nanosecond: int) -> int {
    let left = (SECONDS_PER_DAY - second_of_day) * NANOS_PER_SECOND - nanosecond;
    if left >= 0 {
        left / (NANOS_PER_SECOND as int)
    } else {
        -((-left) / (NANOS_PER_SECOND as int))
    }
}

/// The text `chrono::NaiveDate` displays for a calendar day.
pub uninterp spec fn day_text(year: int, month: int, day: int) -> Seq<char>;

/// A day of the proleptic Gregorian calendar.
#[derive(Clone, Copy, Debug, PartialEq, Eq)]
pub struct CalendarDay {
    year: i32,
    month: u32,
    day: u32,
}

impl CalendarDay {
    #[verifier::type_invariant]
    spec fn well_formed(self) -> bool {
        is_calendar_day(self.year as int, self.month as int, self.day as int)
    }

    /// Whether the fields name a day of the calendar. Every value that
    /// executable code can hold does.
    pub open spec fn is_valid(&self) -> bool {
        is_calendar_day(self.spec_year() as int, self.spec_month() as int, self.spec_day() as int)
    }

    pub closed spec fn spec_year(&self) -> i32 {
        self.year
    }

    pub closed spec fn spec_month(&self) -> u32 {
        self.month
    }

    pub closed spec fn spec_day(&self) -> u32 {
        self.day
    }

    /// The text of this day as it appears in key names.
    pub open spec fn text(&self) -> Seq<char> {
        day_text(self.spec_year() as int, self.spec_month() as int, self.spec_day() as int)
    }

    /// The day with the given year, month and day of month, where the
    /// calendar has one.
    pub fn new(year: i32, month: u32, day: u32) -> (made: Option<CalendarDay>)
        ensures
            made is Some <==> is_calendar_day(year as int, month as int, day as int),
            made is Some ==> made.unwrap().spec_year() == year && made.unwrap().spec_month()
                == month && made.unwrap().spec_day() == day,
    {
        if year < MIN_YEAR || year > MAX_YEAR || month < 1 || month > 12 || day < 1 {
            return None;
        }
        let leap = year % 4 == 0 && (year % 100 != 0 || year % 400 == 0);
        let length: u32 = if month == 2 {
            if leap {
                29
            } else {
                28
            }
        } else if month == 4 || month == 6 || month == 9 || month == 11 {
            30
        } else {
            31
        };
        if day <= length {
            Some(CalendarDay { year, month, day })
        } else {
            None
        }
    }

    #[verifier::when_used_as_spec(spec_year)]
    pub fn year(&self) -> (year: i32)
        ensures
            year == self.spec_year(),
    {
        self.year
    }

    #[verifier::when_used_as_spec(spec_month)]
    pub fn month(&self) -> (month: u32)
        ensures
            month == self.spec_month(),
    {
        self.month
    }

    #[verifier::when_used_as_spec(spec_day)]
    pub fn day(&self) -> (day: u32)
        ensures
            day == self.spec_day(),
    {
        self.day
    }
}

/// Displays a calendar day through `chrono::NaiveDate`: the date is built
/// with `NaiveDate::from_ymd_opt`, which accepts every day of the calendar
/// between `MIN_YEAR` and `MAX_YEAR`, and written with its `Display` impl.
/// The text depends on year, month and day alone.
#[verifier::external_body]
fn format_day(year: i32, month: u32, day: u32) -> (text: String)
    requires
        is_calendar_day(year as int, month as int, day as int),
    ensures
        text@ == day_text(year as int, month as int, day as int),
{
    chrono::NaiveDate::from_ymd_opt(year, month, day).unwrap().to_string()
}

/// Reads `chrono::Local::now` and takes the naive local date and time of day
/// out of it. Whatever the clock says, the date is a day of the calendar, the
/// seconds since midnight are below 86400, and the nanoseconds are below two
/// thousand million (the upper half stands for a leap second).
#[verifier::external_body]
pub(crate) fn local_now() -> (reading: ClockReading)
    ensures
        reading.is_valid(),
{
    let now = chrono::Local::now().naive_local();
    ClockReading {
        today: CalendarDay { year: now.year(), month: now.month(), day: now.day() },
        second_of_day: now.num_seconds_from_midnight(),
        nanosecond: now.nanosecond(),
    }
}

/// Reads `chrono::Utc::now` and takes the calendar day out of it. Whatever
/// the clock says, the result is a day of the calendar.
#[verifier::external_body]
pub(crate) fn utc_today() -> (today: CalendarDay)
    ensures
        today.is_valid(),
{
    let date = chrono::Utc::now().date_naive();
    CalendarDay { year: date.year(), month: date.month(), day: date.day() }
}

/// One look at the wall clock: the calendar day and the time of day.
#[derive(Clone, Copy, Debug, PartialEq, Eq)]
pub struct ClockReading {
    today: CalendarDay,
    second_of_day: u32,
    nanosecond: u32,
}

impl ClockReading {
    #[verifier::type_invariant]
    spec fn well_formed(self) -> bool {
        &&& self.today.well_formed()
        &&& self.second_of_day < SECONDS_PER_DAY
        &&& self.nanosecond < 2 * NANOS_PER_SECOND
    }

    /// Whether the fields name a calendar day and a time of day. Every value
    /// that executable code can hold does.
    pub open spec fn is_valid(&self) -> bool {
        &&& self.spec_today().is_valid()
        &&& self.spec_second_of_day() < SECONDS_PER_DAY
        &&& self.spec_nanosecond() < 2 * NANOS_PER_SECOND
    }

    pub closed spec fn spec_today(&self) -> CalendarDay {
        self.today
    }

    pub closed spec fn spec_second_of_day(&self) -> u32 {
        self.second_of_day
    }

    pub closed spec fn spec_nanosecond(&self) -> u32 {
        self.nanosecond
    }

    /// Whole seconds from this reading to the next midnight.
    pub open spec fn spec_seconds_until_midnight(&self) -> int {
        seconds_to_midnight(self.spec_second_of_day() as int, self.spec_nanosecond() as int)
    }

    /// A reading of `today` at `second_of_day` seconds and `nanosecond`
    /// nanoseconds past midnight, where these name a time of day.
    pub fn new(today: CalendarDay, second_of_day: u32, nanosecond: u32) -> (made: Option<
        ClockReading,
    >)
        ensures
            made is Some <==> second_of_day < SECONDS_PER_DAY && nanosecond < 2
                * NANOS_PER_SECOND,
            made is Some ==> made.unwrap().spec_today() == today
                && made.unwrap().spec_second_of_day() == second_of_day
                && made.unwrap().spec_nanosecond() == nanosecond,
    {
        proof {
            use_type_invariant(today);
        }
        if second_of_day < SECONDS_PER_DAY && nanosecond < 2_000_000_000 {
            Some(ClockReading { today, second_of_day, nanosecond })
        } else {
            None
        }
    }

    #[verifier::when_used_as_spec(spec_today)]
    pub fn today(&self) -> (today: CalendarDay)
        ensures
            today == self.spec_today(),
    {
        self.today
    }

    /// Whole seconds left until the day rolls over, rounded toward zero: zero
    /// within the last second of the day, and at most 86400.
    pub fn seconds_until_midnight(&self) -> (seconds: i64)
        ensures
            seconds == self.spec_seconds_until_midnight(),
            0 <= seconds <= SECONDS_PER_DAY,
    {
        proof {
            use_type_invariant(self);
        }
        let whole: i64 = (SECONDS_PER_DAY - self.second_of_day) as i64;
        let left: i64 = whole * NANOS_PER_SECOND - (self.nanosecond as i64);
        if left >= 0 {
            left / NANOS_PER_SECOND
        } else {
            0
        }
    }
}

/// The name of the win counter of the day whose text is `day`.
pub open spec fn wins_key_of(day: Seq<char>) -> Seq<char> {
    WINS_KEY_PREFIX@ + day
}

/// The counter name for a day given as text: the prefix, then the text.
pub fn wins_key_for(day: &str) -> (key: String)
    ensures
        key@ == wins_key_of(day@),
{
    String::from_str(WINS_KEY_PREFIX).concat(day)
}

/// The name of the win counter of `day`.
pub fn wins_key(day: &CalendarDay) -> (key: String)
    ensures
        key@ == wins_key_of(day.text()),
{
    proof {
        use_type_invariant(day);
    }
    let text = format_day(day.year(), day.month(), day.day());
    wins_key_for(text.as_str())
}

} // verus!
