use vstd::prelude::*;

verus! {

/// The smallest year that a calendar date may carry.
pub const MIN_YEAR: i32 = -262143;

/// The largest year that a calendar date may carry.
pub const MAX_YEAR: i32 = 262142;

/// Nanoseconds in one second.
pub const NANOS_PER_SECOND: u64 = 1_000_000_000;

/// Nanoseconds in one minute.
pub const NANOS_PER_MINUTE: u64 = 60_000_000_000;

/// Whether `year` is a leap year of the proleptic Gregorian calendar.
pub open spec fn is_leap_year(year: int) -> bool {
    (year % 4 == 0 && year % 100 != 0) || year % 400 == 0
}

/// The number of days in `month` (1 to 12) of `year`.
pub open spec fn days_in_month(year: int, month: int) -> int {
    if month == 2 {
        if is_leap_year(year) { 29 } else { 28 }
    } else if month == 4 || month == 6 || month == 9 || month == 11 {
        30
    } else {
        31
    }
}

/// Whether year, month and day name a day of the calendar.
pub open spec fn valid_date(year: int, month: int, day: int) -> bool {
    &&& MIN_YEAR <= year <= MAX_YEAR
    &&& 1 <= month <= 12
    &&& 1 <= day <= days_in_month(year, month)
}

/// The day of the week of a calendar date, counted from Monday (0) to Sunday (6).
pub uninterp spec fn weekday_index(year: int, month: int, day: int) -> int;

/// Relies on chrono's `NaiveDate::from_ymd_opt`, which accepts exactly the valid
/// dates of the proleptic Gregorian calendar in its year range, and on
/// `Datelike::weekday` with `Weekday::num_days_from_monday`, which give the day of
/// the week as 0 (Monday) to 6 (Sunday).
#[verifier::external_body]
pub(crate) fn weekday_from_monday(year: i32, month: u32, day: u32) -> (r: Option<u32>)
    ensures
        r.is_some() <==> valid_date(year as int, month as int, day as int),
        r matches Some(w) ==> w < 7 && w as int == weekday_index(year as int, month as int, day as int),
{
    chrono::NaiveDate::from_ymd_opt(year, month, day).map(
        |d| chrono::Datelike::weekday(&d).num_days_from_monday(),
    )
}

/// A snapshot of the local wall-clock time, broken into calendar fields.
#[derive(Clone, Copy, Debug, PartialEq, Eq, Structural)]
pub struct LocalTime {
    pub year: i32,
    pub month: u32,
    pub day: u32,
    pub hour: u32,
    pub minute: u32,
    pub second: u32,
    pub nanosecond: u32,
}

impl LocalTime {
    /// A valid date, a time of day, and a fraction of a second below one second.
    pub open spec fn wf(&self) -> bool {
        &&& valid_date(self.year as int, self.month as int, self.day as int)
        &&& self.hour < 24
        &&& self.minute < 60
        &&& self.second < 60
        &&& self.nanosecond < NANOS_PER_SECOND
    }

    /// Whether two snapshots fall on the same calendar date.
    pub open spec fn same_date(&self, other: LocalTime) -> bool {
        self.year == other.year && self.month == other.month && self.day == other.day
    }

    /// Whether two snapshots fall into the same minute of the same day.
    pub open spec fn same_minute(&self, other: LocalTime) -> bool {
        self.same_date(other) && self.hour == other.hour && self.minute == other.minute
    }

    /// How far into its minute this snapshot lies, in nanoseconds.
    pub open spec fn nanos_into_minute(&self) -> int {
        self.second as int * NANOS_PER_SECOND as int + self.nanosecond as int
    }

    /// Builds a snapshot from its fields, or `None` where they name no instant.
    /// A nanosecond count from one to two seconds marks a leap second; it is held
    /// as the last nanosecond of the minute.
    pub fn new(
        year: i32,
        month: u32,
        day: u32,
        hour: u32,
        minute: u32,
        second: u32,
        nanosecond: u32,
    ) -> (r: Option<LocalTime>)
        ensures
            r.is_some() <==> (valid_date(year as int, month as int, day as int) && hour < 24
                && minute < 60 && second < 60 && nanosecond < 2 * NANOS_PER_SECOND),
            r matches Some(t) ==> {
                &&& t.wf()
                &&& t.year == year && t.month == month && t.day == day
                &&& t.hour == hour && t.minute == minute && t.second == second
                &&& t.nanosecond == if nanosecond < NANOS_PER_SECOND {
                    nanosecond
                } else {
                    (NANOS_PER_SECOND - 1) as u32
                }
            },
    {
        if year < MIN_YEAR || year > MAX_YEAR || month < 1 || month > 12 || day < 1 {
            return None;
        }
        if day > days_in(year, month) || hour >= 24 || minute >= 60 || second >= 60 {
            return None;
        }
        if nanosecond as u64 >= 2 * NANOS_PER_SECOND {
            return None;
        }
        let nanosecond = if (nanosecond as u64) < NANOS_PER_SECOND {
            nanosecond
        } else {
            (NANOS_PER_SECOND - 1) as u32
        };
        Some(LocalTime { year, month, day, hour, minute, second, nanosecond })
    }
}

fn days_in(year: i32, month: u32) -> (r: u32)
    requires
        1 <= month <= 12,
    ensures
        r as int == days_in_month(year as int, month as int),
{
    if month == 2 {
        if (year % 4 == 0 && year % 100 != 0) || year % 400 == 0 {
            29
        } else {
            28
        }
    } else if month == 4 || month == 6 || month == 9 || month == 11 {
        30
    } else {
        31
    }
}

/// The wait, in nanoseconds, from `now` to the next minute boundary strictly after
/// it: a full minute when `now` lies exactly on a boundary.
pub open spec fn delay_spec(now: LocalTime) -> int {
    NANOS_PER_MINUTE as int - now.nanos_into_minute()
}

/// The time a scheduler sleeps before its next tick, from the wall-clock time it
/// has just read: the tick then falls where seconds and nanoseconds are zero.
pub fn delay_to_next_minute(now: &LocalTime) -> (d: u64)
    requires
        now.wf(),
    ensures
        d as int == delay_spec(*now),
        0 < d <= NANOS_PER_MINUTE,
        (now.nanos_into_minute() + d) % NANOS_PER_MINUTE as int == 0,
{
    let into: u64 = now.second as u64 * NANOS_PER_SECOND + now.nanosecond as u64;
    NANOS_PER_MINUTE - into
}

} // verus!
