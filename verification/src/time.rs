//! A plain-value model of local wall-clock time.
//!
//! The scheduler's date arithmetic only ever reads the local calendar date
//! and the time of day, so an instant is held here as its calendar fields.
//! Arithmetic on this type treats every calendar day as exactly 24 hours
//! long: time-zone offsets and daylight-saving transitions are outside its
//! scope (a documented limitation of the scheduler, not a goal).

use vstd::prelude::*;

verus! {

/// Number of seconds in one calendar day.
pub const SECS_PER_DAY: u64 = 86400;

/// A local wall-clock calendar date and time of day, at second precision.
#[derive(Clone, Copy, PartialEq, Eq, Structural, Debug)]
pub struct Datetime {
    pub year: i32,
    pub month: u32,
    pub day: u32,
    pub hour: u32,
    pub minute: u32,
    pub second: u32,
}

/// Gregorian leap-year rule.
pub open spec fn spec_is_leap_year(year: int) -> bool {
    (year % 4 == 0 && year % 100 != 0) || year % 400 == 0
}

/// Number of days in the given month of the given year.
pub open spec fn spec_days_in_month(year: int, month: int) -> int {
    if month == 2 {
        if spec_is_leap_year(year) {
            29
        } else {
            28
        }
    } else if month == 4 || month == 6 || month == 9 || month == 11 {
        30
    } else {
        31
    }
}

/// Count of days from a fixed reference day to the given civil date.
///
/// This is the standard era-based civil-calendar day count, computed on the
/// year shifted up by 400 so that every intermediate value is nonnegative
/// within the supported year range. The shift moves the count by exactly
/// 146097 days (one 400-year era), a multiple of 7, so weekdays and day
/// differences are unaffected.
pub open spec fn spec_day_number(year: int, month: int, day: int) -> int {
    let y = if month <= 2 {
        year + 400 - 1
    } else {
        year + 400
    };
    let era = y / 400;
    let yoe = y - era * 400;
    let mp = (month + 9) % 12;
    let doy = (153 * mp + 2) / 5 + day - 1;
    let doe = yoe * 365 + yoe / 4 - yoe / 100 + doy;
    era * 146097 + doe
}

/// Day of the week of the given civil date; 0 is Sunday, 6 is Saturday.
pub open spec fn spec_weekday(year: int, month: int, day: int) -> int {
    (spec_day_number(year, month, day) + 3) % 7
}

/// Number of days in the given month of the given year.
pub fn days_in_month(year: i32, month: u32) -> (r: u32)
    requires
        0 <= year <= 9999,
        1 <= month <= 12,
    ensures
        r == spec_days_in_month(year as int, month as int),
{
    if month == 2 {
        let leap: bool = (year % 4 == 0 && year % 100 != 0) || year % 400 == 0;
        if leap {
            29
        } else {
            28
        }
    } else if month == 4 || month == 6 || month == 9 || month == 11 {
        30
    } else {
        31
    }
}

impl Datetime {
    /// A well-formed calendar date in the supported year range with a
    /// well-formed time of day.
    pub open spec fn valid(self) -> bool {
        &&& 0 <= self.year <= 9999
        &&& 1 <= self.month <= 12
        &&& 1 <= self.day <= spec_days_in_month(self.year as int, self.month as int)
        &&& self.hour < 24
        &&& self.minute < 60
        &&& self.second < 60
    }

    /// Seconds elapsed since local midnight.
    pub open spec fn secs_of_day(self) -> int {
        self.hour as int * 3600 + self.minute as int * 60 + self.second as int
    }

    /// Both instants fall on the same local calendar date.
    pub open spec fn on_same_date(self, other: Datetime) -> bool {
        self.year == other.year && self.month == other.month && self.day == other.day
    }

    /// Builds a datetime from its calendar fields, rejecting any field
    /// combination that does not name a real wall-clock instant in the
    /// supported year range.
    pub fn new(year: i32, month: u32, day: u32, hour: u32, minute: u32, second: u32) -> (r: Option<
        Datetime,
    >)
        ensures
            ({
                let t = Datetime { year, month, day, hour, minute, second };
                &&& r matches Some(v) ==> v == t && t.valid()
                &&& r is Some <==> t.valid()
            }),
    {
        if 0 <= year && year <= 9999 && 1 <= month && month <= 12 && 1 <= day && day
            <= days_in_month(year, month) && hour < 24 && minute < 60 && second < 60 {
            Some(Datetime { year, month, day, hour, minute, second })
        } else {
            None
        }
    }

    /// Seconds elapsed since local midnight.
    pub fn time_of_day_secs(&self) -> (r: u64)
        requires
            self.valid(),
        ensures
            r == self.secs_of_day(),
            r < SECS_PER_DAY,
    {
        self.hour as u64 * 3600 + self.minute as u64 * 60 + self.second as u64
    }

    /// Both instants fall on the same local calendar date.
    pub fn same_date_as(&self, other: &Datetime) -> (r: bool)
        ensures
            r == self.on_same_date(*other),
    {
        self.year == other.year && self.month == other.month && self.day == other.day
    }

    /// Day of the week; 0 is Sunday, 6 is Saturday.
    pub fn weekday(&self) -> (r: u64)
        requires
            self.valid(),
        ensures
            r == spec_weekday(self.year as int, self.month as int, self.day as int),
            r < 7,
    {
        let y: u64 = if self.month <= 2 {
            (self.year + 400 - 1) as u64
        } else {
            (self.year + 400) as u64
        };
        let era: u64 = y / 400;
        let yoe: u64 = y - era * 400;
        let mp: u64 = (self.month as u64 + 9) % 12;
        let doy: u64 = (153 * mp + 2) / 5 + self.day as u64 - 1;
        let doe: u64 = yoe * 365 + yoe / 4 - yoe / 100 + doy;
        let dn: u64 = era * 146097 + doe;
        (dn + 3) % 7
    }
}

} // verus!
