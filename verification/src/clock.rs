//! The moment at which a snapshot was taken, as a calendar date and a time of
//! day in UTC, and its conversion to Unix seconds.

use vstd::prelude::*;

verus! {

/// A moment in UTC, by its calendar fields.
#[derive(Clone, Copy, Debug, PartialEq, Eq, Structural)]
pub struct SaveTime {
    pub year: i32,
    pub month: u8,
    pub day: u8,
    pub hour: u8,
    pub minute: u8,
    pub second: u8,
    pub nanosecond: u32,
}

impl DeepView for SaveTime {
    type V = SaveTime;

    open spec fn deep_view(&self) -> SaveTime {
        *self
    }
}

/// Whether `year` has a 29th of February in the Gregorian calendar.
pub open spec fn is_leap_year(year: int) -> bool {
    year % 4 == 0 && (year % 100 != 0 || year % 400 == 0)
}

/// The number of days of `month` (1 to 12) in `year`.
pub open spec fn days_in_month(year: int, month: int) -> int {
    if month == 2 {
        if is_leap_year(year) {
            29
        } else {
            28
        }
    } else if month == 4 || month == 6 || month == 9 || month == 11 {
        30
    } else {
        31
    }
}

/// Whether the fields of `moment` name a real date between the years -9999
/// and 9999 and a real time of day.
pub open spec fn valid_time(moment: SaveTime) -> bool {
    &&& -9999 <= moment.year <= 9999
    &&& 1 <= moment.month <= 12
    &&& 1 <= moment.day <= days_in_month(moment.year as int, moment.month as int)
    &&& moment.hour < 24
    &&& moment.minute < 60
    &&& moment.second < 60
    &&& moment.nanosecond < 1_000_000_000
}

/// The Unix timestamp, in whole seconds, of the UTC moment with these
/// calendar fields.
pub uninterp spec fn utc_unix_timestamp(
    year: int,
    month: int,
    day: int,
    hour: int,
    minute: int,
    second: int,
) -> i64;

/// The Unix timestamp of a valid moment.
pub open spec fn unix_timestamp_of(moment: SaveTime) -> i64 {
    utc_unix_timestamp(
        moment.year as int,
        moment.month as int,
        moment.day as int,
        moment.hour as int,
        moment.minute as int,
        moment.second as int,
    )
}

impl SaveTime {
    /// Whether the fields name a real date and time of day.
    pub fn is_valid(&self) -> (valid: bool)
        ensures
            valid == valid_time(*self),
    {
        if self.year < -9999 || self.year > 9999 {
            return false;
        }
        if self.month < 1 || self.month > 12 || self.day < 1 {
            return false;
        }
        let shifted: i32 = self.year + 10000;
        assert(is_leap_year(self.year as int) == is_leap_year(shifted as int));
        let leap: bool = shifted % 4 == 0 && (shifted % 100 != 0 || shifted % 400 == 0);
        let days: u8 = if self.month == 2 {
            if leap {
                29
            } else {
                28
            }
        } else if self.month == 4 || self.month == 6 || self.month == 9 || self.month == 11 {
            30
        } else {
            31
        };
        self.day <= days && self.hour < 24 && self.minute < 60 && self.second < 60
            && self.nanosecond < 1_000_000_000
    }

    /// The Unix timestamp of this moment, or nothing where its fields name
    /// no real moment.
    pub fn unix_timestamp(&self) -> (seconds: Option<i64>)
        ensures
            seconds == (if valid_time(*self) {
                Some(unix_timestamp_of(*self))
            } else {
                None
            }),
    {
        if self.is_valid() {
            Some(unix_seconds(self))
        } else {
            None
        }
    }
}

/// Calls `time::PrimitiveDateTime::assume_utc` and
/// `time::OffsetDateTime::unix_timestamp` on the date and time built from the
/// fields. Trusted: the result is the Unix timestamp that the `time` crate
/// gives to this UTC moment, a function of the six fields alone.
#[verifier::external_body]
pub(crate) fn unix_seconds(moment: &SaveTime) -> (seconds: i64)
    requires
        valid_time(*moment),
    ensures
        seconds == utc_unix_timestamp(
            moment.year as int,
            moment.month as int,
            moment.day as int,
            moment.hour as int,
            moment.minute as int,
            moment.second as int,
        ),
{
    let month = time::Month::try_from(moment.month).unwrap();
    let date = time::Date::from_calendar_date(moment.year, month, moment.day).unwrap();
    let clock = time::Time::from_hms_nano(
        moment.hour,
        moment.minute,
        moment.second,
        moment.nanosecond,
    ).unwrap();
    time::PrimitiveDateTime::new(date, clock).assume_utc().unix_timestamp()
}

/// Calls `time::OffsetDateTime::now_utc`. Trusted: whatever the clock says,
/// the fields that come back name a real date and time of day.
#[verifier::external_body]
pub(crate) fn utc_now() -> (moment: SaveTime)
    ensures
        valid_time(moment),
{
    let now = time::OffsetDateTime::now_utc();
    SaveTime {
        year: now.year(),
        month: u8::from(now.month()),
        day: now.day(),
        hour: now.hour(),
        minute: now.minute(),
        second: now.second(),
        nanosecond: now.nanosecond(),
    }
}

} // verus!
