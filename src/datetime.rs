//! UTC date-times as plain calendar fields, with the conversions that chrono
//! performs for the library.
use vstd::prelude::*;
use chrono::{Datelike, TimeZone, Timelike};

verus! {

/// A UTC date and time of day, to the second, in the proleptic Gregorian calendar.
#[derive(Clone, Copy, Debug, PartialEq, Eq, Structural)]
pub struct UtcDateTime {
    pub year: i32,
    pub month: u32,
    pub day: u32,
    pub hour: u32,
    pub minute: u32,
    pub second: u32,
}

pub open spec fn is_leap_year(y: int) -> bool {
    (y % 4 == 0 && y % 100 != 0) || y % 400 == 0
}

pub open spec fn days_in_month(y: int, m: int) -> int {
    if m == 2 {
        if is_leap_year(y) {
            29
        } else {
            28
        }
    } else if m == 4 || m == 6 || m == 9 || m == 11 {
        30
    } else {
        31
    }
}

/// The year range that chrono represents.
pub open spec fn year_in_range(y: int) -> bool {
    -262143 <= y <= 262142
}

/// Whether the fields name an existing calendar day and time of day.
pub open spec fn valid_civil(y: int, m: int, d: int, h: int, mi: int, s: int) -> bool {
    &&& year_in_range(y)
    &&& 1 <= m <= 12
    &&& 1 <= d <= days_in_month(y, m)
    &&& 0 <= h < 24
    &&& 0 <= mi < 60
    &&& 0 <= s < 60
}

/// Days from 1970-01-01 to the given calendar day.
pub open spec fn days_from_civil(y: int, m: int, d: int) -> int {
    let yy = if m <= 2 {
        y - 1
    } else {
        y
    };
    let mp = if m > 2 {
        m - 3
    } else {
        m + 9
    };
    365 * yy + yy / 4 - yy / 100 + yy / 400 + (153 * mp + 2) / 5 + d - 1 - 719468
}

/// Seconds since 1970-01-01T00:00:00Z of the given fields.
pub open spec fn epoch_of(y: int, m: int, d: int, h: int, mi: int, s: int) -> int {
    days_from_civil(y, m, d) * 86400 + h * 3600 + mi * 60 + s
}

/// The earliest and latest epoch seconds this library converts: from
/// 0001-01-01T00:00:00Z to 9999-12-31T23:59:59Z.
pub open spec fn epoch_in_common_range(secs: int) -> bool {
    -62135596800 <= secs <= 253402300799
}

/// The date-time `secs` seconds after the epoch, when chrono's range holds one.
pub open spec fn civil_from_epoch(secs: int) -> Option<UtcDateTime> {
    if exists|t: UtcDateTime| t.wf() && t.epoch() == secs {
        Some(choose|t: UtcDateTime| t.wf() && t.epoch() == secs)
    } else {
        None
    }
}

impl UtcDateTime {
    pub open spec fn wf(&self) -> bool {
        valid_civil(
            self.year as int,
            self.month as int,
            self.day as int,
            self.hour as int,
            self.minute as int,
            self.second as int,
        )
    }

    pub open spec fn epoch(&self) -> int {
        epoch_of(
            self.year as int,
            self.month as int,
            self.day as int,
            self.hour as int,
            self.minute as int,
            self.second as int,
        )
    }

    /// Makes a date-time from calendar fields; `None` when they name no
    /// existing day or time of day.
    pub fn from_ymd_hms(year: i32, month: u32, day: u32, hour: u32, minute: u32, second: u32) -> (r:
        Option<UtcDateTime>)
        ensures
            r is Some <==> valid_civil(
                year as int,
                month as int,
                day as int,
                hour as int,
                minute as int,
                second as int,
            ),
            r matches Some(t) ==> t.wf() && t.year == year && t.month == month && t.day == day
                && t.hour == hour && t.minute == minute && t.second == second,
    {
        match civil_to_epoch(year, month, day, hour, minute, second) {
            Some(_) => Some(UtcDateTime { year, month, day, hour, minute, second }),
            None => None,
        }
    }

    /// The date-time `secs` seconds after 1970-01-01T00:00:00Z.
    pub fn from_timestamp(secs: i64) -> (r: Option<UtcDateTime>)
        ensures
            r == civil_from_epoch(secs as int),
            r matches Some(t) ==> t.wf() && t.epoch() == secs,
            epoch_in_common_range(secs as int) ==> r is Some,
    {
        epoch_to_civil(secs)
    }

    /// Seconds since 1970-01-01T00:00:00Z.
    pub fn timestamp(&self) -> (r: i64)
        requires
            self.wf(),
        ensures
            r == self.epoch(),
    {
        match civil_to_epoch(self.year, self.month, self.day, self.hour, self.minute, self.second) {
            Some(v) => v,
            None => 0,
        }
    }

    pub fn year(&self) -> (r: i32)
        ensures
            r == self.year,
    {
        self.year
    }

    pub fn month(&self) -> (r: u32)
        ensures
            r == self.month,
    {
        self.month
    }

    pub fn day(&self) -> (r: u32)
        ensures
            r == self.day,
    {
        self.day
    }

    pub fn hour(&self) -> (r: u32)
        ensures
            r == self.hour,
    {
        self.hour
    }

    pub fn minute(&self) -> (r: u32)
        ensures
            r == self.minute,
    {
        self.minute
    }

    pub fn second(&self) -> (r: u32)
        ensures
            r == self.second,
    {
        self.second
    }
}

/// Relies on `NaiveDate::from_ymd_opt`, `NaiveDate::and_hms_opt` and
/// `NaiveDateTime::and_utc().timestamp()`: `None` on a day or time of day that
/// does not exist or a year out of chrono's range, else the epoch seconds.
#[verifier::external_body]
fn civil_to_epoch(y: i32, m: u32, d: u32, h: u32, mi: u32, s: u32) -> (r: Option<i64>)
    ensures
        r is Some <==> valid_civil(y as int, m as int, d as int, h as int, mi as int, s as int),
        r matches Some(v) ==> v == epoch_of(
            y as int,
            m as int,
            d as int,
            h as int,
            mi as int,
            s as int,
        ),
{
    let date = chrono::NaiveDate::from_ymd_opt(y, m, d)?;
    let dt = date.and_hms_opt(h, mi, s)?;
    Some(dt.and_utc().timestamp())
}

/// Relies on `Utc.timestamp_opt(secs, 0).single()`: the calendar fields of the
/// instant `secs` seconds after the epoch, `None` out of chrono's range.
#[verifier::external_body]
fn epoch_to_civil(secs: i64) -> (r: Option<UtcDateTime>)
    ensures
        r == civil_from_epoch(secs as int),
        r matches Some(t) ==> t.wf() && t.epoch() == secs,
        epoch_in_common_range(secs as int) ==> r is Some,
{
    let dt = chrono::Utc.timestamp_opt(secs, 0).single()?;
    Some(UtcDateTime {
        year: dt.year(),
        month: dt.month(),
        day: dt.day(),
        hour: dt.hour(),
        minute: dt.minute(),
        second: dt.second(),
    })
}

/// Relies on `SystemTime::now().duration_since(UNIX_EPOCH)`: whole seconds
/// since the epoch by the system clock, whatever it reads; `None` when it reads
/// earlier than the epoch.
#[verifier::external_body]
fn clock_seconds() -> Option<u64> {
    std::time::SystemTime::now().duration_since(std::time::UNIX_EPOCH).ok().map(|d| d.as_secs())
}

/// 1970-01-01T00:00:00Z.
pub open spec fn unix_epoch_start() -> UtcDateTime {
    UtcDateTime { year: 1970, month: 1, day: 1, hour: 0, minute: 0, second: 0 }
}

/// The date-time of a clock reading in seconds since the epoch; a missing or
/// out-of-range reading gives 1970-01-01T00:00:00Z.
pub open spec fn clock_time(secs: Option<u64>) -> UtcDateTime {
    match secs {
        Some(s) => if s <= i64::MAX as u64 && civil_from_epoch(s as int) is Some {
            civil_from_epoch(s as int)->0
        } else {
            unix_epoch_start()
        },
        None => unix_epoch_start(),
    }
}

/// Turns a clock reading into a date-time, as `clock_time` says.
pub fn utc_from_clock(secs: Option<u64>) -> (r: UtcDateTime)
    ensures
        r == clock_time(secs),
        r.wf(),
{
    let start = UtcDateTime { year: 1970, month: 1, day: 1, hour: 0, minute: 0, second: 0 };
    match secs {
        Some(s) => {
            if s <= i64::MAX as u64 {
                match UtcDateTime::from_timestamp(s as i64) {
                    Some(t) => t,
                    None => start,
                }
            } else {
                start
            }
        },
        None => start,
    }
}

/// The current time by the system clock; 1970-01-01T00:00:00Z when the clock
/// reads earlier than that.
pub(crate) fn now_utc() -> (r: UtcDateTime)
    ensures
        r.wf(),
        exists|secs: Option<u64>| r == clock_time(secs),
{
    let secs = clock_seconds();
    utc_from_clock(secs)
}

/// English name of a month number; "Unknown" outside 1 to 12.
pub open spec fn month_name_spec(m: int) -> Seq<char> {
    if m == 1 {
        "January"@
    } else if m == 2 {
        "February"@
    } else if m == 3 {
        "March"@
    } else if m == 4 {
        "April"@
    } else if m == 5 {
        "May"@
    } else if m == 6 {
        "June"@
    } else if m == 7 {
        "July"@
    } else if m == 8 {
        "August"@
    } else if m == 9 {
        "September"@
    } else if m == 10 {
        "October"@
    } else if m == 11 {
        "November"@
    } else if m == 12 {
        "December"@
    } else {
        "Unknown"@
    }
}

pub fn month_name(month: u32) -> (r: &'static str)
    ensures
        r@ == month_name_spec(month as int),
{
    match month {
        1 => "January",
        2 => "February",
        3 => "March",
        4 => "April",
        5 => "May",
        6 => "June",
        7 => "July",
        8 => "August",
        9 => "September",
        10 => "October",
        11 => "November",
        12 => "December",
        _ => "Unknown",
    }
}

} // verus!
