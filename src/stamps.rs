//! Reading timestamps out of console text: epoch seconds and the two
//! date-time forms the download tool prints.
use vstd::prelude::*;
use crate::datetime::{civil_from_epoch, valid_civil, UtcDateTime};
use crate::grammar::{find_dotnet, find_iso, search_dotnet, search_iso, ClockFields, Meridiem};
use crate::text::{parse_u64, parse_u64_spec};

verus! {

/// The hour on a 24-hour clock: `PM` adds twelve below noon, `AM` turns twelve into zero.
pub open spec fn hour_24(f: ClockFields) -> u32 {
    if f.meridiem == Meridiem::Pm && f.hour < 12 {
        (f.hour + 12) as u32
    } else if f.meridiem == Meridiem::Am && f.hour == 12 {
        0
    } else {
        f.hour
    }
}

/// The date-time the fields name, when it exists.
pub open spec fn clock_to_utc(f: ClockFields, hour: u32) -> Option<UtcDateTime> {
    if valid_civil(
        f.year as int,
        f.month as int,
        f.day as int,
        hour as int,
        f.minute as int,
        f.second as int,
    ) {
        Some(
            UtcDateTime {
                year: f.year as i32,
                month: f.month,
                day: f.day,
                hour: hour,
                minute: f.minute,
                second: f.second,
            },
        )
    } else {
        None
    }
}

/// The leftmost `M/D/YYYY h:mm:ss[ AM|PM]` of a text as a date-time.
pub open spec fn dotnet_stamp(text: Seq<char>) -> Option<UtcDateTime> {
    match find_dotnet(text) {
        Some(f) => clock_to_utc(f, hour_24(f)),
        None => None,
    }
}

/// The leftmost `YYYY-MM-DD HH:MM:SS` of a text as a date-time.
pub open spec fn iso_stamp(text: Seq<char>) -> Option<UtcDateTime> {
    match find_iso(text) {
        Some(f) => clock_to_utc(f, f.hour),
        None => None,
    }
}

/// The date-time of a manifest line's parenthesized text: the `.NET` form
/// first, then the ISO form.
pub open spec fn text_stamp(text: Seq<char>) -> Option<UtcDateTime> {
    if dotnet_stamp(text) is Some {
        dotnet_stamp(text)
    } else {
        iso_stamp(text)
    }
}

/// A run of digits read as epoch seconds.
pub open spec fn epoch_stamp(digits: Seq<char>) -> Option<UtcDateTime> {
    match parse_u64_spec(digits) {
        Some(v) => if v <= i64::MAX as u64 {
            civil_from_epoch(v as int)
        } else {
            None
        },
        None => None,
    }
}

fn fields_to_utc(f: &ClockFields, hour: u32) -> (r: Option<UtcDateTime>)
    requires
        f.year < 10000,
    ensures
        r == clock_to_utc(*f, hour),
        r matches Some(t) ==> t.wf(),
{
    UtcDateTime::from_ymd_hms(f.year as i32, f.month, f.day, hour, f.minute, f.second)
}

/// Reads the leftmost `M/D/YYYY h:mm:ss[ AM|PM]` of a text.
pub fn parse_dotnet_datetime(text: &[char]) -> (r: Option<UtcDateTime>)
    ensures
        r == dotnet_stamp(text@),
        r matches Some(t) ==> t.wf(),
{
    match search_dotnet(text) {
        Some(f) => {
            let hour = if f.meridiem == Meridiem::Pm && f.hour < 12 {
                f.hour + 12
            } else if f.meridiem == Meridiem::Am && f.hour == 12 {
                0
            } else {
                f.hour
            };
            fields_to_utc(&f, hour)
        },
        None => None,
    }
}

} // verus!

verus! {

/// Reads the leftmost `YYYY-MM-DD HH:MM:SS` of a text.
pub fn parse_iso_datetime(text: &[char]) -> (r: Option<UtcDateTime>)
    ensures
        r == iso_stamp(text@),
        r matches Some(t) ==> t.wf(),
{
    match search_iso(text) {
        Some(f) => fields_to_utc(&f, f.hour),
        None => None,
    }
}

/// Reads a manifest's date-time text, trying the `.NET` form before the ISO form.
pub fn parse_datetime_string(text: &[char]) -> (r: Option<UtcDateTime>)
    ensures
        r == text_stamp(text@),
        r matches Some(t) ==> t.wf(),
{
    let d = parse_dotnet_datetime(text);
    if d.is_some() {
        d
    } else {
        parse_iso_datetime(text)
    }
}

/// Reads a run of digits as epoch seconds.
pub fn parse_epoch_timestamp(digits: &[char]) -> (r: Option<UtcDateTime>)
    ensures
        r == epoch_stamp(digits@),
        r matches Some(t) ==> t.wf(),
{
    match parse_u64(digits) {
        Some(v) => {
            if v <= i64::MAX as u64 {
                UtcDateTime::from_timestamp(v as i64)
            } else {
                None
            }
        },
        None => None,
    }
}

} // verus!
