use vstd::prelude::*;
use std::time::{SystemTime, UNIX_EPOCH};
use chrono::{DateTime, Datelike, NaiveDateTime};

verus! {

/// std's `SystemTime`, carried through as an opaque value.
#[verifier::external_type_specification]
#[verifier::external_body]
pub struct ExSystemTime(std::time::SystemTime);

/// Relies on std's `SystemTime::now`: the clock is read, nothing is promised of it.
pub assume_specification[ std::time::SystemTime::now ]() -> std::time::SystemTime;

/// The `%Y-%m-%d %H:%M:%S` text that chrono writes, in UTC, for the instant
/// `secs` seconds and `nanos` nanoseconds after 1970-01-01 00:00:00.
pub uninterp spec fn utc_stamp(secs: int, nanos: int) -> Seq<char>;

/// The month (1 to 12) that chrono reads from a `%Y-%m-%d %H:%M:%S` timestamp,
/// or none where the text is no such timestamp.
pub uninterp spec fn month_in(text: Seq<char>) -> Option<u32>;

/// The last second of the year 9999, counted from 1970.
pub open spec fn last_four_digit_second() -> int {
    253_402_300_799
}

/// True when `t` has the shape `dddd-dd-dd dd:dd:dd`.
pub open spec fn stamp_shape(t: Seq<char>) -> bool {
    &&& t.len() == 19
    &&& t[4] == '-'
    &&& t[7] == '-'
    &&& t[10] == ' '
    &&& t[13] == ':'
    &&& t[16] == ':'
}

/// Whole seconds and the nanoseconds beyond them, since 1970, of `t`; none
/// where `t` lies before 1970.
///
/// Relies on std's `SystemTime::duration_since`, which fails only for an
/// earlier time, and on `Duration::subsec_nanos`, which is below one billion.
#[verifier::external_body]
fn since_epoch(t: SystemTime) -> (r: Option<(u64, u32)>)
    ensures
        r matches Some(p) ==> p.1 < 1_000_000_000,
{
    match t.duration_since(UNIX_EPOCH) {
        Ok(d) => Some((d.as_secs(), d.subsec_nanos())),
        Err(_) => None,
    }
}

/// Renders the instant `secs` seconds and `nanos` nanoseconds after 1970 as
/// a `%Y-%m-%d %H:%M:%S` timestamp in UTC; none where chrono cannot hold the
/// instant.
///
/// Relies on chrono's `DateTime::from_timestamp`, which holds years -262144
/// to 262143 and nanoseconds below one billion, and on `format`, which pads
/// a year from 0 to 9999 to four digits and the other fields to two.
#[verifier::external_body]
pub fn convert_from_system_time(secs: i64, nanos: u32) -> (r: Option<String>)
    ensures
        r matches Some(s) ==> s@ == utc_stamp(secs as int, nanos as int),
        0 <= secs <= last_four_digit_second() && nanos < 1_000_000_000 ==> r is Some && stamp_shape(r.unwrap()@),
{
    match DateTime::from_timestamp(secs, nanos) {
        Some(datetime) => Some(datetime.format("%Y-%m-%d %H:%M:%S").to_string()),
        None => None,
    }
}

/// The current time as a UTC timestamp; none where the clock reads a time
/// before 1970 or past what chrono holds.
pub fn now_stamp() -> (r: Option<String>)
    ensures
        r matches Some(s) ==> exists|secs: int, nanos: int|
            0 <= secs && 0 <= nanos < 1_000_000_000 && s@ == #[trigger] utc_stamp(secs, nanos),
{
    match since_epoch(SystemTime::now()) {
        Some((secs, nanos)) => {
            if secs > i64::MAX as u64 {
                None
            } else {
                let r = convert_from_system_time(secs as i64, nanos);
                assert(r matches Some(s) ==> s@ == utc_stamp(secs as int, nanos as int));
                r
            }
        },
        None => None,
    }
}

/// The month of a `%Y-%m-%d %H:%M:%S` timestamp, or `None` where the text does
/// not parse.
///
/// Relies on chrono's `NaiveDateTime::parse_from_str` and `Datelike::month`,
/// whose documentation gives a month from 1 to 12.
#[verifier::external_body]
pub fn get_month_from_date_string(datetime: &str) -> (r: Option<u32>)
    ensures
        r == month_in(datetime@),
        r matches Some(m) ==> 1 <= m <= 12,
{
    match NaiveDateTime::parse_from_str(datetime, "%Y-%m-%d %H:%M:%S") {
        Ok(parsed) => Some(parsed.month()),
        Err(_) => None,
    }
}

} // verus!
