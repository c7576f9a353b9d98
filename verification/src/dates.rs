//! Instants and the parsing of the date/time texts that the SAT portal
//! shows (RFC 3339, ISO-like and day-first forms).

use vstd::prelude::*;

use chrono::{DateTime, Datelike, NaiveDate, NaiveDateTime};

verus! {

/// An instant in UTC: whole seconds since the Unix epoch and the nanoseconds
/// past that second.
#[derive(Debug, Clone, Copy, PartialEq, Eq)]
pub struct Timestamp {
    pub secs: i64,
    pub nanos: u32,
}

/// Day number (counting 0001-01-01 as day 1) of 1970-01-01.
pub const UNIX_EPOCH_DAY_FROM_CE: i64 = 719_163;

/// Seconds in a day.
pub const SECS_PER_DAY: i64 = 86_400;

/// The instant, as (seconds since the epoch, sub-second nanoseconds), that
/// `chrono::DateTime::parse_from_rfc3339` reads from a text.
pub uninterp spec fn chrono_rfc3339(text: Seq<char>) -> Option<(i64, u32)>;

/// The UTC instant, as (seconds, nanoseconds), of the naive date-time that
/// `chrono::NaiveDateTime::parse_from_str` reads from a text with a format.
pub uninterp spec fn chrono_naive_datetime(text: Seq<char>, format: Seq<char>) -> Option<(i64, u32)>;

/// The day number from the common era (0001-01-01 is 1) of the date that
/// `chrono::NaiveDate::parse_from_str` reads from a text with a format.
pub uninterp spec fn chrono_naive_date(text: Seq<char>, format: Seq<char>) -> Option<i32>;

/// Reads an RFC 3339 date-time with `chrono::DateTime::parse_from_rfc3339`.
/// Claimed: the result is the named reading.
#[verifier::external_body]
fn read_rfc3339(text: &str) -> (res: Option<(i64, u32)>)
    ensures
        res == chrono_rfc3339(text@),
{
    match DateTime::parse_from_rfc3339(text) {
        Ok(dt) => Some((dt.timestamp(), dt.timestamp_subsec_nanos())),
        Err(_) => None,
    }
}

/// Reads a naive date-time with `chrono::NaiveDateTime::parse_from_str`,
/// taken as UTC. Claimed: the result is the named reading.
#[verifier::external_body]
fn read_naive_datetime(text: &str, format: &str) -> (res: Option<(i64, u32)>)
    ensures
        res == chrono_naive_datetime(text@, format@),
{
    match NaiveDateTime::parse_from_str(text, format) {
        Ok(ndt) => Some((ndt.and_utc().timestamp(), ndt.and_utc().timestamp_subsec_nanos())),
        Err(_) => None,
    }
}

/// Reads a date with `chrono::NaiveDate::parse_from_str`, as its day number
/// from the common era. Claimed: the result is the named reading.
#[verifier::external_body]
fn read_naive_date(text: &str, format: &str) -> (res: Option<i32>)
    ensures
        res == chrono_naive_date(text@, format@),
{
    match NaiveDate::parse_from_str(text, format) {
        Ok(d) => Some(d.num_days_from_ce()),
        Err(_) => None,
    }
}

/// The instant of midnight UTC starting the day with the given day number
/// from the common era.
pub open spec fn midnight(day_from_ce: int) -> (int, int) {
    ((day_from_ce - UNIX_EPOCH_DAY_FROM_CE) * SECS_PER_DAY, 0)
}

/// Views an optional (seconds, nanoseconds) pair as integers.
pub open spec fn as_instant(t: Option<(i64, u32)>) -> Option<(int, int)> {
    match t {
        Some(p) => Some((p.0 as int, p.1 as int)),
        None => None,
    }
}

/// Views an optional timestamp as (seconds, nanoseconds).
pub open spec fn timestamp_instant(t: Option<Timestamp>) -> Option<(int, int)> {
    match t {
        Some(p) => Some((p.secs as int, p.nanos as int)),
        None => None,
    }
}

/// The instant read from `text` with one format: as a date-time if the
/// format reads one, else as a date at midnight UTC.
pub open spec fn read_with_format(text: Seq<char>, format: Seq<char>) -> Option<(int, int)> {
    match chrono_naive_datetime(text, format) {
        Some(t) => as_instant(Some(t)),
        None => match chrono_naive_date(text, format) {
            Some(d) => Some(midnight(d as int)),
            None => None,
        },
    }
}

/// The instant that a SAT date/time text denotes: RFC 3339 first, then the
/// formats `%Y-%m-%dT%H:%M:%S`, `%Y-%m-%d %H:%M:%S`, `%d/%m/%Y %H:%M:%S`,
/// `%d/%m/%Y` in that order, the first that reads the text winning.
pub open spec fn sat_datetime(text: Seq<char>) -> Option<(int, int)> {
    if chrono_rfc3339(text) is Some {
        as_instant(chrono_rfc3339(text))
    } else if read_with_format(text, "%Y-%m-%dT%H:%M:%S"@) is Some {
        read_with_format(text, "%Y-%m-%dT%H:%M:%S"@)
    } else if read_with_format(text, "%Y-%m-%d %H:%M:%S"@) is Some {
        read_with_format(text, "%Y-%m-%d %H:%M:%S"@)
    } else if read_with_format(text, "%d/%m/%Y %H:%M:%S"@) is Some {
        read_with_format(text, "%d/%m/%Y %H:%M:%S"@)
    } else {
        read_with_format(text, "%d/%m/%Y"@)
    }
}

/// Reads `text` with one format: a date-time if the format reads one, else a
/// date taken at midnight UTC.
pub fn parse_with_format(text: &str, format: &str) -> (res: Option<Timestamp>)
    ensures
        timestamp_instant(res) == read_with_format(text@, format@),
{
    match read_naive_datetime(text, format) {
        Some((secs, nanos)) => Some(Timestamp { secs, nanos }),
        None => match read_naive_date(text, format) {
            Some(day) => {
                let secs: i64 = (day as i64 - UNIX_EPOCH_DAY_FROM_CE) * SECS_PER_DAY;
                Some(Timestamp { secs, nanos: 0 })
            },
            None => None,
        },
    }
}

/// Reads a date/time text as the SAT portal shows it (see `sat_datetime`).
pub fn parse_sat_datetime(text: &str) -> (res: Option<Timestamp>)
    ensures
        timestamp_instant(res) == sat_datetime(text@),
{
    if let Some((secs, nanos)) = read_rfc3339(text) {
        return Some(Timestamp { secs, nanos });
    }
    let r = parse_with_format(text, "%Y-%m-%dT%H:%M:%S");
    if r.is_some() {
        return r;
    }
    let r = parse_with_format(text, "%Y-%m-%d %H:%M:%S");
    if r.is_some() {
        return r;
    }
    let r = parse_with_format(text, "%d/%m/%Y %H:%M:%S");
    if r.is_some() {
        return r;
    }
    parse_with_format(text, "%d/%m/%Y")
}

} // verus!
