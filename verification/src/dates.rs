//! Reading the free-form date texts that clients send.
use vstd::prelude::*;
use vstd::string::*;
use crate::text::{trim, trim_seq};

verus! {

/// A date and wall-clock time without a zone: the day (counted from
/// 0001-01-01 as day 1, proleptic Gregorian), the second of that day, and
/// the nanosecond within the second (at or above 1e9 only in a leap second).
#[derive(Clone, Copy, Debug)]
pub struct LocalDateTime {
    pub day_number: i32,
    pub second_of_day: u32,
    pub nanosecond: u32,
}

/// What `chrono::NaiveDateTime::parse_from_str` yields for a text and a
/// format, or `None` when the text does not match the format.
pub uninterp spec fn naive_datetime_of(value: Seq<char>, fmt: Seq<char>) -> Option<LocalDateTime>;

/// What `chrono::NaiveDate::parse_from_str` yields for a text and a format,
/// as a day number, or `None` when the text does not match the format.
pub uninterp spec fn naive_date_of(value: Seq<char>, fmt: Seq<char>) -> Option<i32>;

/// The local wall-clock time of an RFC 3339 timestamp as
/// `chrono::DateTime::parse_from_rfc3339` reads it, or `None` when the text
/// is not RFC 3339.
pub uninterp spec fn rfc3339_local_of(value: Seq<char>) -> Option<LocalDateTime>;

/// Calls `chrono::NaiveDateTime::parse_from_str`; the result is named by
/// `naive_datetime_of`.
#[verifier::external_body]
fn parse_naive_datetime(value: &str, fmt: &str) -> (r: Option<LocalDateTime>)
    ensures
        r == naive_datetime_of(value@, fmt@),
{
    match chrono::NaiveDateTime::parse_from_str(value, fmt) {
        Ok(d) => Some(LocalDateTime {
            day_number: chrono::Datelike::num_days_from_ce(&d),
            second_of_day: chrono::Timelike::num_seconds_from_midnight(&d),
            nanosecond: chrono::Timelike::nanosecond(&d),
        }),
        Err(_) => None,
    }
}

/// Calls `chrono::NaiveDate::parse_from_str`; the result is named by
/// `naive_date_of`.
#[verifier::external_body]
fn parse_naive_date(value: &str, fmt: &str) -> (r: Option<i32>)
    ensures
        r == naive_date_of(value@, fmt@),
{
    match chrono::NaiveDate::parse_from_str(value, fmt) {
        Ok(d) => Some(chrono::Datelike::num_days_from_ce(&d)),
        Err(_) => None,
    }
}

/// Calls `chrono::DateTime::parse_from_rfc3339` and takes the parsed
/// timestamp's local wall clock (`naive_local`, which holds for any parsed
/// timestamp since it was read from that wall clock); the result is named by
/// `rfc3339_local_of`.
#[verifier::external_body]
fn parse_rfc3339_local(value: &str) -> (r: Option<LocalDateTime>)
    ensures
        r == rfc3339_local_of(value@),
{
    match chrono::DateTime::parse_from_rfc3339(value) {
        Ok(t) => Some(LocalDateTime {
            day_number: chrono::Datelike::num_days_from_ce(&t.naive_local()),
            second_of_day: chrono::Timelike::num_seconds_from_midnight(&t.naive_local()),
            nanosecond: chrono::Timelike::nanosecond(&t.naive_local()),
        }),
        Err(_) => None,
    }
}

/// Midnight at the start of a day.
pub open spec fn midnight(day_number: i32) -> LocalDateTime {
    LocalDateTime { day_number, second_of_day: 0, nanosecond: 0 }
}

/// `2026-08-08T10:11:12.345`, with or without the fraction.
pub open spec fn iso_format() -> Seq<char> {
    "%Y-%m-%dT%H:%M:%S%.f"@
}

/// What this service prints back: `2026-08-08 10:11:12`.
pub open spec fn printed_format() -> Seq<char> {
    "%Y-%m-%d %H:%M:%S%.f"@
}

/// A bare date from a picker.
pub open spec fn date_format() -> Seq<char> {
    "%Y-%m-%d"@
}

/// The date a text holds, read in the formats clients send, newest style
/// first: ISO date-time, the printed date-time, a bare date (at midnight),
/// and an RFC 3339 timestamp (its local wall clock). A blank or absent text,
/// or one no format reads, holds none.
pub open spec fn parse_date_of(raw: Option<Seq<char>>) -> Option<LocalDateTime> {
    match raw {
        None => None,
        Some(r) => {
            let v = trim_seq(r);
            if v.len() == 0 {
                None
            } else if naive_datetime_of(v, iso_format()) is Some {
                naive_datetime_of(v, iso_format())
            } else if naive_datetime_of(v, printed_format()) is Some {
                naive_datetime_of(v, printed_format())
            } else if naive_date_of(v, date_format()) is Some {
                Some(midnight(naive_date_of(v, date_format())->0))
            } else {
                rfc3339_local_of(v)
            }
        },
    }
}

/// Reads the date formats clients send. Returns `None` for an absent, blank
/// or unreadable value, letting the caller fall back to "now".
pub fn parse_date(raw: &Option<String>) -> (r: Option<LocalDateTime>)
    ensures
        r == parse_date_of(match raw { Some(s) => Some(s@), None => None }),
{
    let value = match raw {
        Some(s) => trim(s.as_str()),
        None => return None,
    };
    if value.unicode_len() == 0 {
        return None;
    }
    if let Some(parsed) = parse_naive_datetime(value, "%Y-%m-%dT%H:%M:%S%.f") {
        return Some(parsed);
    }
    if let Some(parsed) = parse_naive_datetime(value, "%Y-%m-%d %H:%M:%S%.f") {
        return Some(parsed);
    }
    if let Some(day) = parse_naive_date(value, "%Y-%m-%d") {
        return Some(LocalDateTime { day_number: day, second_of_day: 0, nanosecond: 0 });
    }
    parse_rfc3339_local(value)
}

/// A blank or absent date text never yields a date, so the caller's
/// fallback applies.
pub proof fn law_blank_dates_fall_back(raw: Option<Seq<char>>)
    requires
        raw matches Some(r) ==> trim_seq(r).len() == 0,
    ensures
        parse_date_of(raw) is None,
{
}

} // verus!
