//! Reading dates and date-times written in the common formats.

use chrono::{Datelike, NaiveDate, NaiveDateTime};
use vstd::prelude::*;

verus! {

/// The instant, in seconds since the Unix epoch, that chrono reads from
/// `s` with the format `fmt`, if it reads one.
pub uninterp spec fn datetime_parsed(s: Seq<char>, fmt: Seq<char>) -> Option<i64>;

/// The day, counted from 0001-01-01 as day 1, that chrono reads from `s`
/// with the format `fmt`, if it reads one.
pub uninterp spec fn date_parsed(s: Seq<char>, fmt: Seq<char>) -> Option<i32>;

/// Relies on `chrono::NaiveDateTime::parse_from_str`, with the result read
/// as a UTC timestamp by `and_utc().timestamp()`.
#[verifier::external_body]
fn datetime_with_format(s: &str, fmt: &str) -> (r: Option<i64>)
    ensures
        r == datetime_parsed(s@, fmt@),
{
    match NaiveDateTime::parse_from_str(s, fmt) {
        Ok(d) => Some(d.and_utc().timestamp()),
        Err(_) => None,
    }
}

/// Relies on `chrono::NaiveDate::parse_from_str`, with the result read as
/// `Datelike::num_days_from_ce`.
#[verifier::external_body]
fn date_with_format(s: &str, fmt: &str) -> (r: Option<i32>)
    ensures
        r == date_parsed(s@, fmt@),
{
    match NaiveDate::parse_from_str(s, fmt) {
        Ok(d) => Some(d.num_days_from_ce()),
        Err(_) => None,
    }
}

/// Number of accepted formats, with or without a time.
pub const FORMAT_COUNT: usize = 7;

/// Day number (counted from 0001-01-01 as day 1) of 1970-01-01.
pub const UNIX_EPOCH_DAY: i64 = 719_163;

/// Seconds in a day.
pub const SECONDS_PER_DAY: i64 = 86_400;

/// The accepted date-time formats, in the order they are tried.
pub open spec fn datetime_formats() -> Seq<Seq<char>> {
    seq![
        "%Y/%m/%d %H:%M:%S"@,
        "%m/%d/%Y %H:%M:%S"@,
        "%d-%m-%Y %H:%M:%S"@,
        "%d/%m/%Y %H:%M:%S"@,
        "%Y-%m-%d %H:%M:%S"@,
        "%Y.%m.%d %H:%M:%S"@,
        "%d.%m.%Y %H:%M:%S"@,
    ]
}

/// The accepted date formats, in the order they are tried.
pub open spec fn date_formats() -> Seq<Seq<char>> {
    seq!["%Y/%m/%d"@, "%m/%d/%Y"@, "%d-%m-%Y"@, "%d/%m/%Y"@, "%Y-%m-%d"@, "%Y.%m.%d"@, "%d.%m.%Y"@]
}

/// The first reading of `s` by one of `fmts`, trying them in order.
pub open spec fn first_datetime(s: Seq<char>, fmts: Seq<Seq<char>>) -> Option<i64>
    decreases fmts.len(),
{
    if fmts.len() == 0 {
        None
    } else {
        match datetime_parsed(s, fmts[0]) {
            Some(t) => Some(t),
            None => first_datetime(s, fmts.drop_first()),
        }
    }
}

/// The first reading of `s` as a date by one of `fmts`, trying them in order.
pub open spec fn first_date(s: Seq<char>, fmts: Seq<Seq<char>>) -> Option<i32>
    decreases fmts.len(),
{
    if fmts.len() == 0 {
        None
    } else {
        match date_parsed(s, fmts[0]) {
            Some(d) => Some(d),
            None => first_date(s, fmts.drop_first()),
        }
    }
}

/// The instant at which the day `d` starts.
pub open spec fn day_start(d: i32) -> i64 {
    ((d as i64 - UNIX_EPOCH_DAY) * SECONDS_PER_DAY) as i64
}

/// The date-time format tried in position `k`.
fn datetime_format(k: usize) -> (r: &'static str)
    requires
        k < FORMAT_COUNT,
    ensures
        r@ == datetime_formats()[k as int],
{
    match k {
        0 => "%Y/%m/%d %H:%M:%S",
        1 => "%m/%d/%Y %H:%M:%S",
        2 => "%d-%m-%Y %H:%M:%S",
        3 => "%d/%m/%Y %H:%M:%S",
        4 => "%Y-%m-%d %H:%M:%S",
        5 => "%Y.%m.%d %H:%M:%S",
        _ => "%d.%m.%Y %H:%M:%S",
    }
}

/// The date format tried in position `k`.
fn date_format(k: usize) -> (r: &'static str)
    requires
        k < FORMAT_COUNT,
    ensures
        r@ == date_formats()[k as int],
{
    match k {
        0 => "%Y/%m/%d",
        1 => "%m/%d/%Y",
        2 => "%d-%m-%Y",
        3 => "%d/%m/%Y",
        4 => "%Y-%m-%d",
        5 => "%Y.%m.%d",
        _ => "%d.%m.%Y",
    }
}

/// Reads a date with a time of day, trying each accepted format in turn.
pub fn parse_with_time(date: &str) -> (r: Option<i64>)
    ensures
        r == first_datetime(date@, datetime_formats()),
{
    let ghost all = datetime_formats();
    let mut k: usize = 0;
    assert(all.subrange(0, all.len() as int) =~= all);
    while k < FORMAT_COUNT
        invariant
            k <= FORMAT_COUNT,
            all == datetime_formats(),
            all.len() == FORMAT_COUNT,
            first_datetime(date@, all) == first_datetime(date@, all.subrange(k as int, all.len() as int)),
        decreases FORMAT_COUNT - k,
    {
        let fmt = datetime_format(k);
        let ghost rest = all.subrange(k as int, all.len() as int);
        assert(rest[0] == all[k as int]);
        assert(rest.drop_first() =~= all.subrange(k + 1, all.len() as int));
        if let Some(t) = datetime_with_format(date, fmt) {
            return Some(t);
        }
        k = k + 1;
    }
    None
}

/// Reads a date without a time of day, trying each accepted format in turn;
/// the result counts days from 0001-01-01 as day 1.
pub fn parse_date(date: &str) -> (r: Option<i32>)
    ensures
        r == first_date(date@, date_formats()),
{
    let ghost all = date_formats();
    let mut k: usize = 0;
    assert(all.subrange(0, all.len() as int) =~= all);
    while k < FORMAT_COUNT
        invariant
            k <= FORMAT_COUNT,
            all == date_formats(),
            all.len() == FORMAT_COUNT,
            first_date(date@, all) == first_date(date@, all.subrange(k as int, all.len() as int)),
        decreases FORMAT_COUNT - k,
    {
        let fmt = date_format(k);
        let ghost rest = all.subrange(k as int, all.len() as int);
        assert(rest[0] == all[k as int]);
        assert(rest.drop_first() =~= all.subrange(k + 1, all.len() as int));
        if let Some(d) = date_with_format(date, fmt) {
            return Some(d);
        }
        k = k + 1;
    }
    None
}

/// Reads a date-time, or else a date taken at midnight (UTC); the result
/// is in seconds since the Unix epoch.
pub fn parse(date: &str) -> (r: Option<i64>)
    ensures
        r == match first_datetime(date@, datetime_formats()) {
            Some(t) => Some(t),
            None => match first_date(date@, date_formats()) {
                Some(d) => Some(day_start(d)),
                None => None,
            },
        },
{
    if let Some(date_time) = parse_with_time(date) {
        return Some(date_time);
    }
    if let Some(day) = parse_date(date) {
        let diff: i64 = day as i64 - UNIX_EPOCH_DAY;
        assert(-0x1_0000_0000 * SECONDS_PER_DAY <= diff * SECONDS_PER_DAY <= 0x1_0000_0000
            * SECONDS_PER_DAY) by (nonlinear_arith)
            requires
                -0x1_0000_0000 <= diff <= 0x1_0000_0000,
        ;
        let start = diff * SECONDS_PER_DAY;
        return Some(start);
    }
    None
}

} // verus!
