//! The calendar side of a reading of the clock, computed by `chrono`.

use vstd::prelude::*;
use chrono::DateTime;
use std::fmt::Write;
use crate::utils::SecType;

verus! {

/// The UTC calendar date of the second `secs` after the Unix epoch, as
/// `chrono` prints a `NaiveDate`; nothing where `chrono` has no date for it.
pub uninterp spec fn utc_date_of(secs: i64) -> Option<Seq<char>>;

/// The UTC calendar date and time of day of the second `secs` after the
/// Unix epoch, as `chrono` formats them; nothing where `chrono` has no date
/// for it.
pub uninterp spec fn utc_stamp_of(secs: i64) -> Option<Seq<char>>;

/// The text that a string holds, where there is one.
pub open spec fn text_of(string: Option<String>) -> Option<Seq<char>> {
    match string {
        Some(text) => Some(text@),
        None => None,
    }
}

/// The calendar date of the reading `now`: empty where the reading lies
/// beyond the dates that `chrono` knows.
pub open spec fn date_at(now: SecType) -> Seq<char> {
    if now <= i64::MAX {
        match utc_date_of(now as i64) {
            Some(text) => text,
            None => Seq::empty(),
        }
    } else {
        Seq::empty()
    }
}

/// The date and time of day of the reading `now`: empty where the reading
/// lies beyond the dates that `chrono` knows.
pub open spec fn stamp_at(now: SecType) -> Seq<char> {
    if now <= i64::MAX {
        match utc_stamp_of(now as i64) {
            Some(text) => text,
            None => Seq::empty(),
        }
    } else {
        Seq::empty()
    }
}

/// `DateTime::from_timestamp` makes the UTC date and time of `secs`, or
/// nothing where `secs` is out of its range; `naive_utc` and `date` take the
/// date from it, and the `Display` of `NaiveDate` writes it as year, month
/// and day. The result is a function of `secs` alone: no clock, time zone or
/// locale is read. A failure to write counts as no date.
#[verifier::external_body]
fn chrono_date_text(secs: i64) -> (date: Option<String>)
    ensures
        text_of(date) == utc_date_of(secs),
{
    let at = DateTime::from_timestamp(secs, 0)?;
    let mut text = String::new();
    write!(text, "{}", at.naive_utc().date()).ok()?;
    Some(text)
}

/// `DateTime::from_timestamp` makes the UTC date and time of `secs`, or
/// nothing where `secs` is out of its range; `naive_utc`, `date` and `time`
/// take the two parts from it. The date is written by the `Display` of
/// `NaiveDate`, then a space, then the time as `NaiveTime::format` writes
/// hours, minutes and seconds. The result is a function of `secs` alone: no
/// clock, time zone or locale is read. A failure to write counts as no
/// stamp.
#[verifier::external_body]
fn chrono_stamp_text(secs: i64) -> (stamp: Option<String>)
    ensures
        text_of(stamp) == utc_stamp_of(secs),
{
    let at = DateTime::from_timestamp(secs, 0)?;
    let mut text = String::new();
    write!(text, "{} {}", at.naive_utc().date(), at.naive_utc().time().format("%H:%M:%S")).ok()?;
    Some(text)
}

/// The calendar date of the reading `now`, in UTC.
pub fn utc_date_text(now: SecType) -> (date: String)
    ensures
        date@ == date_at(now),
{
    if now <= i64::MAX as u64 {
        match chrono_date_text(now as i64) {
            Some(text) => text,
            None => String::new(),
        }
    } else {
        String::new()
    }
}

/// The calendar date and the time of day of the reading `now`, in UTC.
pub fn utc_stamp_text(now: SecType) -> (stamp: String)
    ensures
        stamp@ == stamp_at(now),
{
    if now <= i64::MAX as u64 {
        match chrono_stamp_text(now as i64) {
            Some(text) => text,
            None => String::new(),
        }
    } else {
        String::new()
    }
}

} // verus!
