//! Instants of time written in RFC 3339, read with `chrono`.
use vstd::prelude::*;

use crate::text::{all_digits, digits_value};

verus! {

/// Whether `chrono::DateTime::parse_from_rfc3339` accepts the text.
pub uninterp spec fn rfc3339_accepts(text: Seq<char>) -> bool;

/// The number written by two digits.
pub open spec fn two_digits(t: Seq<char>, i: int) -> nat {
    digits_value(t.subrange(i, i + 2))
}

/// The text has the form `YYYY-MM-DDTHH:MM:SS.000Z` as far as its
/// separators go (the other positions are checked by `iso_fields_valid`).
pub open spec fn iso_shape(t: Seq<char>) -> bool {
    &&& t.len() == 24
    &&& t[4] == '-' && t[7] == '-' && t[10] == 'T' && t[13] == ':' && t[16] == ':'
    &&& t.subrange(19, 24) == ".000Z"@
}

pub open spec fn is_leap_year(y: nat) -> bool {
    y % 4 == 0 && (y % 100 != 0 || y % 400 == 0)
}

pub open spec fn days_in_month(y: nat, m: nat) -> nat {
    if m == 2 {
        if is_leap_year(y) { 29 } else { 28 }
    } else if m == 4 || m == 6 || m == 9 || m == 11 {
        30
    } else {
        31
    }
}

/// The digit positions of a text of `iso_shape` hold digits that make a
/// date of the Gregorian calendar and a time of day, with a second of 60 for
/// a leap second.
pub open spec fn iso_fields_valid(t: Seq<char>) -> bool {
    &&& all_digits(t.subrange(0, 4))
    &&& all_digits(t.subrange(5, 7))
    &&& all_digits(t.subrange(8, 10))
    &&& all_digits(t.subrange(11, 13))
    &&& all_digits(t.subrange(14, 16))
    &&& all_digits(t.subrange(17, 19))
    &&& 1 <= two_digits(t, 5) <= 12
    &&& 1 <= two_digits(t, 8) <= days_in_month(digits_value(t.subrange(0, 4)), two_digits(t, 5))
    &&& two_digits(t, 11) <= 23
    &&& two_digits(t, 14) <= 59
    &&& two_digits(t, 17) <= 60
}

/// Whether `chrono::DateTime::parse_from_rfc3339` accepts `text`. On a text
/// of the form `YYYY-MM-DDTHH:MM:SS.000Z` the source (the fixed-width path of
/// its parser, then `NaiveDate::from_ymd_opt` and
/// `NaiveTime::from_hms_nano_opt`, with second 60 read as a leap second)
/// accepts exactly the valid dates and times; on other texts the result is
/// only named.
#[verifier::external_body]
pub(crate) fn rfc3339_valid(text: &str) -> (r: bool)
    ensures
        r == rfc3339_accepts(text@),
        iso_shape(text@) ==> (r <==> iso_fields_valid(text@)),
{
    chrono::DateTime::parse_from_rfc3339(text).is_ok()
}

/// The earliest and the latest second, counted from the Unix epoch, that a
/// `chrono::DateTime<Utc>` can hold: those of January 1 of year -262143 at
/// 00:00:00 and of December 31 of year 262142 at 23:59:59, the ends of
/// `NaiveDate`'s range.
pub const MIN_UTC_SECS: i64 = -8_334_601_228_800;
pub const MAX_UTC_SECS: i64 = 8_210_266_876_799;

/// `secs` seconds and `nanos` nanoseconds after the Unix epoch is an instant
/// that `chrono` holds, outside a leap second.
pub open spec fn utc_instant(secs: i64, nanos: u32) -> bool {
    MIN_UTC_SECS <= secs <= MAX_UTC_SECS && nanos < 1_000_000_000
}

/// What `DateTime::from_timestamp(now_secs, now_nanos)`, minus the instant
/// `DateTime::parse_from_rfc3339` reads in `then`, counts in whole seconds
/// (`TimeDelta::num_seconds`, truncated toward zero).
pub uninterp spec fn rfc3339_seconds_until(then: Seq<char>, now_secs: i64, now_nanos: u32) -> i64;

/// The whole seconds from the instant written in `then` to the instant
/// `now_secs`, `now_nanos` after the Unix epoch: `chrono` reads both
/// (`parse_from_rfc3339`, `from_timestamp`, which accept them under the
/// `requires`), subtracts (`signed_duration_since`) and counts whole seconds
/// (`num_seconds`). The result is named.
#[verifier::external_body]
pub(crate) fn seconds_until(then: &str, now_secs: i64, now_nanos: u32) -> (r: i64)
    requires
        rfc3339_accepts(then@),
        utc_instant(now_secs, now_nanos),
    ensures
        r == rfc3339_seconds_until(then@, now_secs, now_nanos),
{
    match (chrono::DateTime::parse_from_rfc3339(then), chrono::DateTime::from_timestamp(now_secs, now_nanos)) {
        (Ok(t), Some(n)) => n.signed_duration_since(t).num_seconds(),
        _ => 0,
    }
}

} // verus!
