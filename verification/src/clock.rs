//! Calendar text. Timestamps are turned into text by chrono; this module says
//! which patterns and which times it hands over, and splits a local time into
//! the hour of the day and the day it falls on.

use vstd::prelude::*;
use vstd::string::StrSliceExecFns;
use chrono::DateTime;
use chrono::Duration;
use chrono::Utc;
use crate::weather::OFFSET_LIMIT;
use crate::weather::TIME_LIMIT;

verus! {

/// Seconds in an hour.
pub const HOUR: i64 = 3600;

/// Seconds in a day.
pub const DAY: i64 = 86_400;

/// A field letter that may follow `%` directly.
pub open spec fn plain_field(c: char) -> bool {
    c == 'A' || c == 'B' || c == 'H' || c == 'I' || c == 'M' || c == 'S' || c == 'Y' || c == 'a'
        || c == 'b' || c == 'd' || c == 'e' || c == 'j' || c == 'm' || c == 'p' || c == 'y' || c
        == '%'
}

/// A padding flag between `%` and a numeric field letter.
pub open spec fn pad_flag(c: char) -> bool {
    c == '-' || c == '0' || c == '_'
}

/// A numeric field letter, which may follow a padding flag.
pub open spec fn numeric_field(c: char) -> bool {
    c == 'H' || c == 'I' || c == 'M' || c == 'S' || c == 'Y' || c == 'd' || c == 'e' || c == 'j'
        || c == 'm' || c == 'y'
}

/// Whether `s` from position `i` on is made of literal characters and of the
/// fields above.
pub open spec fn pattern_from(s: Seq<char>, i: int) -> bool
    decreases s.len() - i,
{
    if i >= s.len() {
        true
    } else if s[i] != '%' {
        pattern_from(s, i + 1)
    } else if i + 1 < s.len() && plain_field(s[i + 1]) {
        pattern_from(s, i + 2)
    } else if i + 2 < s.len() && pad_flag(s[i + 1]) && numeric_field(s[i + 2]) {
        pattern_from(s, i + 3)
    } else {
        false
    }
}

/// The time patterns that this library hands to chrono: literal text, and
/// `%` followed by one of `A B H I M S Y a b d e j m p y %`, the numeric ones
/// among them optionally with one of the flags `-`, `0`, `_` in between.
pub open spec fn time_pattern(s: Seq<char>) -> bool {
    pattern_from(s, 0)
}

/// The text that chrono gives for the time `dt + tz_offset` under a pattern.
pub uninterp spec fn formatted_time(dt: int, tz_offset: int, fmt: Seq<char>) -> Seq<char>;

/// `a / d` rounded towards zero, as the machine divides.
pub open spec fn trunc_div(a: int, d: int) -> int {
    if a >= 0 {
        a / d
    } else {
        -((-a) / d)
    }
}

/// The remainder that goes with `trunc_div`; it has the sign of `a`.
pub open spec fn trunc_rem(a: int, d: int) -> int {
    a - trunc_div(a, d) * d
}

/// Hour of the day of a local time; negative for a time before the epoch
/// that is not on the hour grid.
pub open spec fn hour_of_day(local: int) -> int {
    trunc_rem(trunc_div(local, HOUR as int), 24)
}

/// Whether a local time counts as night: before six or from eighteen hours on.
pub open spec fn is_night_hour(local: int) -> bool {
    hour_of_day(local) < 6 || hour_of_day(local) >= 18
}

/// Number of the day that a local time falls on.
pub open spec fn day_of(local: int) -> int {
    trunc_div(local, DAY as int)
}

/// Whether `fmt` is a pattern that `fmt_time` accepts.
pub fn is_time_pattern(fmt: &str) -> (ok: bool)
    ensures
        ok == time_pattern(fmt@),
{
    let n = fmt.unicode_len();
    let mut i: usize = 0;
    while i < n
        invariant
            n == fmt@.len(),
            i <= n,
            time_pattern(fmt@) == pattern_from(fmt@, i as int),
        decreases n - i,
    {
        let c = fmt.get_char(i);
        if c != '%' {
            i += 1;
        } else if n - i > 1 && is_plain_field(fmt.get_char(i + 1)) {
            i += 2;
        } else if n - i > 2 && is_pad_flag(fmt.get_char(i + 1)) && is_numeric_field(
            fmt.get_char(i + 2),
        ) {
            i += 3;
        } else {
            return false;
        }
    }
    true
}

fn is_plain_field(c: char) -> (b: bool)
    ensures
        b == plain_field(c),
{
    c == 'A' || c == 'B' || c == 'H' || c == 'I' || c == 'M' || c == 'S' || c == 'Y' || c == 'a'
        || c == 'b' || c == 'd' || c == 'e' || c == 'j' || c == 'm' || c == 'p' || c == 'y' || c
        == '%'
}

fn is_pad_flag(c: char) -> (b: bool)
    ensures
        b == pad_flag(c),
{
    c == '-' || c == '0' || c == '_'
}

fn is_numeric_field(c: char) -> (b: bool)
    ensures
        b == numeric_field(c),
{
    c == 'H' || c == 'I' || c == 'M' || c == 'S' || c == 'Y' || c == 'd' || c == 'e' || c == 'j'
        || c == 'm' || c == 'y'
}

/// The time `dt`, moved by `tz_offset` seconds, as text under the pattern
/// `fmt`.
///
/// Not verified: the body is the calls `DateTime::<Utc>::from_timestamp`,
/// `Duration::seconds`, the addition of the two, `DateTime::format` and
/// `to_string`. The contract claims that the text depends on the three
/// arguments alone, and gives it the name `formatted_time`. The `requires`
/// keeps to times that chrono can hold after the shift (its calendar ends
/// past the year 262000; the limit here is before the year 129000) and to
/// patterns that its formatter knows, since it panics on any other.
#[verifier::external_body]
pub fn fmt_time(dt: i64, tz_offset: i64, fmt: &str) -> (out: String)
    requires
        -TIME_LIMIT <= dt <= TIME_LIMIT,
        -OFFSET_LIMIT <= tz_offset <= OFFSET_LIMIT,
        time_pattern(fmt@),
    ensures
        out@ == formatted_time(dt as int, tz_offset as int, fmt@),
{
    let utc = match DateTime::<Utc>::from_timestamp(dt, 0) {
        Some(t) => t,
        None => DateTime::<Utc>::UNIX_EPOCH,
    };
    let shifted = utc + Duration::seconds(tz_offset);
    shifted.format(fmt).to_string()
}

/// `a / d` for a positive `d`, rounded towards zero.
pub fn div_trunc(a: i64, d: i64) -> (q: i64)
    requires
        d > 0,
    ensures
        q == trunc_div(a as int, d as int),
{
    match a.checked_div(d) {
        Some(q) => q,
        None => 0,
    }
}

/// Whether the local time `dt + tz_offset` counts as night.
pub fn is_night_at(dt: i64, tz_offset: i64) -> (night: bool)
    requires
        -TIME_LIMIT <= dt <= TIME_LIMIT,
        -OFFSET_LIMIT <= tz_offset <= OFFSET_LIMIT,
    ensures
        night == is_night_hour(dt + tz_offset),
{
    let hours: i64 = div_trunc(dt + tz_offset, HOUR);
    let days: i64 = div_trunc(hours, 24);
    let hour: i64 = hours - days * 24;
    hour < 6 || hour >= 18
}

/// Number of the day that the local time `dt + tz_offset` falls on.
pub fn day_number(dt: i64, tz_offset: i64) -> (day: i64)
    requires
        -TIME_LIMIT <= dt <= TIME_LIMIT,
        -OFFSET_LIMIT <= tz_offset <= OFFSET_LIMIT,
    ensures
        day == day_of(dt + tz_offset),
{
    div_trunc(dt + tz_offset, DAY)
}

} // verus!
