//! Wall-clock readings, done by the `chrono` crate.
use chrono::Datelike;
use vstd::prelude::*;

verus! {

/// What `chrono::DateTime::parse_from_rfc3339` gives for `s`, converted to
/// UTC and rendered as the time of day (`%H:%M`) and the day of the week
/// counted from Sunday (`0` to `6`): `None` when `s` is not RFC 3339.
pub uninterp spec fn rfc3339_utc_clock(s: Seq<char>) -> Option<(Seq<char>, Seq<char>)>;

/// The UTC time of day and day of week of an RFC 3339 timestamp.
///
/// Trusted: calls `chrono::DateTime::parse_from_rfc3339`, converts the
/// result to UTC, and renders it with `format("%H:%M")` and
/// `weekday().num_days_from_sunday()`. The contract claims only that the
/// outcome is a function of the timestamp text.
#[verifier::external_body]
pub(crate) fn utc_clock_of(s: &str) -> (r: Option<(String, String)>)
    ensures
        match r {
            Some(c) => rfc3339_utc_clock(s@) == Some((c.0@, c.1@)),
            None => rfc3339_utc_clock(s@) is None,
        },
{
    match chrono::DateTime::parse_from_rfc3339(s) {
        Ok(dt) => {
            let u = dt.with_timezone(&chrono::Utc);
            Some((u.format("%H:%M").to_string(), u.weekday().num_days_from_sunday().to_string()))
        },
        Err(_) => None,
    }
}

/// An ASCII decimal digit.
pub open spec fn is_digit(c: char) -> bool {
    '0' <= c && c <= '9'
}

/// A clock reading as the freeze check takes it: the time of day `t` as
/// `HH:MM` and the day of week `d` as one digit from `0` (Sunday) to `6`.
pub open spec fn clock_reading(t: Seq<char>, d: Seq<char>) -> bool {
    &&& t.len() == 5 && is_digit(t[0]) && is_digit(t[1]) && t[2] == ':' && is_digit(t[3])
        && is_digit(t[4])
    &&& d.len() == 1 && '0' <= d[0] && d[0] <= '6'
}

/// The current UTC time of day (`%H:%M`) and day of week counted from
/// Sunday.
///
/// Trusted: calls `chrono::Utc::now` and renders it with `format("%H:%M")`
/// (hour and minute, each zero-padded to two digits, per chrono's
/// `strftime` table) and `weekday().num_days_from_sunday()` (a number from
/// 0 to 6) written in decimal. Which time it is is not claimed: it depends
/// on the time of the call.
#[verifier::external_body]
pub(crate) fn utc_clock_now() -> (r: (String, String))
    ensures
        clock_reading(r.0@, r.1@),
{
    let u = chrono::Utc::now();
    (u.format("%H:%M").to_string(), u.weekday().num_days_from_sunday().to_string())
}

/// The current time as an RFC 3339 timestamp.
///
/// Trusted: calls `chrono::Utc::now` and renders it with `to_rfc3339`.
/// Nothing is claimed of the result: it depends on the time of the call.
#[verifier::external_body]
pub(crate) fn now_rfc3339() -> (r: String) {
    chrono::Utc::now().to_rfc3339()
}


/// Whole seconds from the RFC 3339 timestamp `s` to now.
///
/// Trusted: parses `s` with `chrono::DateTime::parse_from_rfc3339`,
/// converts it to UTC and computes `(chrono::Utc::now() - started)
/// .num_seconds()`. A number comes back exactly when `s` parses, which is
/// when `rfc3339_utc_clock` (the same parse) gives a reading; which number
/// is not claimed: it depends on the time of the call.
#[verifier::external_body]
pub(crate) fn seconds_since(s: &str) -> (r: Option<i64>)
    ensures
        r is Some <==> rfc3339_utc_clock(s@) is Some,
{
    match chrono::DateTime::parse_from_rfc3339(s) {
        Ok(dt) => {
            let started: chrono::DateTime<chrono::Utc> = dt.into();
            Some((chrono::Utc::now() - started).num_seconds())
        },
        Err(_) => None,
    }
}

} // verus!
