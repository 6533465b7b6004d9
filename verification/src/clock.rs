use vstd::prelude::*;

verus! {

/// A decimal digit character.
pub open spec fn is_digit(c: char) -> bool {
    '0' <= c && c <= '9'
}

/// An ISO-8601 UTC timestamp with millisecond precision: a year of at
/// least four digits (a sign ahead of them for years before year zero
/// or past four digits), then fixed-width month, day, time and
/// milliseconds, ending in the UTC marker 'Z' — the shape
/// `YYYY-MM-DDTHH:MM:SS.mmmZ`.
pub open spec fn is_utc_timestamp(s: Seq<char>) -> bool {
    let n = s.len() as int;
    &&& n >= 24
    &&& (is_digit(s[0]) || s[0] == '-' || s[0] == '+')
    &&& (!is_digit(s[0]) ==> n >= 25)
    &&& forall|i: int| 1 <= i < n - 20 ==> is_digit(#[trigger] s[i])
    &&& s[n - 20] == '-'
    &&& is_digit(s[n - 19]) && is_digit(s[n - 18])
    &&& s[n - 17] == '-'
    &&& is_digit(s[n - 16]) && is_digit(s[n - 15])
    &&& s[n - 14] == 'T'
    &&& is_digit(s[n - 13]) && is_digit(s[n - 12])
    &&& s[n - 11] == ':'
    &&& is_digit(s[n - 10]) && is_digit(s[n - 9])
    &&& s[n - 8] == ':'
    &&& is_digit(s[n - 7]) && is_digit(s[n - 6])
    &&& s[n - 5] == '.'
    &&& is_digit(s[n - 4]) && is_digit(s[n - 3]) && is_digit(s[n - 2])
    &&& s[n - 1] == 'Z'
}

/// Relies on `chrono::Utc::now`, `DateTime::format` and
/// `DateTime::timestamp_millis`: one reading of the wall clock in UTC,
/// handed back as plain values — the instant rendered with the fixed
/// strftime layout `%Y-%m-%dT%H:%M:%S.%3fZ`, and the same instant as
/// milliseconds since the epoch.  When the reading was taken cannot be
/// promised; the rendering's shape can: chrono prints the year as at
/// least four zero-padded digits (a sign ahead of them for years
/// before year zero or past four digits), every other field at fixed
/// width, and the literal separators of the format string, which is
/// the shape [`is_utc_timestamp`] states.
#[verifier::external_body]
pub(crate) fn clock_reading() -> (r: (String, i64))
    ensures
        is_utc_timestamp(r.0@),
{
    let t = chrono::Utc::now();
    (t.format("%Y-%m-%dT%H:%M:%S.%3fZ").to_string(), t.timestamp_millis())
}

/// The wall-clock milliseconds from `start_ms` to `now_ms`; a clock
/// that moved backwards in between counts as zero elapsed time.
pub open spec fn spec_elapsed(start_ms: i64, now_ms: i64) -> u64 {
    if now_ms <= start_ms {
        0
    } else {
        (now_ms - start_ms) as u64
    }
}

/// Computes the elapsed milliseconds between two clock readings.
pub fn elapsed_millis(start_ms: i64, now_ms: i64) -> (r: u64)
    ensures
        r == spec_elapsed(start_ms, now_ms),
{
    if now_ms <= start_ms {
        0
    } else {
        let d: i128 = (now_ms as i128) - (start_ms as i128);
        d as u64
    }
}

} // verus!
