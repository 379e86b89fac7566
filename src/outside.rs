//! The calls that the session makes into the clock, the random number
//! generator and the standard library's character and number handling.
use vstd::prelude::*;
use rand::Rng;
use crate::models::valid_moment;

verus! {

/// Relies on chrono's `Local::now` and `DateTime::timestamp_millis`: the
/// current time in milliseconds since the epoch. chrono's calendar spans the
/// years -262143 to 262142, which keeps every timestamp within
/// `MOMENT_LIMIT_MS`.
#[verifier::external_body]
pub(crate) fn now_millis() -> (t: i64)
    ensures
        valid_moment(t),
{
    chrono::Local::now().timestamp_millis()
}

/// Relies on rand's `thread_rng().gen_range(lo..=hi)`: a value drawn from the
/// inclusive range; it panics on an empty range.
#[verifier::external_body]
pub(crate) fn random_in_range(lo: i32, hi: i32) -> (r: i32)
    requires
        lo <= hi,
    ensures
        lo <= r <= hi,
{
    rand::thread_rng().gen_range(lo..=hi)
}

/// Whether Unicode classifies `c` as a number (general categories Nd, Nl
/// and No).
pub uninterp spec fn numeric_char(c: char) -> bool;

/// Relies on `char::is_numeric`.
#[verifier::external_body]
pub(crate) fn char_is_numeric(c: char) -> (r: bool)
    ensures
        r == numeric_char(c),
{
    c.is_numeric()
}

/// An ASCII decimal digit.
pub open spec fn is_ascii_digit(c: char) -> bool {
    '0' <= c <= '9'
}

/// The number that a string of ASCII digits spells.
pub open spec fn digits_value(s: Seq<char>) -> int
    decreases s.len(),
{
    if s.len() == 0 {
        0
    } else {
        digits_value(s.drop_last()) * 10 + (s.last() as u32 - '0' as u32)
    }
}

/// The integer that `s` spells in decimal: an optional `+` or `-` followed
/// by one or more ASCII digits, and nothing else.
pub open spec fn decimal_value(s: Seq<char>) -> Option<int> {
    let signed = s.len() > 0 && (s[0] == '-' || s[0] == '+');
    let body = if signed { s.drop_first() } else { s };
    if body.len() > 0 && forall|i: int| 0 <= i < body.len() ==> is_ascii_digit(#[trigger] body[i]) {
        Some(if signed && s[0] == '-' { -digits_value(body) } else { digits_value(body) })
    } else {
        None
    }
}

/// The `i32` that `s` spells, if it spells one in range.
pub open spec fn parsed_i32(s: Seq<char>) -> Option<i32> {
    match decimal_value(s) {
        Some(v) => if i32::MIN <= v <= i32::MAX { Some(v as i32) } else { None },
        None => None,
    }
}

/// Relies on `str::parse::<i32>`: an optional sign and ASCII digits, and an
/// error on anything else or on overflow.
#[verifier::external_body]
pub(crate) fn parse_i32(s: &str) -> (r: Option<i32>)
    ensures
        r == parsed_i32(s@),
{
    s.parse::<i32>().ok()
}

} // verus!
