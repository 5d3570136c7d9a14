//! The clock and fresh random identifiers, as the library reads them.
//! Of the time only its range is stated, and of the ids only their form:
//! the reading and the random bits are not.

use vstd::prelude::*;

verus! {

/// `Utc::now()` in nanoseconds since the Unix epoch, or 0 when the time
/// does not fit in an `i64` of nanoseconds.
#[verifier::external_body]
pub(crate) fn now_nanos() -> i64 {
    chrono::Utc::now().timestamp_nanos_opt().unwrap_or_default()
}

/// Whether `t` is a reading the millisecond clock can give: an `i64`
/// count of nanoseconds divided by a million.
pub open spec fn clock_millis(t: i64) -> bool {
    -9_223_372_036_854 <= t <= 9_223_372_036_854
}

/// The current time in milliseconds since the Unix epoch.
pub(crate) fn now_millis() -> (t: i64)
    ensures
        clock_millis(t),
{
    now_nanos() / 1_000_000
}

/// A lower-case hexadecimal digit.
pub open spec fn lower_hex_digit(c: char) -> bool {
    ('0' <= c <= '9') || ('a' <= c <= 'f')
}

/// The 32 digits of a version 4 UUID, written in lower case: digit 12 is
/// the version `4` and digit 16 the variant, one of `8`, `9`, `a`, `b`.
pub open spec fn v4_digits(d: Seq<char>) -> bool {
    &&& d.len() == 32
    &&& forall|i: int| 0 <= i < 32 ==> lower_hex_digit(#[trigger] d[i])
    &&& d[12] == '4'
    &&& (d[16] == '8' || d[16] == '9' || d[16] == 'a' || d[16] == 'b')
}

/// The lower-case hyphenated text of a version 4 UUID: its 32 digits in
/// groups of 8, 4, 4, 4 and 12, joined by `-`.
pub open spec fn v4_hyphenated(t: Seq<char>) -> bool {
    &&& t.len() == 36
    &&& t[8] == '-' && t[13] == '-' && t[18] == '-' && t[23] == '-'
    &&& v4_digits(t.subrange(0, 8) + t.subrange(9, 13) + t.subrange(14, 18) + t.subrange(19, 23)
        + t.subrange(24, 36))
}

/// `Uuid::new_v4()`, hyphenated: a fresh random id. Whatever the random
/// bits, it is the lower-case hyphenated text of a version 4 UUID.
#[verifier::external_body]
pub(crate) fn random_uuid() -> (r: String)
    ensures
        v4_hyphenated(r@),
{
    uuid::Uuid::new_v4().to_string()
}

/// `Uuid::new_v4()` in its simple form: a fresh random id, the 32
/// lower-case digits of a version 4 UUID.
#[verifier::external_body]
pub(crate) fn random_uuid_simple() -> (r: String)
    ensures
        v4_digits(r@),
{
    uuid::Uuid::new_v4().simple().to_string()
}

} // verus!
