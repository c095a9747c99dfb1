//! What only the machine can supply: the time and fresh identifiers.
//! Of the time only the span is known that it lies in; of an identifier, its
//! shape.

use vstd::prelude::*;

verus! {

/// One of the digits and letters of a number written to the base 16 in small
/// letters.
pub open spec fn is_lower_hex(c: char) -> bool {
    ('0' <= c <= '9') || ('a' <= c <= 'f')
}

/// The shape of an identifier: 36 characters, hyphens at the places 8, 13, 18
/// and 23, and digits to the base 16 in small letters at the others.
pub open spec fn is_hyphenated_id(s: Seq<char>) -> bool {
    &&& s.len() == 36
    &&& s[8] == '-' && s[13] == '-' && s[18] == '-' && s[23] == '-'
    &&& forall|i: int|
        0 <= i < 36 && i != 8 && i != 13 && i != 18 && i != 23 ==> is_lower_hex(#[trigger] s[i])
}

/// The earliest instant that the clock is known not to fall below.
pub const CLOCK_MIN: i64 = -0x1_0000_0000_0000;

/// The latest instant that the clock is known not to pass.
pub const CLOCK_MAX: i64 = 0x1_0000_0000_0000;

/// An instant that the clock can read: within 2^48 seconds of the epoch.
pub open spec fn is_clock_instant(now: i64) -> bool {
    CLOCK_MIN <= now <= CLOCK_MAX
}

/// `chrono::Utc::now` as whole seconds since the Unix epoch. chrono makes
/// the instant with `DateTime::from_timestamp`, which holds the number of the
/// day in 32 bits, so the seconds lie within 2^31 days of the epoch, which is
/// less than 2^48 seconds.
#[verifier::external_body]
pub(crate) fn unix_now() -> (now: i64)
    ensures
        is_clock_instant(now),
{
    chrono::Utc::now().timestamp()
}

/// `uuid::Uuid::new_v4` in the text form that `Display` gives it: a random
/// identifier, hyphenated and in small letters.
#[verifier::external_body]
pub(crate) fn fresh_id() -> (id: String)
    ensures
        is_hyphenated_id(id@),
{
    uuid::Uuid::new_v4().to_string()
}

} // verus!
