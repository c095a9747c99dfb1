//! Dates for display: what is taken on trust from `chrono`.

use vstd::prelude::*;
use crate::models::opt_text;

verus! {

/// The day of an instant in UTC, written as month name, day and year
/// (`January 05, 2024`); `None` for an instant that `chrono` cannot hold.
pub uninterp spec fn long_date(instant: i64) -> Option<Seq<char>>;

/// `chrono::DateTime::from_timestamp` and `format` with `%B %d, %Y`: a
/// function of the instant alone.
#[verifier::external_body]
pub(crate) fn format_long_date(instant: i64) -> (r: Option<String>)
    ensures
        opt_text(r) == long_date(instant),
{
    chrono::DateTime::from_timestamp(instant, 0).map(|day| day.format("%B %d, %Y").to_string())
}

} // verus!
