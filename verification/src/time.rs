//! Instants as seconds since 1970-01-01 00:00:00 UTC.

use vstd::prelude::*;

verus! {

/// The first second that a `chrono::DateTime<Utc>` can stand for: the start of the year
/// -262143.
pub const FIRST_SECOND: i64 = -8_334_601_228_800;

/// The last second that a `chrono::DateTime<Utc>` can stand for: the end of the year 262142.
pub const LAST_SECOND: i64 = 8_210_266_876_799;

/// `chrono::DateTime::from_timestamp` without a fraction of a second, read back with
/// `chrono::DateTime::timestamp`.
///
/// Claims that there is an instant exactly for the seconds from `DateTime::MIN_UTC` to
/// `DateTime::MAX_UTC`, and, as the documentation guarantees, that the instant's timestamp
/// is the number of seconds that it was made of.
#[verifier::external_body]
pub(crate) fn instant(seconds: i64) -> (instant: Option<i64>)
    ensures
        instant == (if FIRST_SECOND <= seconds <= LAST_SECOND {
            Some(seconds)
        } else {
            None
        }),
{
    chrono::DateTime::<chrono::Utc>::from_timestamp(seconds, 0).map(|at| at.timestamp())
}

} // verus!
