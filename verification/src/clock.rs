//! The wall clock.

use vstd::prelude::*;

verus! {

/// Reads the wall clock with `chrono::Utc::now()` and converts the instant
/// with `DateTime::timestamp_millis`: milliseconds since the Unix epoch. The
/// clock decides the value; all that is claimed is that it does not lie
/// before the epoch, since chrono builds the instant from the time elapsed
/// since then. chrono stops the program if the system clock is set before
/// 1970.
#[verifier::external_body]
pub(crate) fn unix_millis_now() -> (t: i64)
    ensures
        t >= 0,
{
    chrono::Utc::now().timestamp_millis()
}

/// Reads the wall clock with `chrono::Utc::now()` and converts the instant
/// with `DateTime::timestamp`: whole seconds since the Unix epoch. As with
/// the milliseconds, all that is claimed is that the value does not lie
/// before the epoch.
#[verifier::external_body]
pub(crate) fn unix_seconds_now() -> (t: i64)
    ensures
        t >= 0,
{
    chrono::Utc::now().timestamp()
}

} // verus!
