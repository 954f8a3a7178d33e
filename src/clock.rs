//! Wall-clock time, read through chrono.

use vstd::prelude::*;

verus! {

/// A bound on chrono timestamps: chrono's dates end in the year 262143,
/// less than 2^43 seconds after the epoch.
pub const TIMESTAMP_BOUND: i64 = 8_796_093_022_208;

/// Relies on `chrono::Local::now` and `DateTime::timestamp`: the current time
/// in whole seconds since the Unix epoch, within chrono's representable range.
/// chrono reads the system clock and panics if it reads before 1970, so a
/// clock set before the epoch is outside what this library supports.
#[verifier::external_body]
pub(crate) fn unix_now() -> (r: i64)
    ensures
        0 <= r < TIMESTAMP_BOUND,
{
    chrono::Local::now().timestamp()
}

} // verus!
