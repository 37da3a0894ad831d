//! Wall-clock readings for liveness stamps and work-time accounting.

use vstd::prelude::*;

verus! {

/// The stamp a clock reading yields: the reading itself, or `prev` when the
/// clock could not be read.
pub open spec fn stamp_or(reading: Option<i64>, prev: i64) -> i64 {
    match reading {
        Some(n) => n,
        None => prev,
    }
}

/// One wall-clock reading: a signed nanosecond count, or `None` when the
/// clock cannot be read or its value does not fit 64 bits.
///
/// Relies on `hifitime::Epoch::now`, which reads the system clock, and on
/// `hifitime::Duration::try_truncated_nanoseconds`, which turns the epoch's
/// duration into its total nanoseconds when they fit a signed 64-bit count.
/// The value depends on the clock, so nothing is promised of it.
#[verifier::external_body]
pub(crate) fn clock_now_nanos() -> Option<i64> {
    match hifitime::Epoch::now() {
        Ok(e) => match e.duration.try_truncated_nanoseconds() {
            Ok(n) => Some(n),
            Err(_) => None,
        },
        Err(_) => None,
    }
}

} // verus!
