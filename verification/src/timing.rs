//! Durations of the solves a plot rests on, added up as the solves are made.

use vstd::prelude::*;

use std::time::Duration;

verus! {

/// The duration `Duration::from_secs` makes of `secs` whole seconds.
pub uninterp spec fn duration_of_secs(secs: u64) -> Duration;

/// The duration `Duration::saturating_add` gives for `total` and `elapsed`: their sum, or the
/// largest duration where the sum would not fit.
pub uninterp spec fn saturating_sum(total: Duration, elapsed: Duration) -> Duration;

/// `std::time::Duration::from_secs`: the duration of `secs` whole seconds.  The contract claims
/// only that the result depends on `secs` alone; Verus sees nothing inside a `Duration`.
#[verifier::external_body]
pub(crate) fn duration_from_secs(secs: u64) -> (duration: Duration)
    ensures
        duration == duration_of_secs(secs),
{
    Duration::from_secs(secs)
}

/// `std::time::Duration::saturating_add`: `total + elapsed`, or `Duration::MAX` where that
/// would overflow (it never panics).  The contract claims only that the result depends on the
/// two durations alone; Verus sees nothing inside a `Duration`.
#[verifier::external_body]
pub(crate) fn add_durations(total: Duration, elapsed: Duration) -> (sum: Duration)
    ensures
        sum == saturating_sum(total, elapsed),
{
    total.saturating_add(elapsed)
}

/// The total time of solves that took `times`, added up in order from nothing.
pub open spec fn total_time(times: Seq<Duration>) -> Duration
    decreases times.len(),
{
    if times.len() == 0 {
        duration_of_secs(0)
    } else {
        saturating_sum(total_time(times.drop_last()), times.last())
    }
}

} // verus!
