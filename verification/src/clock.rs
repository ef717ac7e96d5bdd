//! The wall clock.

use vstd::prelude::*;

verus! {

/// `chrono::Utc::now().timestamp()`: the current time in seconds since the
/// epoch. `Utc::now` takes the time as a span since the epoch, so the
/// result is never negative; it panics where the system clock stands
/// before the epoch. Two calls need not agree.
#[verifier::external_body]
pub(crate) fn unix_now() -> (now: i64)
    ensures
        now >= 0,
{
    chrono::Utc::now().timestamp()
}

} // verus!
