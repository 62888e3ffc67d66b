//! Time as the state machines see it: readings of the caller's monotonic
//! clock, in nanoseconds.

use vstd::prelude::*;

verus! {

/// The time from `start` to `now`; none where `now` is the earlier.
pub open spec fn time_between(start: nat, now: nat) -> nat {
    if now >= start {
        (now - start) as nat
    } else {
        0
    }
}

/// The time from `start` to `now`; none where `now` is the earlier.
pub fn elapsed_between(start: u128, now: u128) -> (r: u128)
    ensures
        r == time_between(start as nat, now as nat),
{
    if now >= start {
        now - start
    } else {
        0
    }
}

} // verus!
