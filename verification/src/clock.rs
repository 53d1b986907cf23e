//! Readings of the clock.
use vstd::prelude::*;

use crate::outside::clock_now;
use crate::time::Timestamp;

verus! {

/// A reading of the clock gave this point in time.
pub closed spec fn clock_gave(now: Timestamp) -> bool {
    call_ensures(clock_now, (), now)
}

/// Reads the clock.
pub(crate) fn read_clock() -> (now: Timestamp)
    ensures
        now.shown(),
        clock_gave(now),
{
    clock_now()
}

/// What the clock gave is what its reading returned, as it stands.
pub(crate) proof fn law_readings_are_unchanged(now: Timestamp)
    ensures
        clock_gave(now) <==> call_ensures(clock_now, (), now),
{
}

/// What the clock gave is a point that it can show.
pub proof fn law_clock_shows_what_it_gave(now: Timestamp)
    requires
        clock_gave(now),
    ensures
        now.shown(),
{
}

}
