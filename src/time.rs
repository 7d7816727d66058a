use vstd::prelude::*;

verus! {

/// Whether a deadline `closes_at` has passed at time `now`: expiry is read
/// off the clock at each call, never stored.
pub fn is_expired(now: i64, closes_at: i64) -> (r: bool)
    ensures
        r == (now >= closes_at),
{
    now >= closes_at
}

} // verus!
