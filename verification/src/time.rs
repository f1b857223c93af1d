use vstd::prelude::*;

verus! {

/// Nanoseconds in one second.
pub const NANOS_PER_SEC: u128 = 1_000_000_000;

/// Nanoseconds in one microsecond.
pub const NANOS_PER_MICRO: u128 = 1_000;

/// How long ago `since` was at `now`; zero when `since` lies after `now`.
pub open spec fn age(since: u128, now: u128) -> nat {
    if since <= now {
        (now - since) as nat
    } else {
        0
    }
}

/// The time that went by from `since` to `now`, saturating at zero when
/// `since` lies after `now`.
pub fn elapsed(since: u128, now: u128) -> (d: u128)
    ensures
        d == age(since, now),
{
    if since <= now {
        now - since
    } else {
        0
    }
}

/// A point in time is still fresh at `now` while it is younger than
/// `max_age`.
pub open spec fn is_fresh(since: u128, now: u128, max_age: u128) -> bool {
    age(since, now) < max_age
}

/// Whether `since` is still younger than `max_age` at `now`.
pub fn fresh(since: u128, now: u128, max_age: u128) -> (r: bool)
    ensures
        r == is_fresh(since, now, max_age),
{
    elapsed(since, now) < max_age
}


/// The age of a stamp is the time gone by since it, and zero for a stamp
/// that lies in the future; a stamp is fresh exactly while that age is below
/// the limit.
pub proof fn lemma_freshness(since: u128, now: u128, max_age: u128)
    ensures
        since <= now ==> age(since, now) == now - since,
        since > now ==> age(since, now) == 0,
        since <= now ==> (is_fresh(since, now, max_age) <==> now - since < max_age),
        since > now ==> (is_fresh(since, now, max_age) <==> max_age > 0),
        max_age == 0 ==> !is_fresh(since, now, max_age),
{
}

} // verus!
