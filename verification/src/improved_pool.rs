//! The fixed settings of the pool of TCP streams that drops expired idle
//! streams whenever a stream is asked for.

use vstd::prelude::*;

verus! {

/// How long a stream may stay idle: 5 minutes.
pub const MAX_IDLE_TIME: u128 = 300_000_000_000;

/// How long opening a stream may take: 10 seconds.
pub const CONNECT_TIMEOUT: u128 = 10_000_000_000;


/// A stream may stay idle 5 minutes and take 10 seconds to open.
pub proof fn lemma_settings()
    ensures
        MAX_IDLE_TIME == 5 * 60 * crate::time::NANOS_PER_SEC,
        CONNECT_TIMEOUT == 10 * crate::time::NANOS_PER_SEC,
{
}

} // verus!
