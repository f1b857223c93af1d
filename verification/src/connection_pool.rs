//! The configuration, the errors and the decisions of the pool that validates
//! idle connections on reuse and sweeps them out in the background.

use vstd::prelude::*;

use crate::idle::{hand_back, IdleQueue, Stamped};
use crate::time::{fresh, is_fresh};

verus! {

/// The most connections in use at once unless told otherwise.
pub const DEFAULT_MAX_SIZE: usize = 10;

/// How long a connection may stay idle unless told otherwise: 5 minutes.
pub const DEFAULT_IDLE_TIMEOUT: u128 = 300_000_000_000;

/// How long creating a connection may take unless told otherwise: 10
/// seconds.
pub const DEFAULT_CONNECTION_TIMEOUT: u128 = 10_000_000_000;

/// How often the background sweep runs unless told otherwise: 30 seconds.
pub const DEFAULT_CLEANUP_INTERVAL: u128 = 30_000_000_000;

/// Configuration for background cleanup task; the interval is in
/// nanoseconds.
#[derive(Clone, Copy)]
pub struct CleanupConfig {
    pub interval: u128,
    pub enabled: bool,
}

impl Default for CleanupConfig {
    fn default() -> (c: Self)
        ensures
            c.interval == DEFAULT_CLEANUP_INTERVAL,
            c.enabled,
    {
        CleanupConfig { interval: DEFAULT_CLEANUP_INTERVAL, enabled: true }
    }
}

/// The settings a pool runs with, every option resolved.
#[derive(Clone, Copy)]
pub struct PoolConfig {
    pub max_size: usize,
    pub max_idle_time: u128,
    pub connection_timeout: u128,
    pub cleanup: CleanupConfig,
}

impl PoolConfig {
    /// The settings of a pool created with these options: each one left
    /// out takes its default.
    pub fn resolve(
        max_size: Option<usize>,
        max_idle_time: Option<u128>,
        connection_timeout: Option<u128>,
        cleanup_config: Option<CleanupConfig>,
    ) -> (c: Self)
        ensures
            c.max_size == (match max_size { Some(n) => n, None => DEFAULT_MAX_SIZE }),
            c.max_idle_time == (match max_idle_time { Some(d) => d, None => DEFAULT_IDLE_TIMEOUT }),
            c.connection_timeout == (match connection_timeout {
                Some(d) => d,
                None => DEFAULT_CONNECTION_TIMEOUT,
            }),
            c.cleanup == (match cleanup_config {
                Some(cc) => cc,
                None => CleanupConfig { interval: DEFAULT_CLEANUP_INTERVAL, enabled: true },
            }),
    {
        PoolConfig {
            max_size: match max_size { Some(n) => n, None => DEFAULT_MAX_SIZE },
            max_idle_time: match max_idle_time { Some(d) => d, None => DEFAULT_IDLE_TIMEOUT },
            connection_timeout: match connection_timeout {
                Some(d) => d,
                None => DEFAULT_CONNECTION_TIMEOUT,
            },
            cleanup: match cleanup_config { Some(cc) => cc, None => CleanupConfig::default() },
        }
    }
}

/// The number of connections a pool has handed out that are not yet back,
/// which never exceeds the pool's `max_size`.
pub struct Outstanding {
    count: usize,
    max_size: usize,
}

impl Outstanding {
    /// The number of connections handed out and not yet back.
    pub closed spec fn value(&self) -> nat {
        self.count as nat
    }

    /// The most connections that may be out at once.
    pub closed spec fn limit(&self) -> nat {
        self.max_size as nat
    }

    /// Never more connections out than the limit.
    #[verifier::type_invariant]
    spec fn within_limit(&self) -> bool {
        self.count <= self.max_size
    }

    /// No connection handed out, at most `max_size` at once.
    pub fn new(max_size: usize) -> (o: Self)
        ensures
            o.value() == 0,
            o.limit() == max_size,
    {
        Outstanding { count: 0, max_size }
    }

    /// The number of connections handed out and not yet back; never more
    /// than the limit.
    pub fn count(&self) -> (n: usize)
        ensures
            n == self.value(),
            n <= self.limit(),
    {
        proof {
            use_type_invariant(self);
        }
        self.count
    }

    /// Whether one more connection may be handed out.
    pub fn has_room(&self) -> (r: bool)
        ensures
            r == (self.value() < self.limit()),
    {
        self.count < self.max_size
    }

    /// A connection was handed out.
    pub fn handed_out(&mut self)
        requires
            old(self).value() < old(self).limit(),
        ensures
            final(self).value() == old(self).value() + 1,
            final(self).limit() == old(self).limit(),
            final(self).value() <= final(self).limit(),
    {
        self.count = self.count + 1;
    }

    /// A connection handed out came back or was dropped.
    pub fn came_back(&mut self)
        requires
            old(self).value() > 0,
        ensures
            final(self).value() == old(self).value() - 1,
            final(self).limit() == old(self).limit(),
    {
        proof {
            use_type_invariant(&*self);
        }
        self.count = self.count - 1;
    }
}

/// Connection pool errors
#[derive(Debug)]
pub enum PoolError<E> {
    PoolClosed,
    Timeout,
    Creation(E),
}

/// The message of an error; a creation error adds its cause after it.
pub open spec fn error_text<E>(e: PoolError<E>) -> Seq<char> {
    match e {
        PoolError::PoolClosed => "Connection pool is closed"@,
        PoolError::Timeout => "Connection creation timeout"@,
        PoolError::Creation(_) => "Connection creation failed"@,
    }
}

impl<E> PoolError<E> {
    /// The message of the error; a creation error adds its cause after it.
    pub fn message(&self) -> (m: &'static str)
        ensures
            m@ == error_text(*self),
    {
        match self {
            PoolError::PoolClosed => "Connection pool is closed",
            PoolError::Timeout => "Connection creation timeout",
            PoolError::Creation(_) => "Connection creation failed",
        }
    }
}

/// What getting a connection ends in once creating one was tried: `None`
/// when the attempt ran out of time, otherwise what the attempt returned.
pub open spec fn creation_result<T, E>(attempt: Option<Result<T, E>>) -> Result<T, PoolError<E>> {
    match attempt {
        None => Err(PoolError::Timeout),
        Some(Ok(conn)) => Ok(conn),
        Some(Err(e)) => Err(PoolError::Creation(e)),
    }
}

/// Maps the outcome of an attempt to create a connection to what getting a
/// connection returns; see `creation_result`.
pub fn creation_outcome<T, E>(attempt: Option<Result<T, E>>) -> (r: Result<T, PoolError<E>>)
    ensures
        r == creation_result(attempt),
{
    match attempt {
        None => Err(PoolError::Timeout),
        Some(Ok(conn)) => Ok(conn),
        Some(Err(e)) => Err(PoolError::Creation(e)),
    }
}

/// An idle connection is reused when it is younger than the idle limit and
/// its validation succeeded.
pub open spec fn is_reusable(since: u128, now: u128, max_idle_time: u128, valid: bool) -> bool {
    is_fresh(since, now, max_idle_time) && valid
}

/// Decides on an idle connection taken from the pool at `now`, after its
/// validation gave `valid`: it comes back when it can be reused, and is
/// dropped otherwise.
pub fn reuse_candidate<T>(candidate: Stamped<T>, now: u128, max_idle_time: u128, valid: bool) -> (r: Option<T>)
    ensures
        r == (if is_reusable(candidate.since, now, max_idle_time, valid) {
            Some(candidate.conn)
        } else {
            None
        }),
        r is Some ==> valid && r == Some(candidate.conn),
        !valid ==> r is None,
{
    if fresh(candidate.since, now, max_idle_time) && valid {
        Some(candidate.conn)
    } else {
        None
    }
}


/// Takes a connection back into the idle queue at `now` after its
/// validation gave `valid`: an invalid connection is dropped, a valid one
/// joins the back of the queue when there is room and is dropped when the
/// queue is full. Returns whether it was kept.
pub fn recycle<T>(idle: &mut IdleQueue<T>, conn: T, now: u128, valid: bool) -> (kept: bool)
    ensures
        final(idle).capacity() == old(idle).capacity(),
        kept == (valid && old(idle)@.len() < old(idle).capacity()),
        final(idle)@ == (if valid {
            hand_back(old(idle)@, old(idle).capacity(), conn, now)
        } else {
            old(idle)@
        }),
{
    if !valid {
        return false;
    }
    idle.push_bounded(conn, now)
}


/// The defaults: at most 10 connections, 5 minutes of idleness, 10 seconds to
/// create a connection, and a sweep every 30 seconds.
pub proof fn lemma_defaults()
    ensures
        DEFAULT_MAX_SIZE == 10,
        DEFAULT_IDLE_TIMEOUT == 5 * 60 * crate::time::NANOS_PER_SEC,
        DEFAULT_CONNECTION_TIMEOUT == 10 * crate::time::NANOS_PER_SEC,
        DEFAULT_CLEANUP_INTERVAL == 30 * crate::time::NANOS_PER_SEC,
{
}

/// An idle connection is reused exactly when its validation succeeded and it
/// is younger than the idle limit (a stamp in the future counts as age
/// zero); one whose validation failed is never reused.
pub proof fn lemma_reuse_rule(since: u128, now: u128, max_idle_time: u128, valid: bool)
    ensures
        !valid ==> !is_reusable(since, now, max_idle_time, valid),
        is_reusable(since, now, max_idle_time, valid) <==> (valid && ((since <= now && now - since < max_idle_time) || (
        since > now && max_idle_time > 0))),
{
}

/// Getting a connection ends in a timeout error when the creation ran out of
/// time, hands out the created connection when it succeeded, and passes the
/// creation error on when it failed.
pub proof fn lemma_creation_result<T, E>(attempt: Option<Result<T, E>>)
    ensures
        attempt is None ==> creation_result(attempt) is Err && creation_result(attempt)->Err_0 is Timeout,
        attempt matches Some(Ok(c)) ==> creation_result(attempt) == Ok::<T, PoolError<E>>(c),
        attempt matches Some(Err(e)) ==> creation_result(attempt) == Err::<T, PoolError<E>>(PoolError::Creation(e)),
{
}

/// The messages of the three errors.
pub proof fn lemma_error_messages<E>(e: E)
    ensures
        error_text(PoolError::<E>::PoolClosed) == "Connection pool is closed"@,
        error_text(PoolError::<E>::Timeout) == "Connection creation timeout"@,
        error_text(PoolError::Creation(e)) == "Connection creation failed"@,
{
}

} // verus!
