//! The configuration, the errors and the decisions of the pool that drops
//! expired idle connections whenever a connection is asked for.

use vstd::prelude::*;

verus! {

/// The most connections in use at once unless told otherwise.
pub const DEFAULT_MAX_SIZE: usize = 10;

/// How long a connection may stay idle unless told otherwise: 5 minutes.
pub const DEFAULT_IDLE_TIMEOUT: u128 = 300_000_000_000;

/// How long creating a connection may take unless told otherwise: 10
/// seconds.
pub const DEFAULT_CONNECTION_TIMEOUT: u128 = 10_000_000_000;

/// The settings a pool runs with, every option resolved.
#[derive(Clone, Copy)]
pub struct PoolConfig {
    pub max_size: usize,
    pub max_idle_time: u128,
    pub connection_timeout: u128,
}

impl PoolConfig {
    /// The settings of a pool created with these options: each one left
    /// out takes its default.
    pub fn resolve(max_size: Option<usize>, max_idle_time: Option<u128>, connection_timeout: Option<u128>) -> (c: Self)
        ensures
            c.max_size == (match max_size { Some(n) => n, None => DEFAULT_MAX_SIZE }),
            c.max_idle_time == (match max_idle_time { Some(d) => d, None => DEFAULT_IDLE_TIMEOUT }),
            c.connection_timeout == (match connection_timeout {
                Some(d) => d,
                None => DEFAULT_CONNECTION_TIMEOUT,
            }),
    {
        PoolConfig {
            max_size: match max_size { Some(n) => n, None => DEFAULT_MAX_SIZE },
            max_idle_time: match max_idle_time { Some(d) => d, None => DEFAULT_IDLE_TIMEOUT },
            connection_timeout: match connection_timeout {
                Some(d) => d,
                None => DEFAULT_CONNECTION_TIMEOUT,
            },
        }
    }
}

/// Pool errors
#[derive(Debug)]
pub enum PoolError<E> {
    PoolClosed,
    Timeout,
    Creation(E),
}

/// The message of an error; a creation error adds its cause after it.
pub open spec fn error_text<E>(e: PoolError<E>) -> Seq<char> {
    match e {
        PoolError::PoolClosed => "Connection pool is closed"@,
        PoolError::Timeout => "Connection creation timeout"@,
        PoolError::Creation(_) => "Connection creation failed"@,
    }
}

impl<E> PoolError<E> {
    /// The message of the error; a creation error adds its cause after it.
    pub fn message(&self) -> (m: &'static str)
        ensures
            m@ == error_text(*self),
    {
        match self {
            PoolError::PoolClosed => "Connection pool is closed",
            PoolError::Timeout => "Connection creation timeout",
            PoolError::Creation(_) => "Connection creation failed",
        }
    }
}

/// What getting a connection ends in once creating one was tried: `None`
/// when the attempt ran out of time, otherwise what the attempt returned.
pub open spec fn creation_result<T, E>(attempt: Option<Result<T, E>>) -> Result<T, PoolError<E>> {
    match attempt {
        None => Err(PoolError::Timeout),
        Some(Ok(conn)) => Ok(conn),
        Some(Err(e)) => Err(PoolError::Creation(e)),
    }
}

/// Maps the outcome of an attempt to create a connection to what getting a
/// connection returns; see `creation_result`.
pub fn creation_outcome<T, E>(attempt: Option<Result<T, E>>) -> (r: Result<T, PoolError<E>>)
    ensures
        r == creation_result(attempt),
{
    match attempt {
        None => Err(PoolError::Timeout),
        Some(Ok(conn)) => Ok(conn),
        Some(Err(e)) => Err(PoolError::Creation(e)),
    }
}


/// The defaults: at most 10 connections, 5 minutes of idleness and 10
/// seconds to create a connection.
pub proof fn lemma_defaults()
    ensures
        DEFAULT_MAX_SIZE == 10,
        DEFAULT_IDLE_TIMEOUT == 5 * 60 * crate::time::NANOS_PER_SEC,
        DEFAULT_CONNECTION_TIMEOUT == 10 * crate::time::NANOS_PER_SEC,
{
}

/// Getting a connection ends in a timeout error when the creation ran out of
/// time, hands out the created connection when it succeeded, and passes the
/// creation error on when it failed.
pub proof fn lemma_creation_result<T, E>(attempt: Option<Result<T, E>>)
    ensures
        attempt is None ==> creation_result(attempt) is Err && creation_result(attempt)->Err_0 is Timeout,
        attempt matches Some(Ok(c)) ==> creation_result(attempt) == Ok::<T, PoolError<E>>(c),
        attempt matches Some(Err(e)) ==> creation_result(attempt) == Err::<T, PoolError<E>>(PoolError::Creation(e)),
{
}

/// The messages of the three errors.
pub proof fn lemma_error_messages<E>(e: E)
    ensures
        error_text(PoolError::<E>::PoolClosed) == "Connection pool is closed"@,
        error_text(PoolError::<E>::Timeout) == "Connection creation timeout"@,
        error_text(PoolError::Creation(e)) == "Connection creation failed"@,
{
}

} // verus!
