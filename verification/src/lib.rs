//! Connection pools whose bookkeeping is verified: idle queues with time
//! stamps, the pool configurations and their defaults, and the decisions that
//! the asynchronous pools take when a connection is asked for, handed back or
//! swept out.
//!
//! Durations and points in time are counted in nanoseconds: a duration is a
//! `u128` number of nanoseconds, a point in time the number of nanoseconds
//! since a moment that the caller fixes once per pool.

pub mod connection_pool;
pub mod generic_pool;
pub mod idle;
pub mod improved_pool;
pub mod mpool;
pub mod simple_pool;
pub mod tcp;
pub mod time;

pub use connection_pool::{CleanupConfig, PoolError};
