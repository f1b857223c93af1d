use std::collections::VecDeque;

use connection_pool::connection_pool::{
    creation_outcome, recycle, reuse_candidate, CleanupConfig, PoolConfig, PoolError, DEFAULT_CLEANUP_INTERVAL,
    DEFAULT_CONNECTION_TIMEOUT, DEFAULT_IDLE_TIMEOUT, DEFAULT_MAX_SIZE,
};
use connection_pool::generic_pool;
use connection_pool::idle::{sweep, IdleQueue, Stamped};
use connection_pool::time::{elapsed, fresh};

const SEC: u128 = 1_000_000_000;

fn queue_of(max: usize, stamps: &[(u32, u128)]) -> IdleQueue<u32> {
    let mut q = IdleQueue::new(max);
    for &(c, t) in stamps {
        assert!(q.push_bounded(c, t));
    }
    q
}

fn drain(q: &mut IdleQueue<u32>) -> Vec<(u32, u128)> {
    let mut out = vec![];
    while let Some(e) = q.pop_front() {
        out.push((e.conn, e.since));
    }
    out
}

#[test]
fn defaults_match_documentation() {
    let c = PoolConfig::resolve(None, None, None, None);
    assert_eq!(c.max_size, 10);
    assert_eq!(c.max_idle_time, 300 * SEC);
    assert_eq!(c.connection_timeout, 10 * SEC);
    assert_eq!(c.cleanup.interval, 30 * SEC);
    assert!(c.cleanup.enabled);
    assert_eq!(DEFAULT_MAX_SIZE, 10);
    assert_eq!(DEFAULT_IDLE_TIMEOUT, 300 * SEC);
    assert_eq!(DEFAULT_CONNECTION_TIMEOUT, 10 * SEC);
    assert_eq!(DEFAULT_CLEANUP_INTERVAL, 30 * SEC);
    let d = CleanupConfig::default();
    assert_eq!(d.interval, 30 * SEC);
    assert!(d.enabled);
}

#[test]
fn given_options_are_kept() {
    let cc = CleanupConfig { interval: 5 * SEC, enabled: false };
    let c = PoolConfig::resolve(Some(3), Some(10 * SEC), Some(5 * SEC), Some(cc));
    assert_eq!(c.max_size, 3);
    assert_eq!(c.max_idle_time, 10 * SEC);
    assert_eq!(c.connection_timeout, 5 * SEC);
    assert_eq!(c.cleanup.interval, 5 * SEC);
    assert!(!c.cleanup.enabled);
    let g = generic_pool::PoolConfig::resolve(Some(5), None, Some(SEC));
    assert_eq!(g.max_size, 5);
    assert_eq!(g.max_idle_time, 300 * SEC);
    assert_eq!(g.connection_timeout, SEC);
}

#[test]
fn creation_outcomes() {
    let t: Result<u32, PoolError<&str>> = creation_outcome(None);
    assert!(matches!(t, Err(PoolError::Timeout)));
    assert!(matches!(creation_outcome::<u32, &str>(Some(Err("refused"))), Err(PoolError::Creation("refused"))));
    assert!(matches!(creation_outcome::<u32, &str>(Some(Ok(7))), Ok(7)));
    let g: Result<u32, generic_pool::PoolError<&str>> = generic_pool::creation_outcome(None);
    assert!(matches!(g, Err(generic_pool::PoolError::Timeout)));
    assert!(matches!(
        generic_pool::creation_outcome::<u32, &str>(Some(Err("x"))),
        Err(generic_pool::PoolError::Creation("x"))
    ));
    assert!(matches!(generic_pool::creation_outcome::<u32, &str>(Some(Ok(1))), Ok(1)));
}

#[test]
fn reuse_decisions() {
    assert_eq!(reuse_candidate(Stamped::new(1u32, 0), SEC - 1, SEC, true), Some(1));
    assert_eq!(reuse_candidate(Stamped::new(1u32, 0), SEC, SEC, true), None);
    assert_eq!(reuse_candidate(Stamped::new(1u32, 0), 0, SEC, false), None);
    // A stamp after `now` has age zero.
    assert_eq!(reuse_candidate(Stamped::new(1u32, 5 * SEC), 0, 1, true), Some(1));
    assert_eq!(elapsed(5, 3), 0);
    assert_eq!(elapsed(3, 5), 2);
    assert!(fresh(3, 5, 3));
    assert!(!fresh(3, 5, 2));
}

#[test]
fn queue_is_bounded_and_fifo() {
    let mut q = IdleQueue::new(2);
    assert!(q.push_bounded(1u32, 10));
    assert!(q.push_bounded(2u32, 20));
    assert!(!q.push_bounded(3u32, 30));
    assert_eq!(q.len(), 2);
    assert_eq!(q.max_size(), 2);
    assert_eq!(drain(&mut q), vec![(1, 10), (2, 20)]);
    assert!(q.pop_front().is_none());
}

#[test]
fn zero_capacity_keeps_nothing() {
    let mut q = IdleQueue::new(0);
    assert!(!q.push_bounded(1u32, 1));
    assert_eq!(q.len(), 0);
}

#[test]
fn recycle_drops_invalid_and_overflow() {
    let mut q = IdleQueue::new(1);
    assert!(!recycle(&mut q, 1u32, 5, false));
    assert_eq!(q.len(), 0);
    assert!(recycle(&mut q, 2u32, 6, true));
    assert!(!recycle(&mut q, 3u32, 7, true));
    assert_eq!(drain(&mut q), vec![(2, 6)]);
}

#[test]
fn retain_fresh_drops_expired_only() {
    let mut q = queue_of(5, &[(1, 0), (2, 5 * SEC), (3, SEC), (4, 8 * SEC)]);
    q.retain_fresh(10 * SEC, 6 * SEC);
    assert_eq!(drain(&mut q), vec![(2, 5 * SEC), (4, 8 * SEC)]);
}

#[test]
fn take_fresh_skips_expired() {
    let mut q = queue_of(5, &[(1, 0), (2, 9 * SEC), (3, 9 * SEC)]);
    let e = q.take_fresh(10 * SEC, 2 * SEC).unwrap();
    assert_eq!((e.conn, e.since), (2, 9 * SEC));
    assert_eq!(drain(&mut q), vec![(3, 9 * SEC)]);
    assert!(q.take_fresh(10 * SEC, 2 * SEC).is_none());
}

#[test]
fn sweep_keeps_fresh_and_valid_in_order() {
    let mut q = queue_of(4, &[(1, 0), (2, 9 * SEC), (3, 9 * SEC), (4, 9 * SEC)]);
    let all = q.take_all();
    assert_eq!(q.len(), 0);
    let valid = vec![true, true, false, true];
    let kept = sweep(all, 10 * SEC, 5 * SEC, &valid);
    let kept_ids: Vec<u32> = kept.iter().map(|e| e.conn).collect();
    assert_eq!(kept_ids, vec![2, 4]);
    q.refill(kept);
    assert_eq!(drain(&mut q), vec![(2, 9 * SEC), (4, 9 * SEC)]);
}

#[test]
fn refill_stops_at_capacity() {
    let mut q = queue_of(2, &[(9, 1)]);
    let mut extra = VecDeque::new();
    extra.push_back(Stamped::new(1u32, 2));
    extra.push_back(Stamped::new(2u32, 3));
    q.refill(extra);
    assert_eq!(drain(&mut q), vec![(9, 1), (1, 2)]);
}
