use connection_pool::mpool::{
    creation_budget, exceed_idle_timeout, exceed_max_lifetime, is_expired, wait_left, Builder, CheckStep, Checkout, IdleConn,
    PoolInternals, WaitLeft, DEFAULT_CHECK_INTERVAL, DEFAULT_CONNECTION_TIMEOUT, DEFAULT_IDLE_TIMEOUT,
    DEFAULT_MAX_LIFETIME,
};

const SEC: u128 = 1_000_000_000;
const MILLI: u128 = 1_000_000;

#[derive(Debug, PartialEq)]
struct FakeConnection(u32);

/// Serves a request the way the asynchronous pool does, with a connection
/// created at once when one is admitted.
fn get(p: &mut PoolInternals<FakeConnection>, next_id: &mut u32, now: u128) -> Result<IdleConn<FakeConnection>, &'static str> {
    get_with(p, next_id, now, Some(DEFAULT_IDLE_TIMEOUT), Some(DEFAULT_MAX_LIFETIME))
}

fn get_with(
    p: &mut PoolInternals<FakeConnection>,
    next_id: &mut u32,
    now: u128,
    idle: Option<u128>,
    life: Option<u128>,
) -> Result<IdleConn<FakeConnection>, &'static str> {
    match p.acquire(now, idle, life) {
        Checkout::Reuse(c) => Ok(c),
        Checkout::Create => {
            *next_id += 1;
            Ok(IdleConn::new(FakeConnection(*next_id), now))
        }
        Checkout::Exhausted => Err("exceed limit"),
    }
}

/// Runs one round of the periodic check; every health check succeeds.
fn check_round(p: &mut PoolInternals<FakeConnection>, now: u128, idle: Option<u128>, life: Option<u128>) {
    let n = p.idle_count();
    for _ in 0..n {
        match p.check_next(now, idle, life) {
            CheckStep::Empty => break,
            CheckStep::Expired => {}
            CheckStep::Recheck(c) => p.return_checked(c),
        }
    }
}

/// Hands a connection back, with the default lifetime.
fn put(p: &mut PoolInternals<FakeConnection>, c: IdleConn<FakeConnection>, now: u128) {
    assert!(p.release(c, now, Some(DEFAULT_MAX_LIFETIME)));
}

#[test]
fn test_max_size_ok() {
    let b: Builder<()> = Builder::new().max_size(5);
    let mut pool = PoolInternals::new(b.max_size);
    let mut id = 0;
    let mut conns = vec![];
    for _ in 0..5 {
        conns.push(get(&mut pool, &mut id, 0).unwrap());
    }
    assert_eq!(pool.active(), 5);
    assert!(get(&mut pool, &mut id, 0).is_err());
    assert_eq!(pool.active(), 5);
}

#[test]
fn test_drop_conn() {
    let b: Builder<()> = Builder::new().max_size(2);
    let mut pool = PoolInternals::new(b.max_size);
    let mut id = 0;

    let conn1 = get(&mut pool, &mut id, 0).unwrap();
    assert_eq!(pool.active(), 1);
    let conn2 = get(&mut pool, &mut id, 0).unwrap();
    assert_eq!(pool.active(), 2);

    put(&mut pool, conn1, 10);
    assert_eq!(pool.active(), 1);
    assert_eq!(pool.idle_count(), 1);

    put(&mut pool, conn2, 20);
    assert_eq!(pool.active(), 0);
    assert_eq!(pool.idle_count(), 2);

    let conn3 = get(&mut pool, &mut id, 30).unwrap();
    assert_eq!(pool.active(), 1);
    assert_eq!(pool.idle_count(), 1);
    assert_eq!(conn3.conn, FakeConnection(1));
    assert_eq!(conn3.last_visited, 10);
}

#[test]
fn refused_request_wait_budget() {
    let b: Builder<()> = Builder::new().connection_timeout(Some(100 * MILLI));
    assert_eq!(b.connection_timeout, Some(100 * MILLI));
    // A request that started at 0 and is still refused at 200ms has run out
    // of its 100ms; with 300ms it may wait 100ms more.
    assert!(matches!(wait_left(0, 200 * MILLI, b.connection_timeout), WaitLeft::Elapsed));
    assert!(matches!(wait_left(0, 200 * MILLI, Some(300 * MILLI)), WaitLeft::Remaining(r) if r == 100 * MILLI));
    assert!(matches!(wait_left(0, 200 * MILLI, None), WaitLeft::Unbounded));
    // The creation ran out of time: the admitted connection no longer counts.
    let mut pool: PoolInternals<FakeConnection> = PoolInternals::new(b.max_size);
    assert!(matches!(pool.acquire(0, b.idle_timeout, b.max_lifetime), Checkout::Create));
    assert_eq!(pool.active(), 1);
    pool.creation_failed();
    assert_eq!(pool.active(), 0);
    assert_eq!(pool.idle_count(), 0);
}

#[test]
fn test_idle_timeout() {
    let b: Builder<()> = Builder::new().idle_timeout(Some(SEC)).check_interval(Some(SEC));
    let mut pool = PoolInternals::new(b.max_size);
    let mut id = 0;
    let mut conns = vec![];
    for _ in 0..5 {
        conns.push(get(&mut pool, &mut id, 0).unwrap());
    }
    for c in conns {
        assert!(pool.release(c, 0, b.max_lifetime));
    }
    check_round(&mut pool, 2 * SEC, b.idle_timeout, b.max_lifetime);
    assert_eq!(pool.active(), 0);
    assert_eq!(pool.idle_count(), 0);
}

#[test]
fn test_max_lifetime() {
    let b: Builder<()> = Builder::new().max_lifetime(Some(SEC)).check_interval(Some(SEC));
    let mut pool = PoolInternals::new(b.max_size);
    let mut id = 0;
    let mut conns = vec![];
    for _ in 0..5 {
        conns.push(get(&mut pool, &mut id, 0).unwrap());
    }
    for c in conns {
        assert!(pool.release(c, SEC, b.max_lifetime));
    }
    check_round(&mut pool, SEC + 1, b.idle_timeout, b.max_lifetime);
    assert_eq!(pool.active(), 0);
    assert_eq!(pool.idle_count(), 0);
}

#[test]
fn builder_defaults() {
    let b: Builder<()> = Builder::new();
    assert_eq!(b.max_lifetime, Some(30 * 60 * SEC));
    assert_eq!(b.idle_timeout, Some(3 * 60 * SEC));
    assert_eq!(b.connection_timeout, Some(3 * SEC));
    assert_eq!(b.check_interval, Some(3 * SEC));
    assert_eq!(b.max_size, 10);
    assert_eq!(DEFAULT_MAX_LIFETIME, 1_800 * SEC);
    assert_eq!(DEFAULT_IDLE_TIMEOUT, 180 * SEC);
    assert_eq!(DEFAULT_CONNECTION_TIMEOUT, 3 * SEC);
    assert_eq!(DEFAULT_CHECK_INTERVAL, 3 * SEC);
}

#[test]
fn builder_zero_durations() {
    let b: Builder<()> = Builder::new()
        .max_lifetime(Some(5 * SEC))
        .idle_timeout(Some(7 * SEC))
        .max_lifetime(Some(0))
        .idle_timeout(Some(0))
        .connection_timeout(Some(0));
    assert_eq!(b.max_lifetime, Some(DEFAULT_MAX_LIFETIME));
    assert_eq!(b.idle_timeout, Some(DEFAULT_IDLE_TIMEOUT));
    assert_eq!(b.connection_timeout, None);
    let b = b.max_lifetime(None).idle_timeout(Some(1)).check_interval(None).max_size(0);
    assert_eq!(b.max_lifetime, None);
    assert_eq!(b.idle_timeout, Some(1));
    assert_eq!(b.check_interval, None);
    assert_eq!(b.max_size, 0);
}

#[test]
fn unlimited_pool_never_refuses() {
    let mut pool = PoolInternals::new(0);
    let mut id = 0;
    for _ in 0..100 {
        assert!(get(&mut pool, &mut id, 0).is_ok());
    }
    assert_eq!(pool.active(), 100);
}

#[test]
fn stats_report_counts() {
    let mut pool = PoolInternals::new(3);
    let mut id = 0;
    let a = get(&mut pool, &mut id, 0).unwrap();
    let _b = get(&mut pool, &mut id, 0).unwrap();
    put(&mut pool, a, 5);
    let st = pool.stats();
    assert_eq!(st.active, 1);
    assert_eq!(st.idle, 1);
    assert_eq!(st.max_size, 3);
}

#[test]
fn idle_connections_are_reused_in_order() {
    let mut pool = PoolInternals::new(4);
    let mut id = 0;
    let a = get(&mut pool, &mut id, 0).unwrap();
    let b = get(&mut pool, &mut id, 0).unwrap();
    put(&mut pool, b, 1);
    put(&mut pool, a, 2);
    assert_eq!(get(&mut pool, &mut id, 3).unwrap().conn, FakeConnection(2));
    assert_eq!(get(&mut pool, &mut id, 3).unwrap().conn, FakeConnection(1));
}

#[test]
fn expiry_checks() {
    let c = IdleConn { conn: (), last_visited: 10 * SEC, created: 5 * SEC };
    assert!(!exceed_idle_timeout(&c, 11 * SEC, Some(SEC)));
    assert!(exceed_idle_timeout(&c, 11 * SEC + 1, Some(SEC)));
    // Timeouts under one microsecond are no timeouts.
    assert!(!exceed_idle_timeout(&c, 100 * SEC, Some(999)));
    assert!(exceed_idle_timeout(&c, 100 * SEC, Some(1_000)));
    assert!(!exceed_idle_timeout(&c, 100 * SEC, None));
    assert!(exceed_max_lifetime(&c, 6 * SEC + 1, Some(SEC)));
    assert!(!exceed_max_lifetime(&c, 6 * SEC, Some(SEC)));
    assert!(!exceed_max_lifetime(&c, u128::MAX, None));
    assert!(!exceed_max_lifetime(&c, 0, Some(u128::MAX)));
}

#[test]
fn check_keeps_young_connections() {
    let mut pool = PoolInternals::new(2);
    let mut id = 0;
    let a = get(&mut pool, &mut id, 0).unwrap();
    put(&mut pool, a, SEC);
    match pool.check_next(SEC + 1, Some(SEC), Some(60 * SEC)) {
        CheckStep::Recheck(c) => {
            assert_eq!(c.conn, FakeConnection(1));
            pool.return_checked(c);
        }
        _ => panic!("young connection should be checked"),
    }
    assert_eq!(pool.idle_count(), 1);
    pool.check_next(SEC + 1, Some(SEC), Some(60 * SEC));
    assert!(matches!(pool.check_next(0, None, None), CheckStep::Empty));
}

#[test]
fn limit_kept_through_operations() {
    let mut pool = PoolInternals::new(2);
    let mut id = 0;
    let a = get(&mut pool, &mut id, 0).unwrap();
    let b = get(&mut pool, &mut id, 0).unwrap();
    assert!(get(&mut pool, &mut id, 0).is_err());
    put(&mut pool, a, 1);
    let c = get(&mut pool, &mut id, 2).unwrap();
    assert_eq!(c.conn, FakeConnection(1));
    assert!(pool.active() as usize + pool.idle_count() <= 2);
    put(&mut pool, b, 3);
    put(&mut pool, c, 4);
    assert_eq!(pool.active(), 0);
    assert_eq!(pool.idle_count(), 2);
    assert_eq!(id, 2);
}

#[test]
fn idle_timeout_closes_without_check_task() {
    let b: Builder<()> = Builder::new().idle_timeout(Some(SEC)).check_interval(None);
    let mut pool = PoolInternals::new(b.max_size);
    let mut id = 0;
    let x = get_with(&mut pool, &mut id, 0, b.idle_timeout, b.max_lifetime).unwrap();
    assert!(pool.release(x, 0, b.max_lifetime));
    // Two seconds later the idle connection has expired: a new one is created.
    let y = get_with(&mut pool, &mut id, 2 * SEC, b.idle_timeout, b.max_lifetime).unwrap();
    assert_eq!(y.conn, FakeConnection(2));
    assert_eq!(pool.idle_count(), 0);
    assert_eq!(pool.active(), 1);
}

#[test]
fn lifetime_closes_on_return() {
    let b: Builder<()> = Builder::new().max_lifetime(Some(SEC)).check_interval(None);
    let mut pool = PoolInternals::new(b.max_size);
    let mut id = 0;
    let c = get_with(&mut pool, &mut id, 0, b.idle_timeout, b.max_lifetime).unwrap();
    assert!(!pool.release(c, 2 * SEC, b.max_lifetime));
    assert_eq!(pool.idle_count(), 0);
    assert_eq!(pool.active(), 0);
    let d = get_with(&mut pool, &mut id, 2 * SEC, b.idle_timeout, b.max_lifetime).unwrap();
    assert_eq!(d.conn, FakeConnection(2));
}

#[test]
fn connection_under_check_counts_toward_limit() {
    let mut pool = PoolInternals::new(1);
    let mut id = 0;
    let a = get(&mut pool, &mut id, 0).unwrap();
    put(&mut pool, a, 0);
    let checked = match pool.check_next(1, Some(SEC), None) {
        CheckStep::Recheck(c) => c,
        _ => panic!("young connection should be checked"),
    };
    assert_eq!(pool.active(), 1);
    // While the check runs, a request is refused instead of creating a second connection.
    assert!(get(&mut pool, &mut id, 2).is_err());
    pool.return_checked(checked);
    assert_eq!(pool.active(), 0);
    assert_eq!(pool.idle_count(), 1);
    assert_eq!(get(&mut pool, &mut id, 3).unwrap().conn, FakeConnection(1));
    assert_eq!(pool.active(), 1);
    assert_eq!(id, 1);
}

#[test]
fn failed_check_drops_connection() {
    let mut pool = PoolInternals::new(2);
    let mut id = 0;
    let a = get(&mut pool, &mut id, 0).unwrap();
    put(&mut pool, a, 0);
    assert!(matches!(pool.check_next(1, None, None), CheckStep::Recheck(_)));
    pool.check_failed();
    assert_eq!(pool.active(), 0);
    assert_eq!(pool.idle_count(), 0);
}

#[test]
fn requests_admitted_below_limit() {
    let mut pool: PoolInternals<FakeConnection> = PoolInternals::new(u32::MAX);
    assert!(pool.can_count());
    let mut fresh = PoolInternals::<FakeConnection>::new(0);
    assert!(fresh.can_count());
    assert!(matches!(fresh.acquire(0, None, None), Checkout::Create));
    assert!(matches!(pool.acquire(0, None, None), Checkout::Create));
}

#[test]
fn expiry_decision() {
    let c = IdleConn { conn: (), last_visited: 10 * SEC, created: 0 };
    assert!(!is_expired(&c, 11 * SEC, Some(2 * SEC), Some(20 * SEC)));
    assert!(is_expired(&c, 13 * SEC, Some(2 * SEC), Some(20 * SEC)));
    assert!(is_expired(&c, 11 * SEC, Some(2 * SEC), Some(5 * SEC)));
}

#[test]
fn creation_gets_what_is_left_of_the_wait() {
    assert_eq!(creation_budget(0, 0, Some(3 * SEC)), Some(3 * SEC));
    assert_eq!(creation_budget(0, SEC, Some(3 * SEC)), Some(2 * SEC));
    assert_eq!(creation_budget(0, 4 * SEC, Some(3 * SEC)), Some(0));
    assert_eq!(creation_budget(0, 4 * SEC, None), None);
}
