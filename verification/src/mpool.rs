//! The bookkeeping of a pool that counts the connections in use, keeps the
//! idle ones in a first-in first-out queue and retires idle connections that
//! sat unused too long or lived too long.

use std::collections::VecDeque;
use std::marker::PhantomData;
use vstd::prelude::*;

use crate::time::{NANOS_PER_MICRO, NANOS_PER_SEC};

verus! {

broadcast use vstd::seq_lib::group_seq_properties;

/// The longest a connection lives unless the builder is told otherwise:
/// 30 minutes.
pub const DEFAULT_MAX_LIFETIME: u128 = 1_800_000_000_000;

/// How long a connection may stay idle unless the builder is told otherwise:
/// 3 minutes.
pub const DEFAULT_IDLE_TIMEOUT: u128 = 180_000_000_000;

/// How long creating a connection may take unless the builder is told
/// otherwise: 3 seconds.
pub const DEFAULT_CONNECTION_TIMEOUT: u128 = 3_000_000_000;

/// How often idle connections are checked unless the builder is told
/// otherwise: 3 seconds.
pub const DEFAULT_CHECK_INTERVAL: u128 = 3_000_000_000;

/// The number of connections allowed in use unless the builder is told
/// otherwise.
pub const DEFAULT_MAX_SIZE: u32 = 10;

/// Statistics about the connection pool state.
#[derive(Debug, Clone, Copy)]
pub struct PoolStats {
    /// Number of active connections currently in use.
    pub active: u32,
    /// Number of idle connections in the pool.
    pub idle: usize,
    /// Maximum number of connections allowed.
    pub max_size: u32,
}

/// A builder for a connection pool. Durations are in nanoseconds.
pub struct Builder<M> {
    pub max_lifetime: Option<u128>,
    pub idle_timeout: Option<u128>,
    pub connection_timeout: Option<u128>,
    pub max_size: u32,
    pub check_interval: Option<u128>,
    pub _pd: PhantomData<M>,
}

/// The settings of a builder as it comes out of `Builder::new`.
pub open spec fn is_default_builder<M>(b: Builder<M>) -> bool {
    &&& b.max_lifetime == Some(DEFAULT_MAX_LIFETIME)
    &&& b.idle_timeout == Some(DEFAULT_IDLE_TIMEOUT)
    &&& b.connection_timeout == Some(DEFAULT_CONNECTION_TIMEOUT)
    &&& b.check_interval == Some(DEFAULT_CHECK_INTERVAL)
    &&& b.max_size == DEFAULT_MAX_SIZE
}

impl<M> Default for Builder<M> {
    fn default() -> (b: Self)
        ensures
            is_default_builder(b),
    {
        Builder {
            max_lifetime: Some(DEFAULT_MAX_LIFETIME),
            idle_timeout: Some(DEFAULT_IDLE_TIMEOUT),
            connection_timeout: Some(DEFAULT_CONNECTION_TIMEOUT),
            check_interval: Some(DEFAULT_CHECK_INTERVAL),
            max_size: DEFAULT_MAX_SIZE,
            _pd: PhantomData,
        }
    }
}

impl<M> Builder<M> {
    /// Constructs a new `Builder`.
    ///
    /// Parameters are initialized with their default values.
    pub fn new() -> (b: Self)
        ensures
            is_default_builder(b),
    {
        Builder::default()
    }

    /// Sets the maximum lifetime of connections in the pool.
    ///
    /// If a connection reaches its maximum lifetime while checked out it will
    /// be closed when it is returned to the pool.
    ///
    /// Defaults to 30 minutes; the zero duration stands for the default.
    pub fn max_lifetime(self, max_lifetime: Option<u128>) -> (b: Self)
        ensures
            b.max_lifetime == (if max_lifetime == Some(0u128) {
                Some(DEFAULT_MAX_LIFETIME)
            } else {
                max_lifetime
            }),
            b.idle_timeout == self.idle_timeout,
            b.connection_timeout == self.connection_timeout,
            b.max_size == self.max_size,
            b.check_interval == self.check_interval,
    {
        let mut b = self;
        b.max_lifetime = match max_lifetime {
            Some(d) => if d == 0 { Some(DEFAULT_MAX_LIFETIME) } else { Some(d) },
            None => None,
        };
        b
    }

    /// Sets the idle timeout used by the pool.
    ///
    /// If set, connections will be closed after exceed idle time.
    ///
    /// Defaults to 3 minutes; the zero duration stands for the default.
    pub fn idle_timeout(self, idle_timeout: Option<u128>) -> (b: Self)
        ensures
            b.idle_timeout == (if idle_timeout == Some(0u128) {
                Some(DEFAULT_IDLE_TIMEOUT)
            } else {
                idle_timeout
            }),
            b.max_lifetime == self.max_lifetime,
            b.connection_timeout == self.connection_timeout,
            b.max_size == self.max_size,
            b.check_interval == self.check_interval,
    {
        let mut b = self;
        b.idle_timeout = match idle_timeout {
            Some(d) => if d == 0 { Some(DEFAULT_IDLE_TIMEOUT) } else { Some(d) },
            None => None,
        };
        b
    }

    /// Sets the connection timeout used by the pool.
    ///
    /// Calls to get a connection will wait this long for a connection to
    /// become available, and for a new one to be created, before returning an
    /// error.
    ///
    /// Defaults to 3 seconds; the zero duration means no timeout.
    pub fn connection_timeout(self, connection_timeout: Option<u128>) -> (b: Self)
        ensures
            b.connection_timeout == (if connection_timeout == Some(0u128) {
                None
            } else {
                connection_timeout
            }),
            b.max_lifetime == self.max_lifetime,
            b.idle_timeout == self.idle_timeout,
            b.max_size == self.max_size,
            b.check_interval == self.check_interval,
    {
        let mut b = self;
        b.connection_timeout = match connection_timeout {
            Some(d) => if d == 0 { None } else { Some(d) },
            None => None,
        };
        b
    }

    /// Sets the maximum number of connections in use at once.
    ///
    /// Defaults to 10; 0 means no limit.
    pub fn max_size(self, max_size: u32) -> (b: Self)
        ensures
            b.max_size == max_size,
            b.max_lifetime == self.max_lifetime,
            b.idle_timeout == self.idle_timeout,
            b.connection_timeout == self.connection_timeout,
            b.check_interval == self.check_interval,
    {
        let mut b = self;
        b.max_size = max_size;
        b
    }

    /// Sets how often idle connections are checked; `None` turns the checks
    /// off.
    ///
    /// Defaults to 3 seconds.
    pub fn check_interval(self, interval: Option<u128>) -> (b: Self)
        ensures
            b.check_interval == interval,
            b.max_lifetime == self.max_lifetime,
            b.idle_timeout == self.idle_timeout,
            b.connection_timeout == self.connection_timeout,
            b.max_size == self.max_size,
    {
        let mut b = self;
        b.check_interval = interval;
        b
    }
}


/// A connection waiting in the pool: when it was last handed back and when
/// it was created, in nanoseconds.
pub struct IdleConn<C> {
    pub conn: C,
    pub last_visited: u128,
    pub created: u128,
}

impl<C> IdleConn<C> {
    /// A connection created at `now`.
    pub fn new(conn: C, now: u128) -> (c: Self)
        ensures
            c.conn == conn,
            c.last_visited == now,
            c.created == now,
    {
        IdleConn { conn, last_visited: now, created: now }
    }
}

/// `last_visited` lies more than the idle timeout before `now`; an idle
/// timeout under one microsecond counts as none.
pub open spec fn idle_expired(last_visited: u128, now: u128, idle_timeout: Option<u128>) -> bool {
    match idle_timeout {
        Some(t) => t >= NANOS_PER_MICRO && last_visited + t < now,
        None => false,
    }
}

/// `created` lies more than the maximum lifetime before `now`; a lifetime
/// under one microsecond counts as none.
pub open spec fn lifetime_expired(created: u128, now: u128, max_lifetime: Option<u128>) -> bool {
    match max_lifetime {
        Some(t) => t >= NANOS_PER_MICRO && created + t < now,
        None => false,
    }
}

/// `start + span < now`, computed without overflow.
fn later_than(start: u128, span: u128, now: u128) -> (r: bool)
    ensures
        r == (start + span < now),
{
    span <= now && start < now - span
}

/// Whether the connection sat idle longer than `idle_timeout` at `now`.
pub fn exceed_idle_timeout<C>(conn: &IdleConn<C>, now: u128, idle_timeout: Option<u128>) -> (r: bool)
    ensures
        r == idle_expired(conn.last_visited, now, idle_timeout),
{
    match idle_timeout {
        Some(t) => t >= NANOS_PER_MICRO && later_than(conn.last_visited, t, now),
        None => false,
    }
}

/// Whether the connection lived longer than `max_lifetime` at `now`.
pub fn exceed_max_lifetime<C>(conn: &IdleConn<C>, now: u128, max_lifetime: Option<u128>) -> (r: bool)
    ensures
        r == lifetime_expired(conn.created, now, max_lifetime),
{
    match max_lifetime {
        Some(t) => t >= NANOS_PER_MICRO && later_than(conn.created, t, now),
        None => false,
    }
}

/// The connection sat idle too long or lived too long at `now`.
pub open spec fn conn_expired<C>(c: IdleConn<C>, now: u128, idle_timeout: Option<u128>, max_lifetime: Option<u128>) -> bool {
    idle_expired(c.last_visited, now, idle_timeout) || lifetime_expired(c.created, now, max_lifetime)
}

/// The idle connections of `idle` that have not expired at `now`, oldest
/// first.
pub open spec fn live_part<C>(
    idle: Seq<IdleConn<C>>,
    now: u128,
    idle_timeout: Option<u128>,
    max_lifetime: Option<u128>,
) -> Seq<IdleConn<C>> {
    idle.filter(|c: IdleConn<C>| !conn_expired(c, now, idle_timeout, max_lifetime))
}

/// Whether the connection sat idle too long or lived too long at `now`.
pub fn is_expired<C>(conn: &IdleConn<C>, now: u128, idle_timeout: Option<u128>, max_lifetime: Option<u128>) -> (r: bool)
    ensures
        r == conn_expired(*conn, now, idle_timeout, max_lifetime),
{
    exceed_idle_timeout(conn, now, idle_timeout) || exceed_max_lifetime(conn, now, max_lifetime)
}

/// What a request for a connection gets from the pool's state.
pub enum Checkout<C> {
    /// The oldest idle connection that has not expired, now in use.
    Reuse(IdleConn<C>),
    /// Room for one more connection, now counted in use: the caller creates
    /// it, and reports back when that fails.
    Create,
    /// No idle connection is left and the limit of connections in use is
    /// reached.
    Exhausted,
}

/// What the periodic check does with the oldest idle connection.
pub enum CheckStep<C> {
    /// No idle connection was left.
    Empty,
    /// The connection sat idle or lived too long; it was dropped.
    Expired,
    /// The connection is still young enough: it counts as in use while the
    /// caller checks its health, and goes back to the idle queue when it is
    /// healthy.
    Recheck(IdleConn<C>),
}

/// The state of a pool as a mathematical value.
pub struct InternalsView<C> {
    /// The idle connections, oldest first.
    pub idle: Seq<IdleConn<C>>,
    /// The connections in use: handed out, being created or under a health
    /// check.
    pub active: u32,
    /// The limit of connections in use and idle together; 0 means no limit.
    pub max_size: u32,
}

/// Connections in use and idle together stay within the limit (when there
/// is one).
pub open spec fn within_limit<C>(s: InternalsView<C>) -> bool {
    s.max_size == 0 || s.active + s.idle.len() <= s.max_size
}

/// A request can be served without the count in use overflowing.
pub open spec fn can_count<C>(s: InternalsView<C>) -> bool {
    s.active < u32::MAX || (s.max_size > 0 && within_limit(s))
}

/// A request for a connection at `now`: idle connections that have expired
/// are dropped; the oldest one left is reused; without one, a new one is
/// admitted unless `max_size` connections are in use already.
pub open spec fn acquire_spec<C>(
    s: InternalsView<C>,
    now: u128,
    idle_timeout: Option<u128>,
    max_lifetime: Option<u128>,
) -> (InternalsView<C>, Checkout<C>) {
    let live = live_part(s.idle, now, idle_timeout, max_lifetime);
    if live.len() > 0 {
        (InternalsView { idle: live.drop_first(), active: (s.active + 1) as u32, ..s }, Checkout::Reuse(live[0]))
    } else if s.max_size > 0 && s.active >= s.max_size {
        (InternalsView { idle: live, ..s }, Checkout::Exhausted)
    } else {
        (InternalsView { idle: live, active: (s.active + 1) as u32, ..s }, Checkout::Create)
    }
}

/// A connection counted in use goes away (its creation failed, or it failed
/// its health check): it no longer counts.
pub open spec fn discard_spec<C>(s: InternalsView<C>) -> InternalsView<C> {
    InternalsView { active: (s.active - 1) as u32, ..s }
}

/// A connection in use is handed back at `now`: it is closed when it has
/// outlived `max_lifetime`, and otherwise goes to the back of the idle queue
/// with `now` as its last visit; either way it no longer counts as in use.
pub open spec fn release_spec<C>(
    s: InternalsView<C>,
    conn: IdleConn<C>,
    now: u128,
    max_lifetime: Option<u128>,
) -> InternalsView<C> {
    if lifetime_expired(conn.created, now, max_lifetime) {
        discard_spec(s)
    } else {
        InternalsView { idle: s.idle.push(IdleConn { last_visited: now, ..conn }), active: (s.active - 1) as u32, ..s }
    }
}

/// The periodic check takes the oldest idle connection out: it is dropped
/// when expired, and otherwise counted in use while the caller checks it.
pub open spec fn check_next_spec<C>(
    s: InternalsView<C>,
    now: u128,
    idle_timeout: Option<u128>,
    max_lifetime: Option<u128>,
) -> (InternalsView<C>, CheckStep<C>) {
    if s.idle.len() == 0 {
        (s, CheckStep::Empty)
    } else {
        let c = s.idle[0];
        if conn_expired(c, now, idle_timeout, max_lifetime) {
            (InternalsView { idle: s.idle.drop_first(), ..s }, CheckStep::Expired)
        } else {
            (InternalsView { idle: s.idle.drop_first(), active: (s.active + 1) as u32, ..s }, CheckStep::Recheck(c))
        }
    }
}

/// A connection that passed its health check goes back to the end of the
/// idle queue, its time stamps unchanged, and no longer counts as in use.
pub open spec fn return_checked_spec<C>(s: InternalsView<C>, conn: IdleConn<C>) -> InternalsView<C> {
    InternalsView { idle: s.idle.push(conn), active: (s.active - 1) as u32, ..s }
}

/// The shared state of a pool: its idle connections and the number of
/// connections in use.
pub struct PoolInternals<C> {
    conns: VecDeque<IdleConn<C>>,
    active: u32,
    max_size: u32,
}

impl<C> View for PoolInternals<C> {
    type V = InternalsView<C>;

    closed spec fn view(&self) -> InternalsView<C> {
        InternalsView { idle: self.conns@, active: self.active, max_size: self.max_size }
    }
}

impl<C> PoolInternals<C> {
    /// No idle connection and none in use, with a limit of `max_size` (0 for
    /// no limit).
    pub fn new(max_size: u32) -> (p: Self)
        ensures
            p@.idle == Seq::<IdleConn<C>>::empty(),
            p@.active == 0,
            p@.max_size == max_size,
            within_limit(p@),
    {
        PoolInternals { conns: VecDeque::new(), active: 0, max_size }
    }

    /// The number of connections in use.
    pub fn active(&self) -> (n: u32)
        ensures
            n == self@.active,
    {
        self.active
    }

    /// The number of idle connections.
    pub fn idle_count(&self) -> (n: usize)
        ensures
            n == self@.idle.len(),
    {
        self.conns.len()
    }

    /// The limit of connections.
    pub fn max_size(&self) -> (n: u32)
        ensures
            n == self@.max_size,
    {
        self.max_size
    }

    /// Whether a request or a check step can count one more connection in
    /// use; see `can_count`.
    pub fn can_count(&self) -> (r: bool)
        ensures
            r == can_count(self@),
    {
        self.active < u32::MAX || (self.max_size > 0 && (self.active as u128) + (self.conns.len() as u128)
            <= self.max_size as u128)
    }

    /// The counts of connections in use and idle, and the limit.
    pub fn stats(&self) -> (st: PoolStats)
        ensures
            st.active == self@.active,
            st.idle == self@.idle.len(),
            st.max_size == self@.max_size,
    {
        PoolStats { active: self.active, idle: self.conns.len(), max_size: self.max_size }
    }

    /// Drops the idle connections that have expired at `now`, keeping the
    /// order of the others.
    fn drop_expired(&mut self, now: u128, idle_timeout: Option<u128>, max_lifetime: Option<u128>)
        ensures
            final(self)@ == (InternalsView {
                idle: live_part(old(self)@.idle, now, idle_timeout, max_lifetime),
                ..old(self)@
            }),
    {
        let ghost orig = self.conns@;
        let ghost pred = |c: IdleConn<C>| !conn_expired(c, now, idle_timeout, max_lifetime);
        let mut kept: VecDeque<IdleConn<C>> = VecDeque::new();
        let n = self.conns.len();
        let mut i: usize = 0;
        while i < n
            invariant
                n == orig.len(),
                0 <= i <= n,
                self.active == old(self).active,
                self.max_size == old(self).max_size,
                pred == (|c: IdleConn<C>| !conn_expired(c, now, idle_timeout, max_lifetime)),
                self.conns@ == orig.skip(i as int),
                kept@ == orig.take(i as int).filter(pred),
            decreases n - i,
        {
            let c = self.conns.pop_front().unwrap();
            proof {
                assert(orig.take(i + 1) =~= orig.take(i as int).push(orig[i as int]));
                assert(orig.skip(i + 1) =~= orig.skip(i as int).drop_first());
                orig.take(i as int).lemma_filter_push(orig[i as int], pred);
                assert(c == orig[i as int]);
            }
            if !is_expired(&c, now, idle_timeout, max_lifetime) {
                kept.push_back(c);
            }
            i = i + 1;
        }
        proof {
            assert(orig.take(n as int) =~= orig);
        }
        self.conns = kept;
    }

    /// Serves a request for a connection at `now`; see `acquire_spec`.
    pub fn acquire(&mut self, now: u128, idle_timeout: Option<u128>, max_lifetime: Option<u128>) -> (r: Checkout<C>)
        requires
            can_count(old(self)@),
        ensures
            (final(self)@, r) == acquire_spec(old(self)@, now, idle_timeout, max_lifetime),
            within_limit(old(self)@) ==> within_limit(final(self)@),
    {
        proof {
            broadcast use vstd::seq_lib::group_filter_ensures;
        }
        self.drop_expired(now, idle_timeout, max_lifetime);
        if let Some(conn) = self.conns.pop_front() {
            self.active = self.active + 1;
            return Checkout::Reuse(conn);
        }
        if self.max_size > 0 && self.active >= self.max_size {
            return Checkout::Exhausted;
        }
        self.active = self.active + 1;
        Checkout::Create
    }

    /// Creating an admitted connection failed; see `discard_spec`.
    pub fn creation_failed(&mut self)
        requires
            old(self)@.active > 0,
        ensures
            final(self)@ == discard_spec(old(self)@),
            within_limit(old(self)@) ==> within_limit(final(self)@),
    {
        self.active = self.active - 1;
    }

    /// A connection in use is handed back at `now`; see `release_spec`.
    /// Returns whether it joined the idle queue.
    pub fn release(&mut self, conn: IdleConn<C>, now: u128, max_lifetime: Option<u128>) -> (kept: bool)
        requires
            old(self)@.active > 0,
        ensures
            final(self)@ == release_spec(old(self)@, conn, now, max_lifetime),
            kept == !lifetime_expired(conn.created, now, max_lifetime),
            within_limit(old(self)@) ==> within_limit(final(self)@),
    {
        self.active = self.active - 1;
        if exceed_max_lifetime(&conn, now, max_lifetime) {
            return false;
        }
        let mut conn = conn;
        conn.last_visited = now;
        self.conns.push_back(conn);
        true
    }

    /// One step of the periodic check; see `check_next_spec`.
    pub fn check_next(&mut self, now: u128, idle_timeout: Option<u128>, max_lifetime: Option<u128>) -> (r: CheckStep<C>)
        requires
            can_count(old(self)@),
        ensures
            (final(self)@, r) == check_next_spec(old(self)@, now, idle_timeout, max_lifetime),
            within_limit(old(self)@) ==> within_limit(final(self)@),
    {
        match self.conns.pop_front() {
            None => CheckStep::Empty,
            Some(conn) => {
                if is_expired(&conn, now, idle_timeout, max_lifetime) {
                    CheckStep::Expired
                } else {
                    self.active = self.active + 1;
                    CheckStep::Recheck(conn)
                }
            },
        }
    }

    /// A connection that passed its health check goes back; see
    /// `return_checked_spec`.
    pub fn return_checked(&mut self, conn: IdleConn<C>)
        requires
            old(self)@.active > 0,
        ensures
            final(self)@ == return_checked_spec(old(self)@, conn),
            within_limit(old(self)@) ==> within_limit(final(self)@),
    {
        self.conns.push_back(conn);
        self.active = self.active - 1;
    }

    /// A connection failed its health check and is dropped; see
    /// `discard_spec`.
    pub fn check_failed(&mut self)
        requires
            old(self)@.active > 0,
        ensures
            final(self)@ == discard_spec(old(self)@),
            within_limit(old(self)@) ==> within_limit(final(self)@),
    {
        self.active = self.active - 1;
    }
}

/// Filtering a sequence whose every element passes leaves it as it is.
proof fn lemma_filter_all<A>(s: Seq<A>, pred: spec_fn(A) -> bool)
    requires
        forall|i: int| 0 <= i < s.len() ==> pred(#[trigger] s[i]),
    ensures
        s.filter(pred) == s,
    decreases s.len(),
{
    reveal(Seq::filter);
    if s.len() > 0 {
        lemma_filter_all(s.drop_last(), pred);
        assert(s.drop_last().push(s.last()) =~= s);
    }
}

/// A connection handed back to a pool with no idle connection, and not past
/// its lifetime, is the one the next request at the same moment gets, and
/// the request leaves the pool as it was before the hand-back.
pub proof fn lemma_release_then_acquire<C>(
    s: InternalsView<C>,
    conn: IdleConn<C>,
    now: u128,
    idle_timeout: Option<u128>,
    max_lifetime: Option<u128>,
)
    requires
        s.active > 0,
        s.idle.len() == 0,
        !lifetime_expired(conn.created, now, max_lifetime),
    ensures
        acquire_spec(release_spec(s, conn, now, max_lifetime), now, idle_timeout, max_lifetime).1 == Checkout::Reuse(
            IdleConn { last_visited: now, ..conn },
        ),
        acquire_spec(release_spec(s, conn, now, max_lifetime), now, idle_timeout, max_lifetime).0 == s,
{
    let s1 = release_spec(s, conn, now, max_lifetime);
    let pred = |c: IdleConn<C>| !conn_expired(c, now, idle_timeout, max_lifetime);
    lemma_filter_all(s1.idle, pred);
    assert(s1.idle.drop_first() =~= s.idle);
}

/// Idle connections are handed out first in, first out: while none of them
/// has expired, a request gets the oldest one, also right after another one
/// was handed back.
pub proof fn lemma_release_keeps_order<C>(
    s: InternalsView<C>,
    conn: IdleConn<C>,
    now: u128,
    idle_timeout: Option<u128>,
    max_lifetime: Option<u128>,
)
    requires
        s.active > 0,
        s.idle.len() > 0,
        forall|i: int| 0 <= i < s.idle.len() ==> !conn_expired(#[trigger] s.idle[i], now, idle_timeout, max_lifetime),
        !lifetime_expired(conn.created, now, max_lifetime),
    ensures
        acquire_spec(release_spec(s, conn, now, max_lifetime), now, idle_timeout, max_lifetime).1 == Checkout::Reuse(
            s.idle[0],
        ),
        acquire_spec(release_spec(s, conn, now, max_lifetime), now, idle_timeout, max_lifetime).0.idle == s.idle.drop_first().push(
            IdleConn { last_visited: now, ..conn },
        ),
{
    let s1 = release_spec(s, conn, now, max_lifetime);
    let pred = |c: IdleConn<C>| !conn_expired(c, now, idle_timeout, max_lifetime);
    assert forall|i: int| 0 <= i < s1.idle.len() implies pred(#[trigger] s1.idle[i]) by {
        if i < s.idle.len() {
            assert(s1.idle[i] == s.idle[i]);
        }
    }
    lemma_filter_all(s1.idle, pred);
    assert(s1.idle.drop_first() =~= s.idle.drop_first().push(IdleConn { last_visited: now, ..conn }));
}

/// A request never hands out a connection that sat idle or lived too long,
/// and a connection handed back past its lifetime is closed, never kept.
pub proof fn lemma_expired_never_served<C>(
    s: InternalsView<C>,
    conn: IdleConn<C>,
    now: u128,
    idle_timeout: Option<u128>,
    max_lifetime: Option<u128>,
)
    ensures
        acquire_spec(s, now, idle_timeout, max_lifetime).1 matches Checkout::Reuse(c) ==> !conn_expired(
            c,
            now,
            idle_timeout,
            max_lifetime,
        ),
        forall|i: int|
            0 <= i < acquire_spec(s, now, idle_timeout, max_lifetime).0.idle.len() ==> !conn_expired(
                #[trigger] acquire_spec(s, now, idle_timeout, max_lifetime).0.idle[i],
                now,
                idle_timeout,
                max_lifetime,
            ),
        lifetime_expired(conn.created, now, max_lifetime) ==> release_spec(s, conn, now, max_lifetime).idle == s.idle,
{
    broadcast use vstd::seq_lib::group_filter_ensures;
    let live = live_part(s.idle, now, idle_timeout, max_lifetime);
    if live.len() > 0 {
        assert(forall|i: int| 0 <= i < live.drop_first().len() ==> live.drop_first()[i] == live[i + 1]);
    }
}

/// When the creation of an admitted connection fails, reporting it gives
/// the reserved place back: the count in use is as before the request, and
/// only the idle connections that had expired are gone.
pub proof fn lemma_failed_creation_undoes_acquire<C>(
    s: InternalsView<C>,
    now: u128,
    idle_timeout: Option<u128>,
    max_lifetime: Option<u128>,
)
    requires
        can_count(s),
        acquire_spec(s, now, idle_timeout, max_lifetime).1 is Create,
    ensures
        discard_spec(acquire_spec(s, now, idle_timeout, max_lifetime).0) == (InternalsView {
            idle: live_part(s.idle, now, idle_timeout, max_lifetime),
            ..s
        }),
{
    broadcast use vstd::seq_lib::group_filter_ensures;
}

/// A request is refused exactly when no idle connection is left once the
/// expired ones are dropped and the limit of connections in use is reached;
/// a refused request leaves the count in use as it was, and an admitted one
/// never takes it past the limit.
pub proof fn lemma_acquire_respects_limit<C>(
    s: InternalsView<C>,
    now: u128,
    idle_timeout: Option<u128>,
    max_lifetime: Option<u128>,
)
    requires
        can_count(s),
    ensures
        acquire_spec(s, now, idle_timeout, max_lifetime).1 is Exhausted <==> (live_part(
            s.idle,
            now,
            idle_timeout,
            max_lifetime,
        ).len() == 0 && s.max_size > 0 && s.active >= s.max_size),
        acquire_spec(s, now, idle_timeout, max_lifetime).1 is Exhausted ==> acquire_spec(
            s,
            now,
            idle_timeout,
            max_lifetime,
        ).0.active == s.active,
        (acquire_spec(s, now, idle_timeout, max_lifetime).1 is Create && s.max_size > 0) ==> acquire_spec(
            s,
            now,
            idle_timeout,
            max_lifetime,
        ).0.active <= s.max_size,
{
    broadcast use vstd::seq_lib::group_filter_ensures;
}

/// Reusing an idle connection, handing one back and putting a checked one
/// back move a connection between idle and in use: the sum of the two counts
/// stays the same.
pub proof fn lemma_moves_between_idle_and_active<C>(
    s: InternalsView<C>,
    conn: IdleConn<C>,
    now: u128,
    idle_timeout: Option<u128>,
    max_lifetime: Option<u128>,
)
    requires
        can_count(s),
    ensures
        acquire_spec(s, now, idle_timeout, max_lifetime).1 is Reuse ==> acquire_spec(s, now, idle_timeout, max_lifetime).0.active
            + acquire_spec(s, now, idle_timeout, max_lifetime).0.idle.len() == s.active + live_part(
            s.idle,
            now,
            idle_timeout,
            max_lifetime,
        ).len(),
        (s.active > 0 && !lifetime_expired(conn.created, now, max_lifetime)) ==> release_spec(
            s,
            conn,
            now,
            max_lifetime,
        ).active + release_spec(s, conn, now, max_lifetime).idle.len() == s.active + s.idle.len(),
        s.active > 0 ==> return_checked_spec(s, conn).active + return_checked_spec(s, conn).idle.len() == s.active
            + s.idle.len(),
        check_next_spec(s, now, idle_timeout, max_lifetime).1 is Recheck ==> check_next_spec(
            s,
            now,
            idle_timeout,
            max_lifetime,
        ).0.active + check_next_spec(s, now, idle_timeout, max_lifetime).0.idle.len() == s.active + s.idle.len(),
{
    broadcast use vstd::seq_lib::group_filter_ensures;
}

/// The periodic check drops expired idle connections without touching the
/// count in use, and counts a connection it hands out for a health check as
/// in use; it never hands out an expired one.
pub proof fn lemma_check_step<C>(
    s: InternalsView<C>,
    now: u128,
    idle_timeout: Option<u128>,
    max_lifetime: Option<u128>,
)
    requires
        can_count(s),
    ensures
        check_next_spec(s, now, idle_timeout, max_lifetime).0.max_size == s.max_size,
        check_next_spec(s, now, idle_timeout, max_lifetime).1 is Expired ==> check_next_spec(
            s,
            now,
            idle_timeout,
            max_lifetime,
        ).0.active == s.active,
        check_next_spec(s, now, idle_timeout, max_lifetime).1 matches CheckStep::Recheck(c) ==> (!conn_expired(
            c,
            now,
            idle_timeout,
            max_lifetime,
        ) && check_next_spec(s, now, idle_timeout, max_lifetime).0.active == s.active + 1),
        s.idle.len() > 0 ==> check_next_spec(s, now, idle_timeout, max_lifetime).0.idle == s.idle.drop_first(),
{
}

/// Every operation keeps the connections in use and idle together within the
/// limit: requests, failed creations, hand-backs, and every step of the
/// periodic check. Within the limit, the connections in use never exceed it.
pub proof fn lemma_limit_is_kept<C>(
    s: InternalsView<C>,
    conn: IdleConn<C>,
    now: u128,
    idle_timeout: Option<u128>,
    max_lifetime: Option<u128>,
)
    requires
        within_limit(s),
    ensures
        s.max_size > 0 ==> s.active <= s.max_size,
        can_count(s) ==> within_limit(acquire_spec(s, now, idle_timeout, max_lifetime).0),
        s.active > 0 ==> within_limit(discard_spec(s)),
        s.active > 0 ==> within_limit(release_spec(s, conn, now, max_lifetime)),
        can_count(s) ==> within_limit(check_next_spec(s, now, idle_timeout, max_lifetime).0),
        s.active > 0 ==> within_limit(return_checked_spec(s, conn)),
{
    broadcast use vstd::seq_lib::group_filter_ensures;
}

/// Something that happens to a pool, with the moment it happens at.
pub enum PoolEvent<C> {
    /// A request for a connection.
    Request(u128),
    /// The creation of an admitted connection failed.
    CreationFailed,
    /// A connection in use is handed back.
    Release(IdleConn<C>, u128),
    /// The periodic check looks at the oldest idle connection.
    CheckNext(u128),
    /// A connection passed its health check.
    CheckPassed(IdleConn<C>),
    /// A connection failed its health check.
    CheckFailed,
}

/// The state after one event, for a pool with these timeouts.
pub open spec fn step<C>(
    s: InternalsView<C>,
    e: PoolEvent<C>,
    idle_timeout: Option<u128>,
    max_lifetime: Option<u128>,
) -> InternalsView<C> {
    match e {
        PoolEvent::Request(now) => acquire_spec(s, now, idle_timeout, max_lifetime).0,
        PoolEvent::CreationFailed => discard_spec(s),
        PoolEvent::Release(c, now) => release_spec(s, c, now, max_lifetime),
        PoolEvent::CheckNext(now) => check_next_spec(s, now, idle_timeout, max_lifetime).0,
        PoolEvent::CheckPassed(c) => return_checked_spec(s, c),
        PoolEvent::CheckFailed => discard_spec(s),
    }
}

/// The event meets the precondition of the operation that performs it.
pub open spec fn step_allowed<C>(s: InternalsView<C>, e: PoolEvent<C>) -> bool {
    match e {
        PoolEvent::Request(_) => can_count(s),
        PoolEvent::CheckNext(_) => can_count(s),
        _ => s.active > 0,
    }
}

/// How many connections the event takes out of the pool (negative: brings
/// back or gives up): a served request and a connection handed out for a
/// health check take one out; a failed creation, a hand-back and the end of
/// a health check give one back.
pub open spec fn taken_out<C>(
    s: InternalsView<C>,
    e: PoolEvent<C>,
    idle_timeout: Option<u128>,
    max_lifetime: Option<u128>,
) -> int {
    match e {
        PoolEvent::Request(now) => if acquire_spec(s, now, idle_timeout, max_lifetime).1 is Exhausted {
            0
        } else {
            1
        },
        PoolEvent::CheckNext(now) => if check_next_spec(s, now, idle_timeout, max_lifetime).1 is Recheck {
            1
        } else {
            0
        },
        _ => -1,
    }
}

/// The state after a sequence of events.
pub open spec fn run<C>(
    s: InternalsView<C>,
    events: Seq<PoolEvent<C>>,
    idle_timeout: Option<u128>,
    max_lifetime: Option<u128>,
) -> InternalsView<C>
    decreases events.len(),
{
    if events.len() == 0 {
        s
    } else {
        step(run(s, events.drop_last(), idle_timeout, max_lifetime), events.last(), idle_timeout, max_lifetime)
    }
}

/// Every event of the sequence meets the precondition of its operation.
pub open spec fn run_allowed<C>(
    s: InternalsView<C>,
    events: Seq<PoolEvent<C>>,
    idle_timeout: Option<u128>,
    max_lifetime: Option<u128>,
) -> bool
    decreases events.len(),
{
    events.len() == 0 || (run_allowed(s, events.drop_last(), idle_timeout, max_lifetime) && step_allowed(
        run(s, events.drop_last(), idle_timeout, max_lifetime),
        events.last(),
    ))
}

/// The connections that the events took out of the pool and have not given
/// back.
pub open spec fn net_taken_out<C>(
    s: InternalsView<C>,
    events: Seq<PoolEvent<C>>,
    idle_timeout: Option<u128>,
    max_lifetime: Option<u128>,
) -> int
    decreases events.len(),
{
    if events.len() == 0 {
        0
    } else {
        net_taken_out(s, events.drop_last(), idle_timeout, max_lifetime) + taken_out(
            run(s, events.drop_last(), idle_timeout, max_lifetime),
            events.last(),
            idle_timeout,
            max_lifetime,
        )
    }
}

/// The count in use is the number of connections taken out and not given
/// back: after any sequence of operations, it has grown by exactly the
/// connections handed out (to requests or to the health check) and shrunk by
/// exactly those given back; and a pool that started within its limit stays
/// within it.
pub proof fn lemma_active_counts_taken_out<C>(
    s: InternalsView<C>,
    events: Seq<PoolEvent<C>>,
    idle_timeout: Option<u128>,
    max_lifetime: Option<u128>,
)
    requires
        run_allowed(s, events, idle_timeout, max_lifetime),
    ensures
        run(s, events, idle_timeout, max_lifetime).active == s.active + net_taken_out(
            s,
            events,
            idle_timeout,
            max_lifetime,
        ),
        run(s, events, idle_timeout, max_lifetime).max_size == s.max_size,
        within_limit(s) ==> within_limit(run(s, events, idle_timeout, max_lifetime)),
    decreases events.len(),
{
    broadcast use vstd::seq_lib::group_filter_ensures;
    if events.len() > 0 {
        lemma_active_counts_taken_out(s, events.drop_last(), idle_timeout, max_lifetime);
    }
}

/// A pool without a limit never refuses a request.
pub proof fn lemma_unlimited_never_refuses<C>(
    s: InternalsView<C>,
    now: u128,
    idle_timeout: Option<u128>,
    max_lifetime: Option<u128>,
)
    requires
        s.max_size == 0,
        s.active < u32::MAX,
    ensures
        !(acquire_spec(s, now, idle_timeout, max_lifetime).1 is Exhausted),
        acquire_spec(s, now, idle_timeout, max_lifetime).0.max_size == 0,
{
}

/// A pool that starts empty with a limit of `max_size` keeps the
/// connections in use and idle together within that limit, whatever
/// requests, failed creations, hand-backs and check steps follow.
pub proof fn lemma_new_pool_stays_within_limit<C>(
    max_size: u32,
    events: Seq<PoolEvent<C>>,
    idle_timeout: Option<u128>,
    max_lifetime: Option<u128>,
)
    requires
        run_allowed(
            InternalsView { idle: Seq::empty(), active: 0, max_size },
            events,
            idle_timeout,
            max_lifetime,
        ),
    ensures
        within_limit(
            run(InternalsView { idle: Seq::empty(), active: 0, max_size }, events, idle_timeout, max_lifetime),
        ),
        max_size > 0 ==> run(
            InternalsView { idle: Seq::empty(), active: 0, max_size },
            events,
            idle_timeout,
            max_lifetime,
        ).active + run(
            InternalsView { idle: Seq::empty(), active: 0, max_size },
            events,
            idle_timeout,
            max_lifetime,
        ).idle.len() <= max_size,
{
    lemma_active_counts_taken_out(
        InternalsView { idle: Seq::empty(), active: 0, max_size },
        events,
        idle_timeout,
        max_lifetime,
    );
}

/// How much longer a request may wait for a connection to come back.
pub enum WaitLeft {
    /// There is no timeout: wait as long as it takes.
    Unbounded,
    /// This many nanoseconds are left.
    Remaining(u128),
    /// The timeout has run out.
    Elapsed,
}

/// The wait left at `now` for a request that started at `started` and may
/// wait `timeout` (none: without end).
pub open spec fn wait_left_spec(started: u128, now: u128, timeout: Option<u128>) -> WaitLeft {
    match timeout {
        None => WaitLeft::Unbounded,
        Some(t) => if crate::time::age(started, now) < t {
            WaitLeft::Remaining((t - crate::time::age(started, now)) as u128)
        } else {
            WaitLeft::Elapsed
        },
    }
}

/// The time an admitted request may still spend creating its connection:
/// what is left of its wait (`None`: no bound).
pub open spec fn creation_budget_spec(started: u128, now: u128, timeout: Option<u128>) -> Option<u128> {
    match wait_left_spec(started, now, timeout) {
        WaitLeft::Unbounded => None,
        WaitLeft::Remaining(d) => Some(d),
        WaitLeft::Elapsed => Some(0),
    }
}

/// The time an admitted request may still spend creating its connection;
/// see `creation_budget_spec`.
pub fn creation_budget(started: u128, now: u128, timeout: Option<u128>) -> (b: Option<u128>)
    ensures
        b == creation_budget_spec(started, now, timeout),
        b matches Some(d) ==> timeout matches Some(t) && d <= t,
{
    match wait_left(started, now, timeout) {
        WaitLeft::Unbounded => None,
        WaitLeft::Remaining(d) => Some(d),
        WaitLeft::Elapsed => Some(0),
    }
}

/// How much longer a refused request may wait for a connection to come
/// back; see `wait_left_spec`.
pub fn wait_left(started: u128, now: u128, timeout: Option<u128>) -> (w: WaitLeft)
    ensures
        w == wait_left_spec(started, now, timeout),
{
    match timeout {
        None => WaitLeft::Unbounded,
        Some(t) => {
            let waited = crate::time::elapsed(started, now);
            if waited < t {
                WaitLeft::Remaining(t - waited)
            } else {
                WaitLeft::Elapsed
            }
        },
    }
}


/// The builder's defaults: connections live at most 30 minutes, may idle 3
/// minutes, are created within 3 seconds and checked every 3 seconds, and at
/// most 10 are in use.
pub proof fn lemma_builder_defaults()
    ensures
        DEFAULT_MAX_LIFETIME == 30 * 60 * NANOS_PER_SEC,
        DEFAULT_IDLE_TIMEOUT == 3 * 60 * NANOS_PER_SEC,
        DEFAULT_CONNECTION_TIMEOUT == 3 * NANOS_PER_SEC,
        DEFAULT_CHECK_INTERVAL == 3 * NANOS_PER_SEC,
        DEFAULT_MAX_SIZE == 10,
{
}

/// An idle timeout expires a connection exactly when it is at least a
/// microsecond and the last visit lies more than that before `now`; the same
/// holds of the maximum lifetime and the creation time; without a timeout
/// nothing expires.
pub proof fn lemma_expiry_rules<C>(c: IdleConn<C>, now: u128, t: u128)
    ensures
        idle_expired(c.last_visited, now, Some(t)) <==> (t >= 1000 && c.last_visited + t < now),
        lifetime_expired(c.created, now, Some(t)) <==> (t >= 1000 && c.created + t < now),
        !idle_expired(c.last_visited, now, None),
        !lifetime_expired(c.created, now, None),
        conn_expired(c, now, None, None) == false,
        forall|it: Option<u128>, ml: Option<u128>|
            #[trigger] conn_expired(c, now, it, ml) <==> (idle_expired(c.last_visited, now, it) || lifetime_expired(
                c.created,
                now,
                ml,
            )),
{
}

/// The periodic check looks at the oldest idle connection: it drops it when
/// it expired, leaving the count in use as it was; otherwise it hands out
/// exactly that entry, its connection and both stamps unchanged, and counts
/// it in use. Put back after a passed check, the entry goes to the back with
/// its stamps unchanged, so the check never resets its idle clock.
pub proof fn lemma_check_hands_out_oldest_unchanged<C>(
    s: InternalsView<C>,
    now: u128,
    idle_timeout: Option<u128>,
    max_lifetime: Option<u128>,
)
    requires
        can_count(s),
    ensures
        s.idle.len() == 0 ==> check_next_spec(s, now, idle_timeout, max_lifetime) == (s, CheckStep::<C>::Empty),
        (s.idle.len() > 0 && conn_expired(s.idle[0], now, idle_timeout, max_lifetime)) ==> {
            &&& check_next_spec(s, now, idle_timeout, max_lifetime).1 is Expired
            &&& check_next_spec(s, now, idle_timeout, max_lifetime).0.idle == s.idle.drop_first()
            &&& check_next_spec(s, now, idle_timeout, max_lifetime).0.active == s.active
        },
        (s.idle.len() > 0 && !conn_expired(s.idle[0], now, idle_timeout, max_lifetime)) ==> {
            &&& check_next_spec(s, now, idle_timeout, max_lifetime).1 == CheckStep::Recheck(s.idle[0])
            &&& check_next_spec(s, now, idle_timeout, max_lifetime).0.idle == s.idle.drop_first()
            &&& check_next_spec(s, now, idle_timeout, max_lifetime).0.active == s.active + 1
            &&& return_checked_spec(check_next_spec(s, now, idle_timeout, max_lifetime).0, s.idle[0]).idle
                == s.idle.drop_first().push(s.idle[0])
            &&& return_checked_spec(check_next_spec(s, now, idle_timeout, max_lifetime).0, s.idle[0]).active
                == s.active
        },
{
}

/// The first element of a filtered sequence is the first element that
/// passes the filter.
proof fn lemma_filter_first<A>(s: Seq<A>, pred: spec_fn(A) -> bool)
    requires
        s.filter(pred).len() > 0,
    ensures
        exists|i: int|
            0 <= i < s.len() && s.filter(pred)[0] == s[i] && pred(s[i]) && forall|k: int|
                0 <= k < i ==> !pred(#[trigger] s[k]),
    decreases s.len(),
{
    reveal(Seq::filter);
    broadcast use vstd::seq_lib::group_filter_ensures;
    let r = s.drop_last();
    if r.filter(pred).len() > 0 {
        lemma_filter_first(r, pred);
        let i = choose|i: int|
            0 <= i < r.len() && r.filter(pred)[0] == r[i] && pred(r[i]) && forall|k: int|
                0 <= k < i ==> !pred(#[trigger] r[k]);
        assert(s.filter(pred)[0] == r.filter(pred)[0]);
        assert forall|k: int| 0 <= k < i implies !pred(#[trigger] s[k]) by {
            assert(s[k] == r[k]);
        }
        assert(s[i] == r[i]);
    } else {
        assert forall|k: int| 0 <= k < r.len() implies !pred(#[trigger] r[k]) by {
            if pred(r[k]) {
                assert(r.filter(pred).contains(r[k]));
            }
        }
        let i = s.len() - 1;
        assert(s.filter(pred)[0] == s[i]);
        assert forall|k: int| 0 <= k < i implies !pred(#[trigger] s[k]) by {
            assert(s[k] == r[k]);
        }
    }
}

/// A request reuses the oldest idle connection that has not expired, as it
/// was: every idle connection before it had expired. It counts one more
/// connection in use unless it is refused, and it creates only when no idle
/// connection is left alive.
pub proof fn lemma_acquire_takes_oldest_live<C>(
    s: InternalsView<C>,
    now: u128,
    idle_timeout: Option<u128>,
    max_lifetime: Option<u128>,
)
    requires
        can_count(s),
    ensures
        acquire_spec(s, now, idle_timeout, max_lifetime).1 matches Checkout::Reuse(c) ==> exists|i: int|
            0 <= i < s.idle.len() && c == s.idle[i] && !conn_expired(c, now, idle_timeout, max_lifetime) && forall|
                k: int,
            |
                0 <= k < i ==> conn_expired(#[trigger] s.idle[k], now, idle_timeout, max_lifetime),
        !(acquire_spec(s, now, idle_timeout, max_lifetime).1 is Reuse) ==> forall|k: int|
            0 <= k < s.idle.len() ==> conn_expired(#[trigger] s.idle[k], now, idle_timeout, max_lifetime),
        acquire_spec(s, now, idle_timeout, max_lifetime).0.active == (if acquire_spec(
            s,
            now,
            idle_timeout,
            max_lifetime,
        ).1 is Exhausted {
            s.active as int
        } else {
            s.active + 1
        }),
        acquire_spec(s, now, idle_timeout, max_lifetime).0.max_size == s.max_size,
{
    broadcast use vstd::seq_lib::group_filter_ensures;
    let pred = |c: IdleConn<C>| !conn_expired(c, now, idle_timeout, max_lifetime);
    let live = live_part(s.idle, now, idle_timeout, max_lifetime);
    if live.len() > 0 {
        lemma_filter_first(s.idle, pred);
    } else {
        assert forall|k: int| 0 <= k < s.idle.len() implies conn_expired(
            #[trigger] s.idle[k],
            now,
            idle_timeout,
            max_lifetime,
        ) by {
            if pred(s.idle[k]) {
                assert(live.contains(s.idle[k]));
            }
        }
    }
}

/// A connection handed back at `now` within its lifetime goes to the back of
/// the idle queue with its connection and creation time kept and `now` as
/// its last visit; one past its lifetime is closed, the idle queue left as
/// it was. Either way one connection fewer is in use.
pub proof fn lemma_release_exact<C>(s: InternalsView<C>, conn: IdleConn<C>, now: u128, max_lifetime: Option<u128>)
    ensures
        !lifetime_expired(conn.created, now, max_lifetime) ==> release_spec(s, conn, now, max_lifetime).idle
            == s.idle.push(IdleConn { conn: conn.conn, last_visited: now, created: conn.created }),
        lifetime_expired(conn.created, now, max_lifetime) ==> release_spec(s, conn, now, max_lifetime).idle
            == s.idle,
        s.active > 0 ==> release_spec(s, conn, now, max_lifetime).active == s.active - 1,
        release_spec(s, conn, now, max_lifetime).max_size == s.max_size,
{
}

/// The wait left to a refused request depends only on the time since the
/// request started: the whole timeout at the start, the timeout less the
/// time gone by while that is shorter, and none after; without a timeout it
/// is unbounded. Creating gets exactly what is left, and the whole timeout
/// at the start.
pub proof fn lemma_wait_counts_from_request(started: u128, now: u128, t: u128, shift: u128)
    ensures
        wait_left_spec(started, now, None) is Unbounded,
        (started <= now && now - started < t) ==> wait_left_spec(started, now, Some(t)) == WaitLeft::Remaining(
            (t - (now - started)) as u128,
        ),
        (started <= now && now - started >= t) ==> wait_left_spec(started, now, Some(t)) is Elapsed,
        t > 0 ==> wait_left_spec(started, started, Some(t)) == WaitLeft::Remaining(t),
        t > 0 ==> creation_budget_spec(started, started, Some(t)) == Some(t),
        creation_budget_spec(started, now, None) is None,
        (started <= now && now - started < t) ==> creation_budget_spec(started, now, Some(t)) == Some(
            (t - (now - started)) as u128,
        ),
        (started <= now && now - started >= t) ==> creation_budget_spec(started, now, Some(t)) == Some(0u128),
        (started <= now && now as int + shift <= u128::MAX) ==> wait_left_spec(
            (started + shift) as u128,
            (now + shift) as u128,
            Some(t),
        ) == wait_left_spec(started, now, Some(t)),
{
}

} // verus!
