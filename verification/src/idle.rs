use std::collections::VecDeque;
use vstd::prelude::*;

use crate::time::{fresh, is_fresh};

verus! {

broadcast use vstd::seq_lib::group_seq_properties;

/// A connection that waits in a pool, with the point in time from which its
/// idle age is counted.
pub struct Stamped<T> {
    pub conn: T,
    pub since: u128,
}

impl<T> Stamped<T> {
    /// Stamps `conn` with `now`.
    pub fn new(conn: T, now: u128) -> (s: Self)
        ensures
            s.conn == conn,
            s.since == now,
    {
        Stamped { conn, since: now }
    }
}

/// The entries of `s` that are still fresh at `now`, in their order.
pub open spec fn fresh_part<T>(s: Seq<Stamped<T>>, now: u128, max_idle: u128) -> Seq<Stamped<T>> {
    s.filter(|e: Stamped<T>| is_fresh(e.since, now, max_idle))
}

/// The entries of `s` that a sweep keeps: those still fresh at `now` whose
/// check (`valid`, by position) succeeded, in their order.
pub open spec fn swept<T>(s: Seq<Stamped<T>>, valid: Seq<bool>, now: u128, max_idle: u128) -> Seq<Stamped<T>>
    decreases s.len(),
{
    if s.len() == 0 {
        Seq::empty()
    } else {
        let rest = swept(s.drop_last(), valid, now, max_idle);
        let i = s.len() - 1;
        if is_fresh(s[i].since, now, max_idle) && valid[i] {
            rest.push(s[i])
        } else {
            rest
        }
    }
}

/// The queue `s` of capacity `cap` after `conn` is handed back at `now`: it
/// joins the back when there is room and is dropped otherwise.
pub open spec fn hand_back<T>(s: Seq<Stamped<T>>, cap: nat, conn: T, now: u128) -> Seq<Stamped<T>> {
    if s.len() < cap {
        s.push(Stamped { conn, since: now })
    } else {
        s
    }
}

/// A first-in first-out queue of idle connections that never holds more
/// than its capacity.
pub struct IdleQueue<T> {
    entries: VecDeque<Stamped<T>>,
    max_size: usize,
}

impl<T> View for IdleQueue<T> {
    type V = Seq<Stamped<T>>;

    closed spec fn view(&self) -> Seq<Stamped<T>> {
        self.entries@
    }
}

impl<T> IdleQueue<T> {
    /// The most entries the queue may hold.
    pub closed spec fn capacity(&self) -> nat {
        self.max_size as nat
    }

    /// The queue never holds more entries than its capacity.
    #[verifier::type_invariant]
    spec fn within_capacity(&self) -> bool {
        self.entries@.len() <= self.max_size
    }

    /// Takes the entries out, leaving the queue empty.
    fn take_entries(&mut self) -> (e: VecDeque<Stamped<T>>)
        ensures
            e@ == old(self)@,
            e@.len() <= old(self).capacity(),
            final(self)@ == Seq::<Stamped<T>>::empty(),
            final(self).capacity() == old(self).capacity(),
    {
        proof {
            use_type_invariant(&*self);
        }
        let mut e = VecDeque::new();
        std::mem::swap(&mut e, &mut self.entries);
        e
    }

    /// An empty queue that holds at most `max_size` entries.
    pub fn new(max_size: usize) -> (q: Self)
        ensures
            q@ == Seq::<Stamped<T>>::empty(),
            q.capacity() == max_size,
    {
        IdleQueue { entries: VecDeque::new(), max_size }
    }

    /// The number of idle entries, never more than the capacity.
    pub fn len(&self) -> (n: usize)
        ensures
            n == self@.len(),
            n <= self.capacity(),
    {
        proof {
            use_type_invariant(self);
        }
        self.entries.len()
    }

    /// The capacity.
    pub fn max_size(&self) -> (m: usize)
        ensures
            m == self.capacity(),
    {
        self.max_size
    }

    /// Takes the oldest entry out, if there is one.
    pub fn pop_front(&mut self) -> (r: Option<Stamped<T>>)
        ensures
            final(self).capacity() == old(self).capacity(),
            old(self)@.len() == 0 ==> r is None && final(self)@ == old(self)@,
            old(self)@.len() > 0 ==> r == Some(old(self)@[0]) && final(self)@ == old(self)@.drop_first(),
    {
        let mut e = self.take_entries();
        let r = e.pop_front();
        self.entries = e;
        r
    }

    /// Hands `conn` back, stamped with `now`; see `hand_back`. Returns
    /// whether it was kept.
    pub fn push_bounded(&mut self, conn: T, now: u128) -> (kept: bool)
        ensures
            final(self).capacity() == old(self).capacity(),
            kept == (old(self)@.len() < old(self).capacity()),
            final(self)@ == hand_back(old(self)@, old(self).capacity(), conn, now),
    {
        let mut e = self.take_entries();
        let kept = if e.len() < self.max_size {
            e.push_back(Stamped::new(conn, now));
            true
        } else {
            false
        };
        self.entries = e;
        kept
    }

    /// Drops the entries that are no longer fresh at `now`, then takes the
    /// oldest of the others out, if there is one.
    pub fn take_fresh(&mut self, now: u128, max_idle: u128) -> (r: Option<Stamped<T>>)
        ensures
            final(self).capacity() == old(self).capacity(),
            fresh_part(old(self)@, now, max_idle).len() == 0 ==> r is None && final(self)@ == fresh_part(
                old(self)@,
                now,
                max_idle,
            ),
            fresh_part(old(self)@, now, max_idle).len() > 0 ==> r == Some(fresh_part(old(self)@, now, max_idle)[0])
                && final(self)@ == fresh_part(old(self)@, now, max_idle).drop_first(),
    {
        self.retain_fresh(now, max_idle);
        self.pop_front()
    }

    /// Puts back entries taken out earlier, in their order, as far as there
    /// is room; the rest are dropped.
    pub fn refill(&mut self, entries: VecDeque<Stamped<T>>)
        ensures
            final(self).capacity() == old(self).capacity(),
            ({
                let room = old(self).capacity() - old(self)@.len();
                final(self)@ == old(self)@ + entries@.take(
                    if entries@.len() <= room { entries@.len() as int } else { room as int },
                )
            }),
    {
        let mut cur = self.take_entries();
        let max = self.max_size;
        let mut rest = entries;
        let ghost orig = rest@;
        let ghost start = cur@;
        let ghost room: int = max - start.len();
        let ghost limit: int = if orig.len() <= room { orig.len() as int } else { room };
        let n = rest.len();
        let mut i: usize = 0;
        while i < n && cur.len() < max
            invariant
                0 <= i <= limit,
                n == orig.len(),
                rest@ == orig.skip(i as int),
                cur@ == start + orig.take(i as int),
                cur@.len() == start.len() + i,
                cur@.len() <= max,
                room == max - start.len(),
                limit == (if orig.len() <= room { orig.len() as int } else { room }),
                start.len() <= max,
            decreases orig.len() - i,
        {
            let e = rest.pop_front().unwrap();
            proof {
                assert(orig.take(i + 1) =~= orig.take(i as int).push(orig[i as int]));
                assert(orig.skip(i + 1) =~= orig.skip(i as int).drop_first());
            }
            cur.push_back(e);
            i = i + 1;
        }
        self.entries = cur;
    }

    /// Takes every entry out, oldest first, leaving the queue empty.
    pub fn take_all(&mut self) -> (all: VecDeque<Stamped<T>>)
        ensures
            final(self).capacity() == old(self).capacity(),
            all@ == old(self)@,
            final(self)@ == Seq::<Stamped<T>>::empty(),
    {
        self.take_entries()
    }

    /// Drops every entry that is no longer fresh at `now`, keeping the order
    /// of the others.
    pub fn retain_fresh(&mut self, now: u128, max_idle: u128)
        ensures
            final(self).capacity() == old(self).capacity(),
            final(self)@ == fresh_part(old(self)@, now, max_idle),
    {
        let mut rest = self.take_entries();
        let ghost orig = rest@;
        let ghost pred = |e: Stamped<T>| is_fresh(e.since, now, max_idle);
        let mut kept: VecDeque<Stamped<T>> = VecDeque::new();
        let n = rest.len();
        let mut i: usize = 0;
        while i < n
            invariant
                n == orig.len(),
                pred == (|e: Stamped<T>| is_fresh(e.since, now, max_idle)),
                0 <= i <= n,
                rest@ == orig.skip(i as int),
                kept@ == orig.take(i as int).filter(pred),
            decreases n - i,
        {
            let e = rest.pop_front().unwrap();
            proof {
                assert(orig.take(i + 1) =~= orig.take(i as int).push(orig[i as int]));
                assert(orig.skip(i + 1) =~= orig.skip(i as int).drop_first());
                orig.take(i as int).lemma_filter_push(orig[i as int], pred);
                assert(e == orig[i as int]);
                assert(pred(e) == is_fresh(e.since, now, max_idle));
            }
            if fresh(e.since, now, max_idle) {
                kept.push_back(e);
            }
            i = i + 1;
        }
        proof {
            assert(orig.take(n as int) =~= orig);
            broadcast use vstd::seq_lib::group_filter_ensures;
        }
        self.entries = kept;
    }
}

/// The entries of `candidates` that are still fresh at `now` and whose
/// check succeeded (`valid`, by position), in their order.
pub fn sweep<T>(candidates: VecDeque<Stamped<T>>, now: u128, max_idle: u128, valid: &Vec<bool>) -> (kept: VecDeque<Stamped<T>>)
    requires
        valid@.len() == candidates@.len(),
    ensures
        kept@ == swept(candidates@, valid@, now, max_idle),
{
    let mut rest = candidates;
    let ghost orig = rest@;
    let mut kept: VecDeque<Stamped<T>> = VecDeque::new();
    let n = rest.len();
    let mut i: usize = 0;
    while i < n
        invariant
            n == orig.len(),
            valid@.len() == n,
            0 <= i <= n,
            rest@ == orig.skip(i as int),
            kept@ == swept(orig.take(i as int), valid@, now, max_idle),
        decreases n - i,
    {
        let e = rest.pop_front().unwrap();
        proof {
            assert(orig.take(i + 1).drop_last() =~= orig.take(i as int));
            assert(orig.skip(i + 1) =~= orig.skip(i as int).drop_first());
        }
        if fresh(e.since, now, max_idle) && valid[i] {
            kept.push_back(e);
        }
        i = i + 1;
    }
    proof {
        assert(orig.take(n as int) =~= orig);
    }
    kept
}


/// A connection handed back to an empty queue with room is the next one taken
/// out, with the stamp it was handed back with.
pub proof fn lemma_hand_back_then_take<T>(s: Seq<Stamped<T>>, cap: nat, conn: T, now: u128)
    requires
        s.len() == 0,
        cap > 0,
    ensures
        hand_back(s, cap, conn, now).len() == 1,
        hand_back(s, cap, conn, now)[0] == (Stamped { conn, since: now }),
{
}

/// Handing back never takes a queue past its capacity, and the entries
/// already waiting keep their places.
pub proof fn lemma_hand_back_bounded<T>(s: Seq<Stamped<T>>, cap: nat, conn: T, now: u128)
    requires
        s.len() <= cap,
    ensures
        hand_back(s, cap, conn, now).len() <= cap,
        forall|i: int| 0 <= i < s.len() ==> #[trigger] hand_back(s, cap, conn, now)[i] == s[i],
{
}

/// After expired entries are dropped, every entry left is fresh, every fresh
/// entry is left, and dropping again changes nothing.
pub proof fn lemma_fresh_part_exact<T>(s: Seq<Stamped<T>>, now: u128, max_idle: u128)
    ensures
        forall|i: int|
            0 <= i < fresh_part(s, now, max_idle).len() ==> is_fresh(
                #[trigger] fresh_part(s, now, max_idle)[i].since,
                now,
                max_idle,
            ),
        forall|i: int|
            0 <= i < s.len() && is_fresh(s[i].since, now, max_idle) ==> #[trigger] fresh_part(
                s,
                now,
                max_idle,
            ).contains(s[i]),
        fresh_part(fresh_part(s, now, max_idle), now, max_idle) == fresh_part(s, now, max_idle),
        fresh_part(s, now, max_idle).len() <= s.len(),
{
    let pred = |e: Stamped<T>| is_fresh(e.since, now, max_idle);
    broadcast use vstd::seq_lib::group_filter_ensures;
    lemma_filter_idempotent(s, pred);
}

proof fn lemma_filter_idempotent<A>(s: Seq<A>, pred: spec_fn(A) -> bool)
    ensures
        s.filter(pred).filter(pred) == s.filter(pred),
    decreases s.len(),
{
    reveal(Seq::filter);
    if s.len() > 0 {
        lemma_filter_idempotent(s.drop_last(), pred);
        let sub = s.drop_last().filter(pred);
        if pred(s.last()) {
            sub.lemma_filter_push(s.last(), pred);
        }
    }
}

/// A sweep keeps only fresh entries, never more than there were, and when
/// every check succeeded it keeps exactly the fresh ones.
pub proof fn lemma_sweep_keeps_fresh<T>(s: Seq<Stamped<T>>, valid: Seq<bool>, now: u128, max_idle: u128)
    ensures
        forall|i: int|
            0 <= i < swept(s, valid, now, max_idle).len() ==> is_fresh(
                #[trigger] swept(s, valid, now, max_idle)[i].since,
                now,
                max_idle,
            ),
        swept(s, valid, now, max_idle).len() <= s.len(),
        (forall|i: int| 0 <= i < s.len() ==> #[trigger] valid[i]) ==> swept(s, valid, now, max_idle)
            == fresh_part(s, now, max_idle),
    decreases s.len(),
{
    reveal(Seq::filter);
    if s.len() > 0 {
        lemma_sweep_keeps_fresh(s.drop_last(), valid, now, max_idle);
        if forall|i: int| 0 <= i < s.len() ==> #[trigger] valid[i] {
            assert(valid[s.len() - 1]);
            assert(forall|i: int| 0 <= i < s.drop_last().len() ==> #[trigger] valid[i]);
        }
    }
}


/// Handing back to a queue with room puts the connection, stamped with
/// `now`, at the back and keeps everything else; a full queue is left as it
/// was.
pub proof fn lemma_hand_back_exact<T>(s: Seq<Stamped<T>>, cap: nat, conn: T, now: u128)
    ensures
        s.len() < cap ==> hand_back(s, cap, conn, now) == s.push(Stamped { conn, since: now }),
        s.len() < cap ==> hand_back(s, cap, conn, now).len() == s.len() + 1,
        s.len() < cap ==> hand_back(s, cap, conn, now).last() == (Stamped { conn, since: now }),
        s.len() >= cap ==> hand_back(s, cap, conn, now) == s,
{
}

/// The positions of `s` whose entries a sweep keeps, in order.
spec fn kept_positions<T>(s: Seq<Stamped<T>>, valid: Seq<bool>, now: u128, max_idle: u128) -> Seq<int>
    decreases s.len(),
{
    if s.len() == 0 {
        Seq::empty()
    } else {
        let rest = kept_positions(s.drop_last(), valid, now, max_idle);
        let i = s.len() - 1;
        if is_fresh(s[i].since, now, max_idle) && valid[i] {
            rest.push(i)
        } else {
            rest
        }
    }
}

proof fn lemma_kept_positions<T>(s: Seq<Stamped<T>>, valid: Seq<bool>, now: u128, max_idle: u128)
    ensures
        ({
            let idx = kept_positions(s, valid, now, max_idle);
            let kept = swept(s, valid, now, max_idle);
            &&& idx.len() == kept.len()
            &&& forall|j: int|
                #![trigger idx[j]]
                0 <= j < idx.len() ==> {
                    &&& 0 <= idx[j] < s.len()
                    &&& kept[j] == s[idx[j]]
                    &&& valid[idx[j]]
                    &&& is_fresh(s[idx[j]].since, now, max_idle)
                }
            &&& forall|j1: int, j2: int| 0 <= j1 < j2 < idx.len() ==> idx[j1] < idx[j2]
            &&& forall|i: int|
                0 <= i < s.len() && valid[i] && is_fresh(s[i].since, now, max_idle) ==> exists|j: int|
                    0 <= j < idx.len() && idx[j] == i
        }),
    decreases s.len(),
{
    if s.len() > 0 {
        let r = s.drop_last();
        lemma_kept_positions(r, valid, now, max_idle);
        let idx = kept_positions(s, valid, now, max_idle);
        let ridx = kept_positions(r, valid, now, max_idle);
        let kept = swept(s, valid, now, max_idle);
        let rkept = swept(r, valid, now, max_idle);
        let last = s.len() - 1;
        assert(s[last] == s.last());
        assert forall|j: int| #![trigger idx[j]] 0 <= j < idx.len() implies {
            &&& 0 <= idx[j] < s.len()
            &&& kept[j] == s[idx[j]]
            &&& valid[idx[j]]
            &&& is_fresh(s[idx[j]].since, now, max_idle)
        } by {
            if j < ridx.len() {
                assert(idx[j] == ridx[j]);
                assert(kept[j] == rkept[j]);
                assert(r[ridx[j]] == s[ridx[j]]);
            }
        }
        assert forall|i: int|
            0 <= i < s.len() && valid[i] && is_fresh(s[i].since, now, max_idle) implies exists|j: int|
                0 <= j < idx.len() && idx[j] == i by {
            if i < last {
                assert(r[i] == s[i]);
                let j = choose|j: int| 0 <= j < ridx.len() && ridx[j] == i;
                assert(idx[j] == ridx[j]);
            } else {
                assert(idx[idx.len() - 1] == i);
            }
        }
    }
}

/// A sweep keeps exactly the entries that are fresh at `now` and whose check
/// succeeded, in their order: each kept entry comes from a position whose
/// check succeeded and whose stamp is fresh, the positions increase, and
/// every such position is kept. An entry whose check failed is never kept.
pub proof fn lemma_sweep_exact<T>(s: Seq<Stamped<T>>, valid: Seq<bool>, now: u128, max_idle: u128)
    ensures
        exists|idx: Seq<int>|
            {
                &&& idx.len() == swept(s, valid, now, max_idle).len()
                &&& forall|j: int|
                    #![trigger idx[j]]
                    0 <= j < idx.len() ==> {
                        &&& 0 <= idx[j] < s.len()
                        &&& swept(s, valid, now, max_idle)[j] == s[idx[j]]
                        &&& valid[idx[j]]
                        &&& is_fresh(s[idx[j]].since, now, max_idle)
                    }
                &&& forall|j1: int, j2: int| 0 <= j1 < j2 < idx.len() ==> idx[j1] < idx[j2]
                &&& forall|i: int|
                    0 <= i < s.len() && valid[i] && is_fresh(s[i].since, now, max_idle) ==> exists|j: int|
                        0 <= j < idx.len() && idx[j] == i
            },
        (forall|i: int| 0 <= i < s.len() ==> !(#[trigger] valid[i])) ==> swept(s, valid, now, max_idle).len() == 0,
{
    lemma_kept_positions(s, valid, now, max_idle);
    let idx = kept_positions(s, valid, now, max_idle);
    if forall|i: int| 0 <= i < s.len() ==> !(#[trigger] valid[i]) {
        if idx.len() > 0 {
            assert(valid[idx[0]]);
        }
    }
}

} // verus!
