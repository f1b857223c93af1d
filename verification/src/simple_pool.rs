//! The state of the plain pool that keeps up to `max_size` idle connections
//! to one address and hands them out first in, first out.

use std::collections::VecDeque;
use vstd::prelude::*;

verus! {

broadcast use vstd::seq_lib::group_seq_properties;

/// The idle connections `s` after `conn` is handed back to a pool that keeps
/// at most `max_size`: it joins the back when there is room and is dropped
/// otherwise.
pub open spec fn released<C>(s: Seq<C>, max_size: nat, conn: C) -> Seq<C> {
    if s.len() < max_size {
        s.push(conn)
    } else {
        s
    }
}

/// How a request for a connection is served.
pub enum Handout<C> {
    /// The idle connection taken out is valid and is handed out.
    Reuse(C),
    /// A new connection is opened.
    Open,
    /// No valid idle connection and no room: the request fails.
    Full,
}

/// A pool of idle connections to one address.
pub struct ConnectionPool<C> {
    connections: VecDeque<C>,
    max_size: usize,
    address: String,
}

impl<C> View for ConnectionPool<C> {
    type V = Seq<C>;

    closed spec fn view(&self) -> Seq<C> {
        self.connections@
    }
}

impl<C> ConnectionPool<C> {
    /// The most idle connections the pool keeps.
    pub closed spec fn capacity(&self) -> nat {
        self.max_size as nat
    }

    /// The address new connections are opened to.
    pub closed spec fn target(&self) -> Seq<char> {
        self.address@
    }

    /// The pool never keeps more idle connections than its capacity.
    #[verifier::type_invariant]
    spec fn within_capacity(&self) -> bool {
        self.connections@.len() <= self.max_size
    }

    /// Takes the idle connections out, leaving none.
    fn take_connections(&mut self) -> (c: VecDeque<C>)
        ensures
            c@ == old(self)@,
            c@.len() <= old(self).capacity(),
            final(self)@ == Seq::<C>::empty(),
            final(self).capacity() == old(self).capacity(),
            final(self).target() == old(self).target(),
    {
        proof {
            use_type_invariant(&*self);
        }
        let mut c = VecDeque::new();
        std::mem::swap(&mut c, &mut self.connections);
        c
    }

    /// An empty pool that keeps at most `max_size` idle connections to
    /// `address`.
    pub fn new(max_size: usize, address: String) -> (p: Self)
        ensures
            p@ == Seq::<C>::empty(),
            p.capacity() == max_size,
            p.target() == address@,
    {
        ConnectionPool { connections: VecDeque::new(), max_size, address }
    }

    /// The address new connections are opened to.
    pub fn address(&self) -> (a: &str)
        ensures
            a@ == self.target(),
    {
        self.address.as_str()
    }

    /// The number of idle connections, never more than the capacity.
    pub fn len(&self) -> (n: usize)
        ensures
            n == self@.len(),
            n <= self.capacity(),
    {
        proof {
            use_type_invariant(self);
        }
        self.connections.len()
    }

    /// Takes the oldest idle connection out, if there is one.
    pub fn take_idle(&mut self) -> (r: Option<C>)
        ensures
            final(self).capacity() == old(self).capacity(),
            final(self).target() == old(self).target(),
            old(self)@.len() == 0 ==> r is None && final(self)@ == old(self)@,
            old(self)@.len() > 0 ==> r == Some(old(self)@[0]) && final(self)@ == old(self)@.drop_first(),
    {
        let mut c = self.take_connections();
        let r = c.pop_front();
        self.connections = c;
        r
    }

    /// Whether a new connection may be opened: the pool holds fewer idle
    /// connections than its capacity.
    pub fn has_room(&self) -> (r: bool)
        ensures
            r == (self@.len() < self.capacity()),
    {
        self.connections.len() < self.max_size
    }

    /// Decides a request once the connection taken out by `take_idle` (if
    /// any) was validated: a valid one is handed out; otherwise a new
    /// connection is opened when the pool has room, and the request fails
    /// when it has none.
    pub fn settle(&self, taken: Option<C>, valid: bool) -> (h: Handout<C>)
        ensures
            h == (match taken {
                Some(c) if valid => Handout::Reuse(c),
                _ => if self@.len() < self.capacity() {
                    Handout::Open
                } else {
                    Handout::Full
                },
            }),
    {
        match taken {
            Some(c) => {
                if valid {
                    return Handout::Reuse(c);
                }
            },
            None => {},
        }
        if self.has_room() {
            Handout::Open
        } else {
            Handout::Full
        }
    }

    /// Hands a connection back; see `released`.
    pub fn release_connection(&mut self, conn: C)
        ensures
            final(self).capacity() == old(self).capacity(),
            final(self).target() == old(self).target(),
            final(self)@ == released(old(self)@, old(self).capacity(), conn),
    {
        let mut c = self.take_connections();
        if c.len() < self.max_size {
            c.push_back(conn);
        }
        self.connections = c;
    }
}

/// A connection handed back to a pool with no idle connection and room for
/// one is the next one taken out; a full pool is left as it was.
pub proof fn lemma_release_then_take<C>(s: Seq<C>, max_size: nat, conn: C)
    ensures
        (s.len() == 0 && max_size > 0) ==> released(s, max_size, conn) == seq![conn],
        s.len() >= max_size ==> released(s, max_size, conn) == s,
        s.len() <= max_size ==> released(s, max_size, conn).len() <= max_size,
{
    if s.len() == 0 && max_size > 0 {
        assert(s.push(conn) =~= seq![conn]);
    }
}


/// A hand-back to a pool with room keeps the connection at the back and the
/// others as they were; a hand-back to a full pool drops it.
pub proof fn lemma_release_exact<C>(s: Seq<C>, max_size: nat, conn: C)
    ensures
        s.len() < max_size ==> released(s, max_size, conn) == s.push(conn),
        s.len() < max_size ==> released(s, max_size, conn).len() == s.len() + 1,
        s.len() >= max_size ==> released(s, max_size, conn) == s,
{
}

} // verus!
