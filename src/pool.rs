//! The connection pool: established connections keyed by origin. Each entry
//! is checked out to at most one request at a time, and a connection that
//! failed is evicted rather than returned.

use vstd::prelude::*;

verus! {

/// The scheme of an origin.
#[derive(Debug, Clone, Copy, PartialEq, Eq, Structural)]
pub enum Scheme {
    Http,
    Https,
}

/// The origin a connection leads to.
#[derive(Debug)]
pub struct OriginKey {
    pub scheme: Scheme,
    pub host: String,
    pub port: u16,
}

/// An origin, as a value.
pub struct OriginView {
    pub scheme: Scheme,
    pub host: Seq<char>,
    pub port: u16,
}

impl View for OriginKey {
    type V = OriginView;

    open spec fn view(&self) -> OriginView {
        OriginView { scheme: self.scheme, host: self.host@, port: self.port }
    }
}

/// Whether two origins are the same.
pub fn same_origin(a: &OriginKey, b: &OriginKey) -> (r: bool)
    ensures
        r == (a@ == b@),
{
    let r = a.scheme == b.scheme && a.port == b.port && a.host == b.host;
    proof {
        if a.scheme == b.scheme && a.port == b.port && a.host@ == b.host@ {
            assert(a@ == b@);
        }
    }
    r
}

/// The bookkeeping of one pooled connection.
#[derive(Debug, Clone, Copy, PartialEq, Eq, Structural)]
pub struct Slot {
    /// The connection's identifier.
    pub conn: u64,
    /// Whether the connection is checked out to a request.
    pub in_use: bool,
    /// When the connection was last returned.
    pub last_used: u64,
}

/// A pool entry, as a value.
pub struct EntryView {
    pub key: OriginView,
    pub slot: Slot,
}

/// Whether an entry is an idle connection to `key`.
pub open spec fn idle_for(e: EntryView, key: OriginView) -> bool {
    e.key == key && !e.slot.in_use
}

/// Whether some entry holds connection `conn`.
pub open spec fn holds_conn(entries: Seq<EntryView>, conn: u64) -> bool {
    exists|i: int| 0 <= i < entries.len() && entries[i].slot.conn == conn
}

/// The pool.
pub struct ConnectionPool {
    keys: Vec<OriginKey>,
    slots: Vec<Slot>,
}

impl ConnectionPool {
    /// The entries, in the order they were inserted.
    pub closed spec fn entries(&self) -> Seq<EntryView> {
        Seq::new(self.slots@.len(), |i: int| EntryView { key: self.keys@[i]@, slot: self.slots@[i] })
    }

    /// Each connection is pooled once.
    pub closed spec fn wf(&self) -> bool {
        &&& self.keys@.len() == self.slots@.len()
        &&& forall|i: int, j: int|
            0 <= i < j < self.slots@.len() ==> self.slots@[i].conn != self.slots@[j].conn
    }

    /// An empty pool.
    pub fn new() -> (r: ConnectionPool)
        ensures
            r.wf(),
            r.entries() == Seq::<EntryView>::empty(),
    {
        let r = ConnectionPool { keys: Vec::new(), slots: Vec::new() };
        assert(r.entries() =~= Seq::<EntryView>::empty());
        r
    }

    /// The number of pooled connections.
    pub fn len(&self) -> (r: usize)
        requires
            self.wf(),
        ensures
            r == self.entries().len(),
    {
        self.slots.len()
    }

    /// The bookkeeping of the entry at `i`.
    pub fn slot(&self, i: usize) -> (r: Slot)
        requires
            self.wf(),
            i < self.entries().len(),
        ensures
            r == self.entries()[i as int].slot,
    {
        self.slots[i]
    }

    fn position(&self, conn: u64) -> (r: Option<usize>)
        requires
            self.wf(),
        ensures
            r is None <==> !holds_conn(self.entries(), conn),
            r matches Some(i) ==> i < self.entries().len() && self.entries()[i as int].slot.conn
                == conn,
    {
        let mut i: usize = 0;
        while i < self.slots.len()
            invariant
                self.wf(),
                i <= self.slots@.len(),
                forall|j: int| 0 <= j < i ==> self.slots@[j].conn != conn,
            decreases self.slots@.len() - i,
        {
            if self.slots[i].conn == conn {
                return Some(i);
            }
            i = i + 1;
        }
        assert(!holds_conn(self.entries(), conn)) by {
            if holds_conn(self.entries(), conn) {
                let j = choose|j: int|
                    0 <= j < self.entries().len() && self.entries()[j].slot.conn == conn;
                assert(self.slots@[j].conn == conn);
            }
        }
        None
    }

    /// Checks out an idle connection to `key`, the earliest inserted one, or
    /// returns `None` where there is no idle connection to `key`.
    pub fn acquire(&mut self, key: &OriginKey) -> (r: Option<u64>)
        requires
            old(self).wf(),
        ensures
            final(self).wf(),
            r is None <==> forall|i: int|
                0 <= i < old(self).entries().len() ==> !idle_for(
                    #[trigger] old(self).entries()[i],
                    key@,
                ),
            r is None ==> final(self).entries() == old(self).entries(),
            r matches Some(c) ==> exists|i: int|
                0 <= i < old(self).entries().len() && idle_for(old(self).entries()[i], key@)
                    && old(self).entries()[i].slot.conn == c && final(self).entries()
                    == old(self).entries().update(
                    i,
                    EntryView {
                        key: key@,
                        slot: Slot { in_use: true, ..old(self).entries()[i].slot },
                    },
                ),
    {
        let mut i: usize = 0;
        while i < self.slots.len()
            invariant
                self.wf(),
                *self == *old(self),
                i <= self.slots@.len(),
                forall|j: int| 0 <= j < i ==> !idle_for(#[trigger] self.entries()[j], key@),
            decreases self.slots@.len() - i,
        {
            let s = self.slots[i];
            if !s.in_use && same_origin(&self.keys[i], key) {
                let ghost before = self.entries();
                self.slots.set(i, Slot { in_use: true, ..s });
                assert(self.entries() =~= before.update(
                    i as int,
                    EntryView { key: key@, slot: Slot { in_use: true, ..before[i as int].slot } },
                ));
                assert(self.wf()) by {
                    assert forall|a: int, b: int|
                        0 <= a < b < self.slots@.len() implies self.slots@[a].conn
                        != self.slots@[b].conn by {
                        assert(self.slots@[a].conn == before[a].slot.conn);
                        assert(self.slots@[b].conn == before[b].slot.conn);
                        assert(old(self).slots@[a].conn != old(self).slots@[b].conn);
                    }
                }
                return Some(s.conn);
            }
            assert(!idle_for(self.entries()[i as int], key@));
            i = i + 1;
        }
        None
    }

    /// Adds a newly established connection `conn` to `key`, checked out to
    /// the request that established it. Where `conn` is pooled already,
    /// nothing changes and `false` is returned.
    pub fn insert(&mut self, key: OriginKey, conn: u64, now: u64) -> (r: bool)
        requires
            old(self).wf(),
        ensures
            final(self).wf(),
            r == !holds_conn(old(self).entries(), conn),
            r ==> final(self).entries() == old(self).entries().push(
                EntryView { key: key@, slot: Slot { conn, in_use: true, last_used: now } },
            ),
            !r ==> final(self).entries() == old(self).entries(),
    {
        if self.position(conn).is_some() {
            return false;
        }
        let ghost before = self.entries();
        let ghost kv = key@;
        self.keys.push(key);
        self.slots.push(Slot { conn, in_use: true, last_used: now });
        assert(self.entries() =~= before.push(
            EntryView { key: kv, slot: Slot { conn, in_use: true, last_used: now } },
        ));
        assert(self.wf()) by {
            assert forall|a: int, b: int|
                0 <= a < b < self.slots@.len() implies self.slots@[a].conn
                != self.slots@[b].conn by {
                if b == self.slots@.len() - 1 {
                    assert(before[a].slot.conn == self.slots@[a].conn);
                    assert(before[a].slot.conn != conn);
                }
            }
        }
        true
    }

    /// Returns a checked-out connection to the pool at time `now`. Where
    /// `conn` is not pooled or not checked out, nothing changes and `false` is
    /// returned.
    pub fn release(&mut self, conn: u64, now: u64) -> (r: bool)
        requires
            old(self).wf(),
        ensures
            final(self).wf(),
            r == exists|i: int|
                0 <= i < old(self).entries().len() && old(self).entries()[i].slot.conn == conn
                    && old(self).entries()[i].slot.in_use,
            r ==> exists|i: int|
                0 <= i < old(self).entries().len() && old(self).entries()[i].slot.conn == conn
                    && final(self).entries() == old(self).entries().update(
                    i,
                    EntryView {
                        key: old(self).entries()[i].key,
                        slot: Slot { conn, in_use: false, last_used: now },
                    },
                ),
            !r ==> final(self).entries() == old(self).entries(),
    {
        match self.position(conn) {
            None => false,
            Some(i) => {
                if !self.slots[i].in_use {
                    assert forall|j: int|
                        0 <= j < old(self).entries().len() && old(self).entries()[j].slot.conn
                            == conn implies !old(self).entries()[j].slot.in_use by {
                        assert(j == i);
                    }
                    return false;
                }
                let ghost before = self.entries();
                self.slots.set(i, Slot { conn, in_use: false, last_used: now });
                assert(self.entries() =~= before.update(
                    i as int,
                    EntryView {
                        key: before[i as int].key,
                        slot: Slot { conn, in_use: false, last_used: now },
                    },
                ));
                assert(self.wf()) by {
                    assert forall|a: int, b: int|
                        0 <= a < b < self.slots@.len() implies self.slots@[a].conn
                        != self.slots@[b].conn by {
                        assert(self.slots@[a].conn == before[a].slot.conn);
                        assert(self.slots@[b].conn == before[b].slot.conn);
                    }
                }
                true
            },
        }
    }

    /// Removes connection `conn`, whether idle or checked out. Returns
    /// whether it was pooled.
    pub fn evict(&mut self, conn: u64) -> (r: bool)
        requires
            old(self).wf(),
        ensures
            final(self).wf(),
            r == holds_conn(old(self).entries(), conn),
            !holds_conn(final(self).entries(), conn),
            r ==> exists|i: int|
                0 <= i < old(self).entries().len() && old(self).entries()[i].slot.conn == conn
                    && final(self).entries() == old(self).entries().remove(i),
            !r ==> final(self).entries() == old(self).entries(),
    {
        match self.position(conn) {
            None => false,
            Some(i) => {
                let ghost before = self.entries();
                let _ = self.keys.remove(i);
                let _ = self.slots.remove(i);
                assert(self.entries() =~= before.remove(i as int));
                assert(self.wf()) by {
                    assert forall|a: int, b: int|
                        0 <= a < b < self.slots@.len() implies self.slots@[a].conn
                        != self.slots@[b].conn by {
                        let a2 = if a < i { a } else { a + 1 };
                        let b2 = if b < i { b } else { b + 1 };
                        assert(self.slots@[a] == old(self).slots@[a2]);
                        assert(self.slots@[b] == old(self).slots@[b2]);
                    }
                }
                assert(!holds_conn(self.entries(), conn)) by {
                    if holds_conn(self.entries(), conn) {
                        let j = choose|j: int|
                            0 <= j < self.entries().len() && self.entries()[j].slot.conn == conn;
                        let j2 = if j < i { j } else { j + 1 };
                        assert(old(self).slots@[j2].conn == conn);
                        assert(old(self).slots@[i as int].conn == conn);
                    }
                }
                true
            },
        }
    }
}

} // verus!
