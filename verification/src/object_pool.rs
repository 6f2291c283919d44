//! A bounded pool of reusable connections.
//!
//! [`Pool`] is the pool as a plain value: a stack of the connections that are
//! currently available, together with the capacity it was built with.  Its
//! contracts are stated over [`PoolView`], and the laws of the pool are proved
//! about that view.  [`ConnectionPool`] shares one `Pool` between threads by
//! keeping it behind a lock whose invariant is the pool's well-formedness;
//! [`interleaving`] proves what follows for threads that take turns at it.

pub mod interleaving;

use std::sync::Arc;
use vstd::prelude::*;
use vstd::rwlock::RwLock;
use vstd::rwlock::RwLockPredicate;
use vstd::set_lib::lemma_int_range;
use vstd::set_lib::lemma_set_disjoint_lens;
use vstd::set_lib::set_int_range;

verus! {

/// A reusable connection.  It is neither `Clone` nor `Copy`: whoever holds
/// the value holds the connection.
#[derive(Debug)]
pub struct Connection {
    id: usize,
}

impl View for Connection {
    type V = int;

    /// A connection is known by its identifier.
    closed spec fn view(&self) -> int {
        self.id as int
    }
}

impl Connection {
    /// Makes the connection with the given identifier.  Only a pool makes
    /// connections, when it is built: a caller cannot make up a connection
    /// and hand it to a pool.
    pub(crate) fn new(id: usize) -> (conn: Connection)
        ensures
            conn@ == id,
    {
        Connection { id }
    }

    /// The connection's identifier.
    pub fn id(&self) -> (id: usize)
        ensures
            id == self@,
    {
        self.id
    }

    /// Puts the connection to use, and reports which connection that was.
    pub fn connect(&self) -> (id: usize)
        ensures
            id == self@,
    {
        self.id
    }
}

/// One operation on a pool, as it appears in a history of operations.
pub enum PoolOp {
    /// Take a connection, if one is available.
    Acquire,
    /// Hand back the connection with this identifier.
    Release(int),
}

/// The mathematical state of a pool: its capacity and the identifiers of the
/// available connections, the one handed out next at the end.
pub struct PoolView {
    pub capacity: nat,
    pub available: Seq<int>,
}

impl PoolView {
    /// A pool as it is right after construction: every identifier below
    /// `capacity` is available, in ascending order.
    pub open spec fn fresh(capacity: nat) -> PoolView {
        PoolView { capacity, available: Seq::new(capacity, |i: int| i) }
    }

    /// No identifier is available twice, and every available identifier was
    /// issued by this pool.
    pub open spec fn wf(self) -> bool {
        &&& self.available.no_duplicates()
        &&& forall|i: int|
            0 <= i < self.available.len() ==> 0 <= #[trigger] self.available[i] < self.capacity
    }

    /// `id` was issued by this pool and is not available: a caller holds it.
    pub open spec fn is_checked_out(self, id: int) -> bool {
        0 <= id < self.capacity && !self.available.contains(id)
    }

    /// The identifiers that callers hold.
    pub open spec fn checked_out(self) -> Set<int> {
        Set::new(|id: int| self.is_checked_out(id))
    }

    /// What an acquire hands out in this state.
    pub open spec fn acquired(self) -> Option<int> {
        if self.available.len() == 0 {
            None
        } else {
            Some(self.available.last())
        }
    }

    /// The state after an acquire.
    pub open spec fn acquire(self) -> PoolView {
        if self.available.len() == 0 {
            self
        } else {
            PoolView { capacity: self.capacity, available: self.available.drop_last() }
        }
    }

    /// The state after `id` is handed back.
    pub open spec fn release(self, id: int) -> PoolView {
        PoolView { capacity: self.capacity, available: self.available.push(id) }
    }

    /// Whether `op` may be applied in this state.  Acquiring is always
    /// allowed; only a connection that is checked out can be handed back.
    pub open spec fn enabled(self, op: PoolOp) -> bool {
        match op {
            PoolOp::Acquire => true,
            PoolOp::Release(id) => self.is_checked_out(id),
        }
    }

    /// The state after `op`.
    pub open spec fn step(self, op: PoolOp) -> PoolView {
        match op {
            PoolOp::Acquire => self.acquire(),
            PoolOp::Release(id) => self.release(id),
        }
    }

    /// The state after the operations `ops`, applied first to last.
    pub open spec fn run(self, ops: Seq<PoolOp>) -> PoolView
        decreases ops.len(),
    {
        if ops.len() == 0 {
            self
        } else {
            self.run(ops.drop_last()).step(ops.last())
        }
    }

    /// Every operation of `ops` is enabled in the state it is applied to.
    pub open spec fn admits(self, ops: Seq<PoolOp>) -> bool
        decreases ops.len(),
    {
        ops.len() == 0 || (self.admits(ops.drop_last()) && self.run(ops.drop_last()).enabled(
            ops.last(),
        ))
    }

    /// The state after `n` acquires in a row.
    pub open spec fn drain(self, n: nat) -> PoolView {
        self.run(Seq::new(n, |i: int| PoolOp::Acquire))
    }
}

/// A freshly built pool is well-formed and nothing is checked out.
pub proof fn lemma_fresh_is_wf(capacity: nat)
    ensures
        PoolView::fresh(capacity).wf(),
        PoolView::fresh(capacity).checked_out() == Set::<int>::empty(),
{
    let v = PoolView::fresh(capacity);
    assert forall|id: int| !v.is_checked_out(id) by {
        if 0 <= id < capacity {
            assert(v.available[id] == id);
        }
    }
}

/// Acquiring and releasing keep a pool well-formed and leave its capacity
/// alone.
pub proof fn lemma_step_preserves_wf(v: PoolView, op: PoolOp)
    requires
        v.wf(),
        v.enabled(op),
    ensures
        v.step(op).wf(),
        v.step(op).capacity == v.capacity,
{
    match op {
        PoolOp::Acquire => {},
        PoolOp::Release(id) => {
            let w = v.release(id);
            assert forall|i: int, j: int|
                0 <= i < w.available.len() && 0 <= j < w.available.len() && i != j implies
                w.available[i] != w.available[j] by {
                if i < v.available.len() {
                    assert(v.available.contains(v.available[i]));
                }
                if j < v.available.len() {
                    assert(v.available.contains(v.available[j]));
                }
            }
        },
    }
}

/// Conservation: in a well-formed pool every issued connection is either
/// available or checked out, never both and never neither.  So the two
/// counts add up to the capacity, and the number of connections checked out
/// at one time never exceeds it.
pub proof fn lemma_conservation(v: PoolView)
    requires
        v.wf(),
    ensures
        v.checked_out().finite(),
        v.available.len() + v.checked_out().len() == v.capacity,
        v.checked_out().len() <= v.capacity,
        v.available.len() <= v.capacity,
        v.checked_out().disjoint(v.available.to_set()),
{
    let all = set_int_range(0, v.capacity as int);
    let avail = v.available.to_set();
    let out = v.checked_out();
    lemma_int_range(0, v.capacity as int);
    v.available.unique_seq_to_set();
    assert(avail.finite()) by {
        vstd::seq_lib::seq_to_set_is_finite(v.available);
    }
    assert(out.subset_of(all));
    vstd::set_lib::lemma_len_subset(out, all);
    assert(out.disjoint(avail));
    assert(out + avail =~= all) by {
        assert forall|id: int| all.contains(id) implies (out + avail).contains(id) by {
            if !v.available.contains(id) {
                assert(v.is_checked_out(id));
            }
        }
        assert forall|id: int| (out + avail).contains(id) implies all.contains(id) by {
            if avail.contains(id) {
                let i = choose|i: int| 0 <= i < v.available.len() && v.available[i] == id;
                assert(0 <= v.available[i] < v.capacity);
            }
        }
    }
    lemma_set_disjoint_lens(out, avail);
}

/// Whatever acquires and releases a fresh pool of capacity `capacity` goes
/// through, as long as only checked-out connections are handed back: after
/// every prefix of the history the pool is well-formed, it still has its
/// capacity, at most `capacity` connections are checked out, and available
/// and checked-out connections together number exactly `capacity`.
pub proof fn lemma_history_conserves(capacity: nat, ops: Seq<PoolOp>, k: int)
    requires
        PoolView::fresh(capacity).admits(ops),
        0 <= k <= ops.len(),
    ensures
        PoolView::fresh(capacity).admits(ops.take(k)),
        PoolView::fresh(capacity).run(ops.take(k)).wf(),
        PoolView::fresh(capacity).run(ops.take(k)).capacity == capacity,
        PoolView::fresh(capacity).run(ops.take(k)).checked_out().finite(),
        PoolView::fresh(capacity).run(ops.take(k)).checked_out().len() <= capacity,
        PoolView::fresh(capacity).run(ops.take(k)).available.len() + PoolView::fresh(
            capacity,
        ).run(ops.take(k)).checked_out().len() == capacity,
    decreases ops.len(),
{
    let start = PoolView::fresh(capacity);
    if k == ops.len() {
        assert(ops.take(k) =~= ops);
        if ops.len() == 0 {
            lemma_fresh_is_wf(capacity);
        } else {
            let before = ops.drop_last();
            lemma_history_conserves(capacity, before, before.len() as int);
            assert(before.take(before.len() as int) =~= before);
            lemma_step_preserves_wf(start.run(before), ops.last());
        }
        lemma_conservation(start.run(ops));
    } else {
        let before = ops.drop_last();
        assert(before.take(k) =~= ops.take(k));
        lemma_history_conserves(capacity, before, k);
    }
}

/// A fresh pool of capacity `capacity` serves exactly `capacity` acquires:
/// after `k` acquires the next one succeeds if `k < capacity`, handing out
/// the largest identifier not handed out yet, and reports that nothing is
/// available once `k` has reached `capacity`.
pub proof fn lemma_fresh_pool_serves_capacity(capacity: nat, k: nat)
    ensures
        PoolView::fresh(capacity).drain(k).wf(),
        PoolView::fresh(capacity).drain(k).capacity == capacity,
        k < capacity ==> PoolView::fresh(capacity).drain(k).acquired() == Some(capacity - 1 - k),
        k >= capacity ==> PoolView::fresh(capacity).drain(k).acquired() is None,
        k <= capacity ==> PoolView::fresh(capacity).drain(k).available == Seq::new(
            (capacity - k) as nat,
            |i: int| i,
        ),
        k >= capacity ==> PoolView::fresh(capacity).drain(k).available.len() == 0,
    decreases k,
{
    let start = PoolView::fresh(capacity);
    let ops = Seq::new(k, |i: int| PoolOp::Acquire);
    if k == 0 {
        lemma_fresh_is_wf(capacity);
    } else {
        let before = Seq::new((k - 1) as nat, |i: int| PoolOp::Acquire);
        assert(ops.drop_last() =~= before);
        assert(ops.last() == PoolOp::Acquire);
        lemma_fresh_pool_serves_capacity(capacity, (k - 1) as nat);
        lemma_step_preserves_wf(start.drain((k - 1) as nat), PoolOp::Acquire);
        assert(start.drain(k) == start.drain((k - 1) as nat).acquire());
    }
}

/// Round trip: a connection that is handed back is the one the next acquire
/// hands out, and that acquire leaves the pool as it was before the release.
pub proof fn lemma_release_then_acquire(v: PoolView, id: int)
    requires
        v.wf(),
        v.is_checked_out(id),
    ensures
        v.release(id).wf(),
        v.release(id).acquired() == Some(id),
        v.release(id).acquire() == v,
{
    lemma_step_preserves_wf(v, PoolOp::Release(id));
    assert(v.available.push(id).drop_last() =~= v.available);
}

/// Round trip from the other side: a connection that was acquired can be
/// handed back, handing it back brings the pool to where it was, and the
/// next acquire hands out that connection again.
pub proof fn lemma_acquire_release_acquire(v: PoolView)
    requires
        v.wf(),
        v.acquired() is Some,
    ensures
        v.acquire().is_checked_out(v.acquired()->0),
        v.acquire().release(v.acquired()->0) == v,
        v.acquire().release(v.acquired()->0).acquired() == v.acquired(),
{
    lemma_acquired_is_checked_out(v);
    assert(v.available.drop_last().push(v.available.last()) =~= v.available);
}

/// An acquire that succeeds moves its connection from the available to the
/// checked-out side, so that it can be released again.
pub proof fn lemma_acquired_is_checked_out(v: PoolView)
    requires
        v.wf(),
        v.available.len() > 0,
    ensures
        v.acquire().is_checked_out(v.available.last()),
        !v.is_checked_out(v.available.last()),
{
    let id = v.available.last();
    let rest = v.available.drop_last();
    assert(v.available[v.available.len() - 1] == id);
    if rest.contains(id) {
        let i = choose|i: int| 0 <= i < rest.len() && rest[i] == id;
        assert(v.available[i] == id);
    }
}

/// The pool as a plain value.
pub struct Pool {
    connections: Vec<Connection>,
    capacity: usize,
}

impl View for Pool {
    type V = PoolView;

    closed spec fn view(&self) -> PoolView {
        PoolView {
            capacity: self.capacity as nat,
            available: self.connections@.map_values(|c: Connection| c@),
        }
    }
}

impl Pool {
    /// Builds a pool of `capacity` connections with the identifiers
    /// `0 .. capacity`, all of them available.  A capacity of zero gives a
    /// pool from which nothing can ever be acquired.
    pub fn new(capacity: usize) -> (pool: Pool)
        ensures
            pool@ == PoolView::fresh(capacity as nat),
            pool@.wf(),
    {
        let mut connections: Vec<Connection> = Vec::new();
        let mut i: usize = 0;
        while i < capacity
            invariant
                i <= capacity,
                connections@.len() == i,
                forall|j: int| 0 <= j < i ==> (#[trigger] connections@[j])@ == j,
            decreases capacity - i,
        {
            connections.push(Connection::new(i));
            i = i + 1;
        }
        let pool = Pool { connections, capacity };
        proof {
            assert(pool@.available =~= PoolView::fresh(capacity as nat).available);
            lemma_fresh_is_wf(capacity as nat);
        }
        pool
    }

    /// The number of connections the pool was built with.
    pub fn capacity(&self) -> (n: usize)
        ensures
            n == self@.capacity,
    {
        self.capacity
    }

    /// The number of connections that can be acquired right now.
    pub fn available(&self) -> (n: usize)
        requires
            self@.wf(),
        ensures
            n == self@.available.len(),
            n <= self@.capacity,
    {
        proof {
            lemma_conservation(self@);
        }
        self.connections.len()
    }

    /// The number of connections that callers hold right now.
    pub fn checked_out(&self) -> (n: usize)
        requires
            self@.wf(),
        ensures
            n == self@.checked_out().len(),
            n + self@.available.len() == self@.capacity,
    {
        proof {
            lemma_conservation(self@);
        }
        self.capacity - self.connections.len()
    }

    /// Whether the connection with identifier `id` is one that a caller
    /// holds: issued by this pool and not available.
    pub fn is_checked_out(&self, id: usize) -> (out: bool)
        ensures
            out == self@.is_checked_out(id as int),
    {
        if id >= self.capacity {
            return false;
        }
        let mut i: usize = 0;
        while i < self.connections.len()
            invariant
                i <= self.connections@.len(),
                forall|j: int| 0 <= j < i ==> (#[trigger] self.connections@[j])@ != id,
            decreases self.connections@.len() - i,
        {
            if self.connections[i].id() == id {
                proof {
                    assert(self@.available[i as int] == id);
                }
                return false;
            }
            i = i + 1;
        }
        true
    }

    /// Takes a connection out of the pool.  Returns `None`, and changes
    /// nothing, exactly when no connection is available; otherwise hands out
    /// the connection that was made available last.
    pub fn acquire(&mut self) -> (conn: Option<Connection>)
        requires
            old(self)@.wf(),
        ensures
            final(self)@ == old(self)@.acquire(),
            final(self)@.wf(),
            match conn {
                Some(c) => old(self)@.acquired() == Some(c@) && final(self)@.is_checked_out(c@),
                None => old(self)@.acquired() is None,
            },
    {
        proof {
            lemma_step_preserves_wf(self@, PoolOp::Acquire);
            if self@.available.len() > 0 {
                lemma_acquired_is_checked_out(self@);
            }
        }
        let conn = self.connections.pop();
        proof {
            assert(self@.available =~= old(self)@.acquire().available);
        }
        conn
    }

    /// Hands a connection back.  The connection must be one that is checked
    /// out of this pool; the value is consumed, so it cannot be handed back
    /// twice.  It is the next one to be acquired.
    pub fn release(&mut self, conn: Connection)
        requires
            old(self)@.wf(),
            old(self)@.is_checked_out(conn@),
        ensures
            final(self)@ == old(self)@.release(conn@),
            final(self)@.wf(),
    {
        proof {
            lemma_step_preserves_wf(self@, PoolOp::Release(conn@));
        }
        self.connections.push(conn);
        proof {
            assert(self@.available =~= old(self)@.release(conn@).available);
        }
    }

    /// Hands a connection back if it is one that is checked out of this pool,
    /// and gives it back to the caller, leaving the pool unchanged, if not.
    pub fn try_release(&mut self, conn: Connection) -> (r: Result<(), Connection>)
        requires
            old(self)@.wf(),
        ensures
            final(self)@.wf(),
            match r {
                Ok(_) => old(self)@.is_checked_out(conn@) && final(self)@ == old(self)@.release(
                    conn@,
                ),
                Err(back) => !old(self)@.is_checked_out(conn@) && back == conn && final(self)@
                    == old(self)@,
            },
    {
        if self.is_checked_out(conn.id()) {
            self.release(conn);
            Ok(())
        } else {
            Err(conn)
        }
    }
}

/// What the lock of a [`ConnectionPool`] guarantees of the pool inside it.
pub struct PoolInvariant {
    pub capacity: nat,
}

impl RwLockPredicate<Pool> for PoolInvariant {
    open spec fn inv(self, pool: Pool) -> bool {
        pool@.wf() && pool@.capacity == self.capacity
    }
}

/// A pool shared between threads.  Every operation takes the lock, performs
/// one operation of [`Pool`] and releases the lock again; no caller's code
/// runs while the lock is held.
pub struct ConnectionPool {
    connections: RwLock<Pool, PoolInvariant>,
}

impl ConnectionPool {
    /// The capacity the pool was built with.
    pub closed spec fn capacity(&self) -> nat {
        self.connections.pred().capacity
    }

    /// Builds a shared pool of `size` connections with the identifiers
    /// `0 .. size`.
    pub fn new(size: usize) -> (pool: Arc<ConnectionPool>)
        ensures
            pool.capacity() == size,
    {
        let inner = Pool::new(size);
        let connections = RwLock::new(inner, Ghost(PoolInvariant { capacity: size as nat }));
        Arc::new(ConnectionPool { connections })
    }

    /// Takes a connection if one is available at the moment the lock is
    /// held.  Which one, and whether any, depends on what other threads hold;
    /// a connection that is handed out was issued by this pool.
    pub fn get_connection(&self) -> (conn: Option<Connection>)
        ensures
            conn matches Some(c) ==> 0 <= c@ < self.capacity(),
    {
        let (mut pool, handle) = self.connections.acquire_write();
        let conn = pool.acquire();
        handle.release_write(pool);
        conn
    }

    /// How many connections are available and how many are checked out, at
    /// one and the same moment.  Whatever other threads do, the two numbers
    /// add up to the capacity.
    pub fn usage(&self) -> (counts: (usize, usize))
        ensures
            counts.0 + counts.1 == self.capacity(),
    {
        let handle = self.connections.acquire_read();
        let pool = handle.borrow();
        let counts = (pool.available(), pool.checked_out());
        handle.release_read();
        counts
    }

    /// Hands a connection back.  It is taken back only if, at the moment the
    /// lock is held, it is checked out of this pool; a connection that is
    /// not comes back to the caller as it was.  A connection that this pool
    /// never issued is never taken.
    pub fn release_connection(&self, conn: Connection) -> (r: Result<(), Connection>)
        ensures
            r is Ok ==> 0 <= conn@ < self.capacity(),
            r matches Err(back) ==> back == conn,
    {
        let (mut pool, handle) = self.connections.acquire_write();
        let r = pool.try_release(conn);
        handle.release_write(pool);
        r
    }
}

} // verus!
