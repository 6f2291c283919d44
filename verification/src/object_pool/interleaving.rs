//! The shared pool as its users see it: threads take turns at the pool, each
//! turn being one acquire or one release, in whatever order the lock lets
//! them in.
//!
//! The model keeps, beside the pool, the connections each thread holds.  A
//! thread can hand back only a connection that it holds; nothing else is
//! asked of the order of the turns.  The law proved here is that no such
//! order lets two threads hold the same connection, or loses one.

use super::lemma_acquired_is_checked_out;
use super::lemma_fresh_is_wf;
use super::lemma_step_preserves_wf;
use super::PoolOp;
use super::PoolView;
use vstd::prelude::*;

verus! {

/// One turn at the pool: which thread, and what it does.
pub struct Turn {
    pub thread: nat,
    pub op: PoolOp,
}

/// The pool together with what each thread holds.
pub struct SharedView {
    pub pool: PoolView,
    pub held: Map<nat, Set<int>>,
}

impl SharedView {
    /// A pool right after construction: no thread holds anything.
    pub open spec fn fresh(capacity: nat) -> SharedView {
        SharedView { pool: PoolView::fresh(capacity), held: Map::empty() }
    }

    /// The identifiers of the connections that `thread` holds.
    pub open spec fn held_by(self, thread: nat) -> Set<int> {
        if self.held.contains_key(thread) {
            self.held[thread]
        } else {
            Set::empty()
        }
    }

    /// `thread` holds the connection with identifier `id`.
    pub open spec fn holds(self, thread: nat, id: int) -> bool {
        self.held_by(thread).contains(id)
    }

    /// Whether `turn` can be taken in this state: a thread can always try to
    /// acquire, and can release what it holds.
    pub open spec fn enabled(self, turn: Turn) -> bool {
        match turn.op {
            PoolOp::Acquire => true,
            PoolOp::Release(id) => self.holds(turn.thread, id),
        }
    }

    /// The state after `turn`.  An acquire that succeeds gives the connection
    /// to the thread that asked; a release takes it from the thread.
    pub open spec fn step(self, turn: Turn) -> SharedView {
        match turn.op {
            PoolOp::Acquire => match self.pool.acquired() {
                Some(id) => SharedView {
                    pool: self.pool.acquire(),
                    held: self.held.insert(turn.thread, self.held_by(turn.thread).insert(id)),
                },
                None => self,
            },
            PoolOp::Release(id) => SharedView {
                pool: self.pool.release(id),
                held: self.held.insert(turn.thread, self.held_by(turn.thread).remove(id)),
            },
        }
    }

    /// The state after the turns `turns`, taken first to last.
    pub open spec fn run(self, turns: Seq<Turn>) -> SharedView
        decreases turns.len(),
    {
        if turns.len() == 0 {
            self
        } else {
            self.run(turns.drop_last()).step(turns.last())
        }
    }

    /// Every turn of `turns` is enabled in the state in which it is taken.
    pub open spec fn admits(self, turns: Seq<Turn>) -> bool
        decreases turns.len(),
    {
        turns.len() == 0 || (self.admits(turns.drop_last()) && self.run(
            turns.drop_last(),
        ).enabled(turns.last()))
    }

    /// No connection is held by two threads.
    pub open spec fn exclusive(self) -> bool {
        forall|t1: nat, t2: nat, id: int|
            #![trigger self.holds(t1, id), self.holds(t2, id)]
            self.holds(t1, id) && self.holds(t2, id) ==> t1 == t2
    }

    /// The threads hold exactly the connections that are checked out: what a
    /// thread holds is checked out, and what is checked out some thread
    /// holds.
    pub open spec fn accounted(self) -> bool {
        &&& forall|t: nat, id: int| #[trigger] self.holds(t, id) ==> self.pool.is_checked_out(id)
        &&& forall|id: int| #[trigger]
            self.pool.is_checked_out(id) ==> exists|t: nat| self.holds(t, id)
    }

    /// The pool is well-formed, no connection is held twice, and none is
    /// lost.
    pub open spec fn consistent(self) -> bool {
        &&& self.pool.wf()
        &&& self.exclusive()
        &&& self.accounted()
    }
}

/// One turn keeps a consistent state consistent, and is a step of the pool
/// that the pool allows: a thread that hands back what it holds never hands
/// back what the pool would have to refuse.
pub proof fn lemma_turn_preserves_consistency(s: SharedView, turn: Turn)
    requires
        s.consistent(),
        s.enabled(turn),
    ensures
        s.step(turn).consistent(),
        s.step(turn).pool.capacity == s.pool.capacity,
        s.pool.enabled(turn.op),
        s.step(turn).pool == s.pool.step(turn.op),
{
    let after = s.step(turn);
    let me = turn.thread;
    lemma_step_preserves_wf(s.pool, turn.op);
    match turn.op {
        PoolOp::Acquire => {
            match s.pool.acquired() {
                Some(id) => {
                    lemma_acquired_is_checked_out(s.pool);
                    assert forall|t: nat, other: int| #[trigger]
                        after.holds(t, other) implies after.pool.is_checked_out(other) by {
                        if !(t == me && other == id) {
                            assert(s.holds(t, other));
                            assert(s.pool.is_checked_out(other));
                            assert(other != id);
                            if after.pool.available.contains(other) {
                                let i = choose|i: int|
                                    0 <= i < after.pool.available.len()
                                        && after.pool.available[i] == other;
                                assert(s.pool.available[i] == other);
                            }
                        }
                    }
                    assert forall|other: int| #[trigger]
                        after.pool.is_checked_out(other) implies exists|t: nat|
                        after.holds(t, other) by {
                        if other == id {
                            assert(after.holds(me, other));
                        } else {
                            if s.pool.available.contains(other) {
                                let i = choose|i: int|
                                    0 <= i < s.pool.available.len() && s.pool.available[i]
                                        == other;
                                assert(after.pool.available[i] == other);
                            }
                            assert(s.pool.is_checked_out(other));
                            let t = choose|t: nat| s.holds(t, other);
                            assert(after.holds(t, other));
                        }
                    }
                    assert forall|t1: nat, t2: nat, other: int|
                        #![trigger after.holds(t1, other), after.holds(t2, other)]
                        after.holds(t1, other) && after.holds(t2, other) implies t1 == t2 by {
                        if other == id {
                            if t1 != me {
                                assert(s.holds(t1, id));
                            }
                            if t2 != me {
                                assert(s.holds(t2, id));
                            }
                        } else {
                            assert(s.holds(t1, other) && s.holds(t2, other));
                        }
                    }
                },
                None => {},
            }
        },
        PoolOp::Release(id) => {
            assert(s.pool.is_checked_out(id));
            assert forall|t: nat, other: int| #[trigger]
                after.holds(t, other) implies after.pool.is_checked_out(other) by {
                assert(s.holds(t, other));
                if other == id {
                    assert(s.holds(me, id));
                    assert(t == me);
                }
                if after.pool.available.contains(other) {
                    let i = choose|i: int|
                        0 <= i < after.pool.available.len() && after.pool.available[i] == other;
                    if i < s.pool.available.len() {
                        assert(s.pool.available[i] == other);
                    }
                }
            }
            assert forall|other: int| #[trigger]
                after.pool.is_checked_out(other) implies exists|t: nat|
                after.holds(t, other) by {
                assert(after.pool.available[s.pool.available.len() as int] == id);
                assert(other != id);
                if s.pool.available.contains(other) {
                    let i = choose|i: int|
                        0 <= i < s.pool.available.len() && s.pool.available[i] == other;
                    assert(after.pool.available[i] == other);
                }
                assert(s.pool.is_checked_out(other));
                let t = choose|t: nat| s.holds(t, other);
                assert(after.holds(t, other));
            }
            assert forall|t1: nat, t2: nat, other: int|
                #![trigger after.holds(t1, other), after.holds(t2, other)]
                after.holds(t1, other) && after.holds(t2, other) implies t1 == t2 by {
                assert(s.holds(t1, other) && s.holds(t2, other));
            }
        },
    }
}

/// However the turns of any number of threads at a fresh pool are
/// interleaved, as long as each thread hands back only what it holds: no
/// connection is ever held by two threads, every connection that is checked
/// out is held by some thread, the pool keeps its capacity, and the pool
/// itself has gone through a history that it admits.
pub proof fn lemma_no_connection_is_shared(capacity: nat, turns: Seq<Turn>)
    requires
        SharedView::fresh(capacity).admits(turns),
    ensures
        SharedView::fresh(capacity).run(turns).consistent(),
        SharedView::fresh(capacity).run(turns).pool.capacity == capacity,
        PoolView::fresh(capacity).admits(turns.map_values(|turn: Turn| turn.op)),
        SharedView::fresh(capacity).run(turns).pool == PoolView::fresh(capacity).run(
            turns.map_values(|turn: Turn| turn.op),
        ),
    decreases turns.len(),
{
    let start = SharedView::fresh(capacity);
    let ops = turns.map_values(|turn: Turn| turn.op);
    if turns.len() == 0 {
        lemma_fresh_is_wf(capacity);
        assert forall|id: int| !start.pool.is_checked_out(id) by {
            assert(!start.pool.checked_out().contains(id));
        }
    } else {
        let before = turns.drop_last();
        lemma_no_connection_is_shared(capacity, before);
        lemma_turn_preserves_consistency(start.run(before), turns.last());
        assert(ops.drop_last() =~= before.map_values(|turn: Turn| turn.op));
        assert(ops.last() == turns.last().op);
    }
}

} // verus!
