//! The watcher registry: the set of enrolled subscribers, owned exclusively
//! by the aggregator. Back-pressure policy is eviction, not slowdown: a
//! send that would block or fails removes that watcher and only that
//! watcher.

use vstd::prelude::*;
use crate::events::{Update, update_eq};
use crate::queue::{BoundedQueue, SendOutcome};

verus! {

/// A registered subscriber, as handed over by the instrument service: the
/// send end of its bounded outbound queue.
pub struct Watcher {
    pub queue: BoundedQueue<Update>,
}

/// A watcher as the registry holds it, under the id the registry assigned.
pub struct Enrolled {
    pub id: u64,
    pub watcher: Watcher,
}

/// The in-memory set of enrolled watchers.
pub struct Registry {
    pub watchers: Vec<Enrolled>,
    pub next_id: u64,
}

/// One delivery: `b` is `a` after exactly one more update, carrying the
/// same message as `u`, was accepted at the back of its queue.
pub open spec fn delivered_to(a: Enrolled, b: Enrolled, u: Update) -> bool {
    &&& b.id == a.id
    &&& b.watcher.queue.capacity == a.watcher.queue.capacity
    &&& b.watcher.queue.closed == a.watcher.queue.closed
    &&& b.watcher.queue.taken@ == a.watcher.queue.taken@
    &&& b.watcher.queue.hist@.len() == a.watcher.queue.hist@.len() + 1
    &&& b.watcher.queue.hist@.subrange(0, a.watcher.queue.hist@.len() as int)
        == a.watcher.queue.hist@
    &&& update_eq(b.watcher.queue.hist@.last(), u)
}

/// The indices, in order, of the watchers a broadcast keeps: those whose
/// queue is open and below capacity.
pub open spec fn kept_indices(ws: Seq<Enrolled>) -> Seq<int>
    decreases ws.len(),
{
    if ws.len() == 0 {
        Seq::empty()
    } else {
        let rest = kept_indices(ws.drop_last());
        if ws.last().watcher.queue.accepts() {
            rest.push(ws.len() - 1)
        } else {
            rest
        }
    }
}

/// The ids, in order, of the watchers a broadcast evicts: those whose
/// queue is closed or full.
pub open spec fn evicted_ids(ws: Seq<Enrolled>) -> Seq<u64>
    decreases ws.len(),
{
    if ws.len() == 0 {
        Seq::empty()
    } else {
        let rest = evicted_ids(ws.drop_last());
        if ws.last().watcher.queue.accepts() {
            rest
        } else {
            rest.push(ws.last().id)
        }
    }
}

/// Every kept index is in bounds, names an accepting watcher, and the
/// kept indices are strictly increasing (broadcast preserves order).
pub proof fn lemma_kept_indices(ws: Seq<Enrolled>)
    ensures
        forall|j: int|
            0 <= j < kept_indices(ws).len() ==> 0 <= #[trigger] kept_indices(ws)[j] < ws.len()
                && ws[kept_indices(ws)[j]].watcher.queue.accepts(),
        forall|j1: int, j2: int|
            0 <= j1 < j2 < kept_indices(ws).len() ==> #[trigger] kept_indices(
                ws,
            )[j1] < #[trigger] kept_indices(ws)[j2],
    decreases ws.len(),
{
    if ws.len() == 0 {
    } else {
        let pre = ws.drop_last();
        lemma_kept_indices(pre);
        let r = kept_indices(pre);
        let k = kept_indices(ws);
        assert(forall|i: int| 0 <= i < pre.len() ==> pre[i] == ws[i]);
        if ws.last().watcher.queue.accepts() {
            assert(k == r.push(ws.len() - 1));
            assert forall|j: int| 0 <= j < k.len() implies 0 <= k[j] < ws.len()
                && ws[k[j]].watcher.queue.accepts() by {
                if j < r.len() {
                    assert(k[j] == r[j]);
                    assert(pre[r[j]] == ws[r[j]]);
                } else {
                    assert(k[j] == ws.len() - 1);
                    assert(ws[ws.len() - 1] == ws.last());
                }
            }
            assert forall|j1: int, j2: int| 0 <= j1 < j2 < k.len() implies k[j1] < k[j2] by {
                if j2 < r.len() {
                    assert(k[j1] == r[j1] && k[j2] == r[j2]);
                } else {
                    assert(j2 == r.len());
                    assert(k[j2] == ws.len() - 1);
                    assert(k[j1] == r[j1]);
                    assert(r[j1] < pre.len());
                }
            }
        } else {
            assert(k == r);
            assert forall|j: int| 0 <= j < k.len() implies 0 <= k[j] < ws.len()
                && ws[k[j]].watcher.queue.accepts() by {
                assert(k[j] == r[j]);
                assert(pre[r[j]] == ws[r[j]]);
            }
        }
    }
}

/// A watcher whose queue stays full (or whose client is gone) through a
/// broadcast is evicted by it: its id is reported, no kept slot refers to
/// it, and — since the registry drops it — no later update can ever be
/// enqueued to it.
pub proof fn lemma_eviction(ws: Seq<Enrolled>, i: int)
    requires
        0 <= i < ws.len(),
        !ws[i].watcher.queue.accepts(),
    ensures
        evicted_ids(ws).contains(ws[i].id),
        forall|j: int| 0 <= j < kept_indices(ws).len() ==> #[trigger] kept_indices(ws)[j] != i,
    decreases ws.len(),
{
    lemma_kept_indices(ws);
    if ws.len() == 0 {
    } else {
        if i == ws.len() - 1 {
            assert(evicted_ids(ws).last() == ws[i].id);
        } else {
            lemma_eviction(ws.drop_last(), i);
            let k = choose|k: int|
                0 <= k < evicted_ids(ws.drop_last()).len() && evicted_ids(ws.drop_last())[k]
                    == ws.drop_last()[i].id;
            assert(ws.drop_last()[i] == ws[i]);
            if ws.last().watcher.queue.accepts() {
                assert(evicted_ids(ws)[k] == ws[i].id);
            } else {
                assert(evicted_ids(ws)[k] == ws[i].id);
            }
        }
    }
}

/// Per-watcher ordering. A watcher that survives two successive
/// broadcasts, the first carrying `u1` and the second `u2`, holds them at
/// consecutive delivery indices, `u1` strictly first; since the receive
/// end drains the queue front to back ([`BoundedQueue::recv`] returns
/// `hist[taken]`), the client observes `u1` strictly before `u2`. A
/// watcher evicted at or before the first broadcast has left the registry
/// for good and receives neither.
pub proof fn lemma_per_watcher_order(a: Enrolled, b: Enrolled, c: Enrolled, u1: Update, u2: Update)
    requires
        delivered_to(a, b, u1),
        delivered_to(b, c, u2),
    ensures
        c.watcher.queue.hist@.len() == a.watcher.queue.hist@.len() + 2,
        c.watcher.queue.hist@.subrange(0, a.watcher.queue.hist@.len() as int) == a.watcher.queue.hist@,
        update_eq(c.watcher.queue.hist@[a.watcher.queue.hist@.len() as int], u1),
        update_eq(c.watcher.queue.hist@[a.watcher.queue.hist@.len() as int + 1], u2),
{
    let ha = a.watcher.queue.hist@;
    let hb = b.watcher.queue.hist@;
    let hc = c.watcher.queue.hist@;
    assert(hc.subrange(0, hb.len() as int) == hb);
    assert(hc[ha.len() as int] == hb[ha.len() as int]);
    assert(hb[ha.len() as int] == hb.last());
    assert(hc.subrange(0, ha.len() as int) =~= hb.subrange(0, ha.len() as int));
    assert(hc[ha.len() as int + 1] == hc.last());
}

impl Registry {
    /// Queues well-formed, ids distinct and below the allocator.
    pub open spec fn wf(self) -> bool {
        &&& forall|i: int|
            0 <= i < self.watchers@.len() ==> (#[trigger] self.watchers@[i]).watcher.queue.wf()
        &&& forall|i: int|
            0 <= i < self.watchers@.len() ==> (#[trigger] self.watchers@[i]).id < self.next_id
        &&& forall|i: int, j: int|
            0 <= i < j < self.watchers@.len() ==> (#[trigger] self.watchers@[i]).id != (
            #[trigger] self.watchers@[j]).id
    }

    pub fn new() -> (r: Self)
        ensures
            r.wf(),
            r.watchers@.len() == 0,
            r.next_id == 0,
    {
        Registry { watchers: Vec::new(), next_id: 0 }
    }

    pub fn len(&self) -> (r: usize)
        ensures
            r == self.watchers@.len(),
    {
        self.watchers.len()
    }

    /// Enrolls a watcher under a fresh id.
    pub fn insert(&mut self, w: Watcher) -> (id: u64)
        requires
            old(self).wf(),
            w.queue.wf(),
            old(self).next_id < u64::MAX,
        ensures
            final(self).wf(),
            id == old(self).next_id,
            final(self).next_id == old(self).next_id + 1,
            final(self).watchers@ == old(self).watchers@.push(Enrolled { id, watcher: w }),
    {
        let id = self.next_id;
        self.next_id = self.next_id + 1;
        self.watchers.push(Enrolled { id, watcher: w });
        id
    }

    /// Attempts a non-blocking send of (a copy of) `update` to every
    /// enrolled watcher, in enrollment order. Watchers that accept stay,
    /// with the update at the back of their queue; every other watcher is
    /// removed, and the evicted ids are returned in order.
    pub fn broadcast(&mut self, update: &Update) -> (evicted: Vec<u64>)
        requires
            old(self).wf(),
        ensures
            final(self).wf(),
            final(self).next_id == old(self).next_id,
            final(self).watchers@.len() == kept_indices(old(self).watchers@).len(),
            forall|j: int|
                0 <= j < final(self).watchers@.len() ==> delivered_to(
                    old(self).watchers@[kept_indices(old(self).watchers@)[j]],
                    #[trigger] final(self).watchers@[j],
                    *update,
                ),
            evicted@ == evicted_ids(old(self).watchers@),
    {
        let ghost ws0 = self.watchers@;
        let n = self.watchers.len();
        let mut out: Vec<Enrolled> = Vec::new();
        let mut evicted: Vec<u64> = Vec::new();
        proof {
            assert(ws0.subrange(0, 0) =~= Seq::<Enrolled>::empty());
        }
        for i in 0..n
            invariant
                n == ws0.len(),
                self.next_id == old(self).next_id,
                self.watchers@ == ws0.subrange(i as int, n as int),
                out@.len() == kept_indices(ws0.subrange(0, i as int)).len(),
                forall|j: int|
                    0 <= j < out@.len() ==> delivered_to(
                        ws0.subrange(0, i as int)[kept_indices(ws0.subrange(0, i as int))[j]],
                        #[trigger] out@[j],
                        *update,
                    ),
                forall|j: int| 0 <= j < out@.len() ==> (#[trigger] out@[j]).watcher.queue.wf(),
                evicted@ == evicted_ids(ws0.subrange(0, i as int)),
                forall|k: int| 0 <= k < ws0.len() ==> (#[trigger] ws0[k]).watcher.queue.wf(),
        {
            let mut e = self.watchers.remove(0);
            proof {
                assert(e == ws0[i as int]);
                assert(self.watchers@ =~= ws0.subrange(i + 1, n as int));
            }
            let ghost e0 = e;
            let copy = update.clone();
            let sent = e.watcher.queue.try_send(copy);
            proof {
                let pre = ws0.subrange(0, i as int);
                let post = ws0.subrange(0, i + 1);
                assert(post.drop_last() =~= pre);
                assert(post.last() == ws0[i as int]);
                assert(e0.watcher.queue.hist@.subrange(
                    0,
                    e0.watcher.queue.hist@.len() as int,
                ) =~= e0.watcher.queue.hist@);
            }
            match sent {
                SendOutcome::Sent => {
                    out.push(e);
                    proof {
                        let pre = ws0.subrange(0, i as int);
                        let post = ws0.subrange(0, i + 1);
                        assert(kept_indices(post) == kept_indices(pre).push(i as int));
                        lemma_kept_indices(pre);
                        assert(forall|j: int|
                            0 <= j < pre.len() ==> post[j] == #[trigger] pre[j]);
                        assert(e.watcher.queue.hist@.subrange(
                            0,
                            e0.watcher.queue.hist@.len() as int,
                        ) =~= e0.watcher.queue.hist@);
                        assert(delivered_to(ws0[i as int], out@.last(), *update));
                    }
                },
                _ => {
                    evicted.push(e.id);
                    proof {
                        let pre = ws0.subrange(0, i as int);
                        let post = ws0.subrange(0, i + 1);
                        assert(!ws0[i as int].watcher.queue.accepts());
                        assert(evicted_ids(post) == evicted_ids(pre).push(ws0[i as int].id));
                        lemma_kept_indices(pre);
                        assert(forall|j: int|
                            0 <= j < pre.len() ==> post[j] == #[trigger] pre[j]);
                    }
                },
            }
        }
        proof {
            assert(ws0.subrange(0, n as int) =~= ws0);
        }
        self.watchers = out;
        proof {
            lemma_kept_indices(ws0);
            assert forall|i: int, j: int|
                0 <= i < j < self.watchers@.len() implies (#[trigger] self.watchers@[i]).id != (
                #[trigger] self.watchers@[j]).id by {
                let ki = kept_indices(ws0)[i];
                let kj = kept_indices(ws0)[j];
                assert(ki < kj);
                assert(self.watchers@[i].id == ws0[ki].id);
                assert(self.watchers@[j].id == ws0[kj].id);
            }
        }
        evicted
    }

    /// Closes every enrolled watcher's queue (end of stream on drain) and
    /// clears the registry.
    pub fn close_all(&mut self) -> (r: Vec<Enrolled>)
        requires
            old(self).wf(),
        ensures
            final(self).wf(),
            final(self).watchers@.len() == 0,
            final(self).next_id == old(self).next_id,
            r@.len() == old(self).watchers@.len(),
            forall|i: int|
                0 <= i < r@.len() ==> {
                    let a = old(self).watchers@[i];
                    let b = #[trigger] r@[i];
                    &&& b.id == a.id
                    &&& b.watcher.queue.closed
                    &&& b.watcher.queue.items@ == a.watcher.queue.items@
                    &&& b.watcher.queue.hist@ == a.watcher.queue.hist@
                    &&& b.watcher.queue.taken@ == a.watcher.queue.taken@
                    &&& b.watcher.queue.wf()
                },
    {
        let ghost ws0 = self.watchers@;
        let n = self.watchers.len();
        let mut out: Vec<Enrolled> = Vec::new();
        for i in 0..n
            invariant
                n == ws0.len(),
                self.next_id == old(self).next_id,
                self.watchers@ == ws0.subrange(i as int, n as int),
                out@.len() == i,
                forall|j: int|
                    0 <= j < i ==> {
                        let a = ws0[j];
                        let b = #[trigger] out@[j];
                        &&& b.id == a.id
                        &&& b.watcher.queue.closed
                        &&& b.watcher.queue.items@ == a.watcher.queue.items@
                        &&& b.watcher.queue.hist@ == a.watcher.queue.hist@
                        &&& b.watcher.queue.taken@ == a.watcher.queue.taken@
                        &&& b.watcher.queue.wf()
                    },
                forall|k: int| 0 <= k < ws0.len() ==> (#[trigger] ws0[k]).watcher.queue.wf(),
        {
            let mut e = self.watchers.remove(0);
            proof {
                assert(e == ws0[i as int]);
                assert(self.watchers@ =~= ws0.subrange(i + 1, n as int));
            }
            e.watcher.queue.close();
            out.push(e);
        }
        out
    }
}

} // verus!
