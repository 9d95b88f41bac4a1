//! The aggregator: the single long-lived owner of the watcher registry. It
//! drains an inbox that multiplexes host events and subscription commands,
//! de-duplicates call-site metadata, builds one update envelope per tick,
//! and broadcasts it, evicting watchers that fall behind. Its liveness
//! drives the instrumentation service's health state.

use vstd::prelude::*;
use crate::events::{Event, Update, metas_seq_eq, lemma_cloned_meta};
use crate::fields::Metadata;
use crate::health::{HealthReporter, ServingStatus, instrument_service_name};
use crate::registry::{Enrolled, Registry, Watcher, delivered_to, evicted_ids, kept_indices};

verus! {

/// A control command from an RPC handler to the aggregator.
pub enum Command {
    /// Enroll this watcher and start streaming to it.
    Instrument(Watcher),
}

/// What the aggregator's inbox multiplexes: host events (each with its
/// call-site record) and control commands.
pub enum InboxMessage {
    Control(Command),
    Event(Metadata, Event),
}

/// The aggregator's lifecycle.
#[derive(Clone, Copy, Debug, PartialEq, Eq, Structural)]
pub enum RunState {
    Starting,
    Running,
    Draining,
    Stopped,
}

/// Some record in `s` already carries this metadata id.
pub open spec fn has_meta_id(s: Seq<Metadata>, id: u64) -> bool {
    exists|i: int| 0 <= i < s.len() && s[i].id == id
}

/// The watchers subscribed by a batch, in enqueue order.
pub open spec fn batch_subs(batch: Seq<InboxMessage>) -> Seq<Watcher>
    decreases batch.len(),
{
    if batch.len() == 0 {
        Seq::empty()
    } else {
        let r = batch_subs(batch.drop_last());
        match batch.last() {
            InboxMessage::Control(Command::Instrument(w)) => r.push(w),
            _ => r,
        }
    }
}

/// The events carried by a batch, in enqueue order.
pub open spec fn batch_events(batch: Seq<InboxMessage>) -> Seq<Event>
    decreases batch.len(),
{
    if batch.len() == 0 {
        Seq::empty()
    } else {
        let r = batch_events(batch.drop_last());
        match batch.last() {
            InboxMessage::Event(_, ev) => r.push(ev),
            _ => r,
        }
    }
}

/// The known metadata records after a batch: each event's record is added
/// the first time its id is seen.
pub open spec fn seen_after(seen: Seq<Metadata>, batch: Seq<InboxMessage>) -> Seq<Metadata>
    decreases batch.len(),
{
    if batch.len() == 0 {
        seen
    } else {
        let s = seen_after(seen, batch.drop_last());
        match batch.last() {
            InboxMessage::Event(meta, _) => if has_meta_id(s, meta.id) {
                s
            } else {
                s.push(meta)
            },
            _ => s,
        }
    }
}

/// The metadata records a batch contributes for the first time, in order
/// of first sight: exactly what the tick's update must ship.
pub open spec fn fresh_metas(seen: Seq<Metadata>, batch: Seq<InboxMessage>) -> Seq<Metadata>
    decreases batch.len(),
{
    if batch.len() == 0 {
        Seq::empty()
    } else {
        let f = fresh_metas(seen, batch.drop_last());
        match batch.last() {
            InboxMessage::Event(meta, _) => if has_meta_id(
                seen_after(seen, batch.drop_last()),
                meta.id,
            ) {
                f
            } else {
                f.push(meta)
            },
            _ => f,
        }
    }
}

/// The event an inbox message carries, where it carries one.
pub open spec fn msg_event(m: InboxMessage) -> Event {
    match m {
        InboxMessage::Event(_, e) => e,
        _ => vstd::pervasive::arbitrary(),
    }
}

/// How many events precede position `k` of a batch.
pub open spec fn events_before(batch: Seq<InboxMessage>, k: int) -> int {
    batch_events(batch.subrange(0, k)).len() as int
}

/// Longer prefixes of a batch never carry fewer events.
pub proof fn lemma_batch_events_prefix_len(batch: Seq<InboxMessage>, a: int, b: int)
    requires
        0 <= a <= b <= batch.len(),
    ensures
        events_before(batch, a) <= events_before(batch, b),
    decreases b - a,
{
    if a < b {
        lemma_batch_events_prefix_len(batch, a, b - 1);
        assert(batch.subrange(0, b).drop_last() =~= batch.subrange(0, b - 1));
    }
}

/// An event message at position `k` of a batch lands in the tick's update
/// at position `events_before(batch, k)`.
pub proof fn lemma_batch_events_position(batch: Seq<InboxMessage>, k: int)
    requires
        0 <= k < batch.len(),
        batch[k] is Event,
    ensures
        0 <= events_before(batch, k) < batch_events(batch).len(),
        batch_events(batch)[events_before(batch, k)] == msg_event(batch[k]),
    decreases batch.len(),
{
    if k == batch.len() - 1 {
        assert(batch.subrange(0, k) =~= batch.drop_last());
        assert(batch.last() == batch[k]);
    } else {
        let pre = batch.drop_last();
        lemma_batch_events_position(pre, k);
        assert(pre.subrange(0, k) =~= batch.subrange(0, k));
        assert(pre[k] == batch[k]);
    }
}

/// Ordering within one tick: two events enqueued in that order occupy
/// strictly increasing positions in the update the tick broadcasts (with
/// [`lemma_batch_events_position`] giving the positions themselves).
/// Together with the cross-tick ordering of
/// [`crate::registry::lemma_per_watcher_order`], a watcher receives any
/// two enqueued events in their enqueue order, or — once evicted — neither.
pub proof fn lemma_batch_events_order(batch: Seq<InboxMessage>, i: int, j: int)
    requires
        0 <= i < j < batch.len(),
        batch[i] is Event,
        batch[j] is Event,
    ensures
        events_before(batch, i) < events_before(batch, j),
{
    assert(batch.subrange(0, i + 1).drop_last() =~= batch.subrange(0, i));
    assert(batch.subrange(0, i + 1).last() == batch[i]);
    assert(events_before(batch, i + 1) == events_before(batch, i) + 1);
    lemma_batch_events_prefix_len(batch, i + 1, j);
}

/// Every queue handed in by a subscription command is well formed.
pub open spec fn batch_wf(batch: Seq<InboxMessage>) -> bool {
    forall|i: int|
        0 <= i < batch.len() ==> match #[trigger] batch[i] {
            InboxMessage::Control(Command::Instrument(w)) => w.queue.wf(),
            _ => true,
        }
}

/// A batch never subscribes more watchers than it has messages.
pub proof fn lemma_batch_subs_len(batch: Seq<InboxMessage>)
    ensures
        batch_subs(batch).len() <= batch.len(),
    decreases batch.len(),
{
    if batch.len() == 0 {
    } else {
        lemma_batch_subs_len(batch.drop_last());
    }
}

/// `b` is watcher `w` enrolled under `id`, after the initial-snapshot
/// update (the metadata records in `snap`, no events) was offered to its
/// queue: delivered if the queue had room, otherwise the queue unchanged.
pub open spec fn snapshot_enrolled(w: Watcher, b: Enrolled, id: u64, snap: Seq<Metadata>) -> bool {
    &&& b.id == id
    &&& b.watcher.queue.capacity == w.queue.capacity
    &&& b.watcher.queue.closed == w.queue.closed
    &&& b.watcher.queue.taken@ == w.queue.taken@
    &&& if w.queue.accepts() {
        &&& b.watcher.queue.hist@.len() == w.queue.hist@.len() + 1
        &&& b.watcher.queue.hist@.subrange(0, w.queue.hist@.len() as int) == w.queue.hist@
        &&& metas_seq_eq(b.watcher.queue.hist@.last().new_metadata@, snap)
        &&& b.watcher.queue.hist@.last().events@.len() == 0
    } else {
        &&& b.watcher.queue.items@ == w.queue.items@
        &&& b.watcher.queue.hist@ == w.queue.hist@
    }
}

/// Whether a list of records already has one with this id.
pub fn contains_meta(v: &Vec<Metadata>, id: u64) -> (r: bool)
    ensures
        r == has_meta_id(v@, id),
{
    let n = v.len();
    for i in 0..n
        invariant
            n == v@.len(),
            forall|j: int| 0 <= j < i ==> v@[j].id != id,
    {
        if v[i].id == id {
            return true;
        }
    }
    false
}

/// The single-owner task state: the registry, the de-duplicated metadata
/// record list, and the lifecycle phase.
pub struct Aggregator {
    pub registry: Registry,
    pub seen_metadata: Vec<Metadata>,
    pub state: RunState,
}

impl Aggregator {
    /// Registry sound and metadata ids de-duplicated.
    pub open spec fn wf(self) -> bool {
        &&& self.registry.wf()
        &&& forall|i: int, j: int|
            0 <= i < j < self.seen_metadata@.len() ==> (#[trigger] self.seen_metadata@[i]).id != (
            #[trigger] self.seen_metadata@[j]).id
    }

    pub fn new() -> (r: Self)
        ensures
            r.wf(),
            r.state == RunState::Starting,
            r.registry.watchers@.len() == 0,
            r.registry.next_id == 0,
            r.seen_metadata@.len() == 0,
    {
        Aggregator { registry: Registry::new(), seen_metadata: Vec::new(), state: RunState::Starting }
    }

    /// The task begins polling its inbox: flips the instrumentation
    /// service's health to `Serving`.
    pub fn start(&mut self, health: &mut HealthReporter)
        requires
            old(self).wf(),
            old(self).state == RunState::Starting,
        ensures
            final(self).wf(),
            final(self).state == RunState::Running,
            final(self).registry == old(self).registry,
            final(self).seen_metadata == old(self).seen_metadata,
            final(health).status_of(crate::health::spec_instrument_name()) == Some(ServingStatus::Serving),
            forall|other: Seq<char>|
                other != crate::health::spec_instrument_name() ==> final(health).status_of(other) == old(
                    health,
                ).status_of(other),
    {
        self.state = RunState::Running;
        health.set_service_status(instrument_service_name(), ServingStatus::Serving);
    }

    /// One tick: drain a batch of pending messages, enroll each subscribed
    /// watcher (offering it a snapshot of every record shipped so far),
    /// build a single update from the batch — its first-seen metadata
    /// records, then its events, both in enqueue order — broadcast it, and
    /// evict whoever would block. Returns the evicted ids, together with a
    /// ghost image of the registry as the broadcast saw it and of the
    /// update broadcast, which the contract is stated over.
    pub fn tick(&mut self, batch: Vec<InboxMessage>) -> (r: (
        Vec<u64>,
        Ghost<Seq<Enrolled>>,
        Ghost<Update>,
    ))
        requires
            old(self).wf(),
            old(self).state == RunState::Running,
            batch_wf(batch@),
            old(self).registry.next_id as int + batch@.len() < u64::MAX as int,
        ensures
            final(self).wf(),
            final(self).state == RunState::Running,
            final(self).seen_metadata@ == seen_after(old(self).seen_metadata@, batch@),
            final(self).registry.next_id == old(self).registry.next_id + batch_subs(
                batch@,
            ).len(),
            metas_seq_eq(r.2@.new_metadata@, fresh_metas(old(self).seen_metadata@, batch@)),
            r.2@.events@ == batch_events(batch@),
            r.1@.len() == old(self).registry.watchers@.len() + batch_subs(batch@).len(),
            forall|i: int|
                0 <= i < old(self).registry.watchers@.len() ==> #[trigger] r.1@[i] == old(
                    self,
                ).registry.watchers@[i],
            forall|t: int|
                0 <= t < batch_subs(batch@).len() ==> snapshot_enrolled(
                    batch_subs(batch@)[t],
                    #[trigger] r.1@[old(self).registry.watchers@.len() + t],
                    (old(self).registry.next_id + t) as u64,
                    old(self).seen_metadata@,
                ),
            final(self).registry.watchers@.len() == kept_indices(r.1@).len(),
            forall|j: int|
                0 <= j < final(self).registry.watchers@.len() ==> delivered_to(
                    r.1@[kept_indices(r.1@)[j]],
                    #[trigger] final(self).registry.watchers@[j],
                    r.2@,
                ),
            r.0@ == evicted_ids(r.1@),
    {
        let ghost seen0 = self.seen_metadata@;
        let ghost batch0 = batch@;
        let mut batch = batch;
        let snapshot_src = self.seen_metadata.clone();
        proof {
            assert forall|i: int| 0 <= i < snapshot_src@.len() implies crate::fields::meta_eq(
                snapshot_src@[i],
                seen0[i],
            ) by {
                lemma_cloned_meta(seen0[i], snapshot_src@[i]);
            }
            assert(batch0.subrange(0, 0) =~= Seq::<InboxMessage>::empty());
        }
        let mut evs: Vec<Event> = Vec::new();
        let mut fresh: Vec<Metadata> = Vec::new();
        let mut subs: Vec<Watcher> = Vec::new();
        let n = batch.len();
        for i in 0..n
            invariant
                n == batch0.len(),
                batch@ == batch0.subrange(i as int, n as int),
                batch_wf(batch0),
                self.state == old(self).state,
                self.registry == old(self).registry,
                self.wf(),
                evs@ == batch_events(batch0.subrange(0, i as int)),
                subs@ == batch_subs(batch0.subrange(0, i as int)),
                forall|t: int| 0 <= t < subs@.len() ==> (#[trigger] subs@[t]).queue.wf(),
                self.seen_metadata@ == seen_after(seen0, batch0.subrange(0, i as int)),
                fresh@.len() == fresh_metas(seen0, batch0.subrange(0, i as int)).len(),
                forall|t: int|
                    0 <= t < fresh@.len() ==> crate::fields::meta_eq(
                        #[trigger] fresh@[t],
                        fresh_metas(seen0, batch0.subrange(0, i as int))[t],
                    ),
        {
            let msg = batch.remove(0);
            proof {
                assert(msg == batch0[i as int]);
                assert(batch@ =~= batch0.subrange(i + 1, n as int));
                let pre = batch0.subrange(0, i as int);
                let post = batch0.subrange(0, i + 1);
                assert(post.drop_last() =~= pre);
                assert(post.last() == batch0[i as int]);
            }
            match msg {
                InboxMessage::Control(Command::Instrument(w)) => {
                    subs.push(w);
                },
                InboxMessage::Event(meta, ev) => {
                    evs.push(ev);
                    if !contains_meta(&self.seen_metadata, meta.id) {
                        let copy = meta.clone();
                        proof {
                            lemma_cloned_meta(meta, copy);
                        }
                        self.seen_metadata.push(meta);
                        fresh.push(copy);
                    }
                },
            }
        }
        proof {
            assert(batch0.subrange(0, n as int) =~= batch0);
            lemma_batch_subs_len(batch0);
        }
        let ghost w0len = self.registry.watchers@.len() as int;
        let ghost nid0 = self.registry.next_id;
        let ghost subs0 = subs@;
        let m = subs.len();
        for t in 0..m
            invariant
                m == subs0.len(),
                subs@ == subs0.subrange(t as int, m as int),
                forall|q: int| 0 <= q < subs0.len() ==> (#[trigger] subs0[q]).queue.wf(),
                self.state == old(self).state,
                self.seen_metadata@ == seen_after(seen0, batch0),
                self.wf(),
                nid0 as int + subs0.len() <= u64::MAX as int,
                self.registry.next_id == nid0 + t,
                self.registry.watchers@.len() == w0len + t,
                forall|i: int|
                    0 <= i < w0len ==> #[trigger] self.registry.watchers@[i] == old(
                        self,
                    ).registry.watchers@[i],
                forall|q: int|
                    0 <= q < t ==> snapshot_enrolled(
                        subs0[q],
                        #[trigger] self.registry.watchers@[w0len + q],
                        (nid0 + q) as u64,
                        seen0,
                    ),
                metas_seq_eq(snapshot_src@, seen0),
                w0len == old(self).registry.watchers@.len(),
        {
            let mut w = subs.remove(0);
            proof {
                assert(w == subs0[t as int]);
                assert(subs@ =~= subs0.subrange(t + 1, m as int));
            }
            let ghost wpre = w;
            let snap = Update { new_metadata: snapshot_src.clone(), events: Vec::new() };
            proof {
                assert forall|i: int| 0 <= i < snap.new_metadata@.len() implies
                    crate::fields::meta_eq(snap.new_metadata@[i], seen0[i]) by {
                    lemma_cloned_meta(snapshot_src@[i], snap.new_metadata@[i]);
                }
            }
            let _ = w.queue.try_send(snap);
            proof {
                assert(wpre.queue.hist@.subrange(0, wpre.queue.hist@.len() as int)
                    =~= wpre.queue.hist@);
                if wpre.queue.accepts() {
                    assert(w.queue.hist@.subrange(0, wpre.queue.hist@.len() as int)
                        =~= wpre.queue.hist@);
                }
            }
            let _ = self.registry.insert(w);
        }
        let ghost mid = self.registry.watchers@;
        let update = Update { new_metadata: fresh, events: evs };
        let evicted = self.registry.broadcast(&update);
        let ghost gu = update;
        (evicted, Ghost(mid), Ghost(gu))
    }

    /// The inbox has closed: finish up. Every watcher queue is closed (the
    /// client observes end of stream once it drains what is pending), the
    /// registry is emptied, and — the health coupling — the
    /// instrumentation service is `NotServing` from this point on.
    pub fn drain(&mut self, health: &mut HealthReporter) -> (r: Vec<Enrolled>)
        requires
            old(self).wf(),
            old(self).state == RunState::Running,
        ensures
            final(self).wf(),
            final(self).state == RunState::Stopped,
            final(self).registry.watchers@.len() == 0,
            r@.len() == old(self).registry.watchers@.len(),
            forall|i: int|
                0 <= i < r@.len() ==> {
                    let a = old(self).registry.watchers@[i];
                    let b = #[trigger] r@[i];
                    &&& b.id == a.id
                    &&& b.watcher.queue.closed
                    &&& b.watcher.queue.items@ == a.watcher.queue.items@
                    &&& b.watcher.queue.hist@ == a.watcher.queue.hist@
                },
            final(health).status_of(crate::health::spec_instrument_name()) == Some(ServingStatus::NotServing),
            forall|other: Seq<char>|
                other != crate::health::spec_instrument_name() ==> final(health).status_of(other) == old(
                    health,
                ).status_of(other),
    {
        self.state = RunState::Draining;
        let r = self.registry.close_all();
        self.state = RunState::Stopped;
        health.set_service_status(instrument_service_name(), ServingStatus::NotServing);
        r
    }
}

} // verus!
