use devtools_server::aggregator::{Aggregator, Command, InboxMessage};
use devtools_server::events::{Event, Update};
use devtools_server::fields::Metadata;
use devtools_server::health::HealthReporter;
use devtools_server::instrument::{InstrumentRequest, InstrumentService};
use devtools_server::queue::{BoundedQueue, SendOutcome};
use devtools_server::registry::{Registry, Watcher};

fn meta(id: u64) -> Metadata {
    Metadata {
        id,
        level: 3,
        target: "app::module".to_string(),
        file: Some("src/main.rs".to_string()),
        line: Some(10),
        module: None,
    }
}

fn log_event(meta_id: u64, timestamp: u64) -> Event {
    Event::Log { meta_id, timestamp, fields: vec![] }
}

fn event_msg(id: u64, timestamp: u64) -> InboxMessage {
    InboxMessage::Event(meta(id), log_event(id, timestamp))
}

#[test]
fn queue_is_fifo_and_bounded() {
    let mut q: BoundedQueue<u64> = BoundedQueue::new(2);
    assert_eq!(q.recv(), None);
    assert_eq!(q.try_send(1), SendOutcome::Sent);
    assert_eq!(q.try_send(2), SendOutcome::Sent);
    assert_eq!(q.try_send(3), SendOutcome::Full);
    assert_eq!(q.recv(), Some(1));
    assert_eq!(q.try_send(4), SendOutcome::Sent);
    assert_eq!(q.recv(), Some(2));
    assert_eq!(q.recv(), Some(4));
    q.close();
    assert_eq!(q.try_send(5), SendOutcome::Closed);
}

#[test]
fn broadcast_delivers_in_enrollment_order_and_evicts_the_full() {
    let mut reg = Registry::new();
    let a = reg.insert(Watcher { queue: BoundedQueue::new(1) });
    let b = reg.insert(Watcher { queue: BoundedQueue::new(2) });
    assert_eq!(reg.len(), 2);

    let u1 = Update { new_metadata: vec![], events: vec![log_event(1, 1)] };
    let evicted = reg.broadcast(&u1);
    assert!(evicted.is_empty());
    assert_eq!(reg.len(), 2);

    // watcher `a` (capacity 1, never drained) is now full: the next
    // broadcast evicts it and only it.
    let u2 = Update { new_metadata: vec![], events: vec![log_event(1, 2)] };
    let evicted = reg.broadcast(&u2);
    assert_eq!(evicted, vec![a]);
    assert_eq!(reg.len(), 1);

    // `b` (capacity 2) received both updates and is now full itself: the
    // next broadcast evicts it too.
    let u3 = Update { new_metadata: vec![], events: vec![] };
    let evicted = reg.broadcast(&u3);
    assert_eq!(evicted, vec![b]);
    assert_eq!(reg.len(), 0);
}

#[test]
fn tick_builds_one_update_with_events_in_enqueue_order() {
    let mut health = HealthReporter::new();
    let mut agg = Aggregator::new();
    agg.start(&mut health);

    // enroll one watcher, then feed it two events in one tick.
    let w = Watcher { queue: BoundedQueue::new(8) };
    let (evicted, _, _) =
        agg.tick(vec![InboxMessage::Control(Command::Instrument(w))]);
    assert!(evicted.is_empty());
    assert_eq!(agg.registry.len(), 1);

    let (evicted, _, _) = agg.tick(vec![event_msg(1, 10), event_msg(2, 11)]);
    assert!(evicted.is_empty());

    // the watcher got the (empty) snapshot, the enrollment-tick update and
    // the event update; the event update holds both events in order.
    let q = &mut agg.registry.watchers[0].watcher.queue;
    let snapshot = q.recv().unwrap();
    assert!(snapshot.new_metadata.is_empty());
    assert!(snapshot.events.is_empty());
    let enroll_tick = q.recv().unwrap();
    assert!(enroll_tick.events.is_empty());
    let update = q.recv().unwrap();
    assert_eq!(update.events, vec![log_event(1, 10), log_event(2, 11)]);
    assert_eq!(update.new_metadata, vec![meta(1), meta(2)]);
}

#[test]
fn metadata_is_shipped_exactly_once() {
    let mut health = HealthReporter::new();
    let mut agg = Aggregator::new();
    agg.start(&mut health);

    let w = Watcher { queue: BoundedQueue::new(8) };
    let _ = agg.tick(vec![InboxMessage::Control(Command::Instrument(w))]);

    // two events from the same call site in one tick, then one more in a
    // later tick: the record goes out once.
    let _ = agg.tick(vec![event_msg(5, 1), event_msg(5, 2)]);
    let _ = agg.tick(vec![event_msg(5, 3)]);

    let q = &mut agg.registry.watchers[0].watcher.queue;
    let _snapshot = q.recv().unwrap();
    let _enroll_tick = q.recv().unwrap();
    let first = q.recv().unwrap();
    assert_eq!(first.new_metadata, vec![meta(5)]);
    assert_eq!(first.events.len(), 2);
    let second = q.recv().unwrap();
    assert!(second.new_metadata.is_empty());
    assert_eq!(second.events.len(), 1);
}

#[test]
fn late_subscriber_gets_a_metadata_snapshot() {
    let mut health = HealthReporter::new();
    let mut agg = Aggregator::new();
    agg.start(&mut health);

    let _ = agg.tick(vec![event_msg(1, 1), event_msg(2, 2)]);

    let w = Watcher { queue: BoundedQueue::new(8) };
    let _ = agg.tick(vec![InboxMessage::Control(Command::Instrument(w))]);

    let q = &mut agg.registry.watchers[0].watcher.queue;
    let snapshot = q.recv().unwrap();
    assert_eq!(snapshot.new_metadata, vec![meta(1), meta(2)]);
    assert!(snapshot.events.is_empty());
}

#[test]
fn a_watcher_behind_by_the_full_buffer_is_evicted_within_one_cycle() {
    let mut health = HealthReporter::new();
    let mut agg = Aggregator::new();
    agg.start(&mut health);

    // subscribe through the real service path: the outbound queue has the
    // default capacity of 4096.
    let mut srv = InstrumentService { tx: BoundedQueue::new(1) };
    srv.watch_updates(&mut health, InstrumentRequest { log_filter: None, span_filter: None })
        .unwrap();
    let cmd = srv.tx.recv().unwrap();
    let (evicted, _, _) = agg.tick(vec![cmd]);
    assert!(evicted.is_empty());
    assert_eq!(agg.registry.len(), 1);

    // the snapshot and the enrollment tick's update already occupy two
    // slots, so 4094 more fill the queue; the client never reads.
    for t in 0..4094u64 {
        let (evicted, _, _) = agg.tick(vec![event_msg(1, t)]);
        assert!(evicted.is_empty());
    }

    // one broadcast cycle after the queue is full, the watcher is gone and
    // the aggregator keeps running.
    let (evicted, _, _) = agg.tick(vec![event_msg(1, 9999)]);
    assert_eq!(evicted, vec![0]);
    assert_eq!(agg.registry.len(), 0);

    let (evicted, _, _) = agg.tick(vec![event_msg(2, 10000)]);
    assert!(evicted.is_empty());
}

#[test]
fn drain_closes_every_watcher_queue() {
    let mut health = HealthReporter::new();
    let mut agg = Aggregator::new();
    agg.start(&mut health);

    let w = Watcher { queue: BoundedQueue::new(4) };
    let _ = agg.tick(vec![InboxMessage::Control(Command::Instrument(w))]);
    let _ = agg.tick(vec![event_msg(1, 1)]);

    let mut closed = agg.drain(&mut health);
    assert_eq!(agg.registry.len(), 0);
    assert_eq!(closed.len(), 1);

    // the client still drains what was pending, then sees end of stream.
    let q = &mut closed[0].watcher.queue;
    assert!(q.is_closed());
    assert!(q.recv().is_some());
    assert!(q.recv().is_some());
    assert!(q.recv().is_some());
    assert_eq!(q.recv(), None);
}

#[test]
fn per_watcher_updates_arrive_in_enqueue_order() {
    let mut health = HealthReporter::new();
    let mut agg = Aggregator::new();
    agg.start(&mut health);

    let w = Watcher { queue: BoundedQueue::new(8) };
    let _ = agg.tick(vec![InboxMessage::Control(Command::Instrument(w))]);
    let _ = agg.tick(vec![event_msg(1, 100)]);
    let _ = agg.tick(vec![event_msg(1, 200)]);

    let q = &mut agg.registry.watchers[0].watcher.queue;
    let _snapshot = q.recv().unwrap();
    let _enroll_tick = q.recv().unwrap();
    let first = q.recv().unwrap();
    let second = q.recv().unwrap();
    assert_eq!(first.events, vec![log_event(1, 100)]);
    assert_eq!(second.events, vec![log_event(1, 200)]);
}
