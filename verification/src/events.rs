//! Events as shipped to watchers, and the batched update envelope.

use vstd::prelude::*;
use crate::fields::{Field, Metadata, field_model, fields_model, meta_eq};
use crate::visitor::Kind;

verus! {

/// One instrumented occurrence in the host, stamped with the id of its
/// call-site metadata.
#[derive(Debug, PartialEq, Eq)]
pub enum Event {
    Log { meta_id: u64, timestamp: u64, fields: Vec<Field> },
    SpanCreated {
        span_id: u64,
        meta_id: u64,
        parent: Option<u64>,
        timestamp: u64,
        fields: Vec<Field>,
    },
    SpanEnter { span_id: u64, thread_id: u64, timestamp: u64 },
    SpanExit { span_id: u64, thread_id: u64, timestamp: u64 },
    SpanClosed { span_id: u64, timestamp: u64 },
    IpcRequest {
        meta_id: u64,
        timestamp: u64,
        cmd: String,
        kind: Kind,
        line: Option<u32>,
        column: Option<u32>,
        fields: Vec<Field>,
    },
}

/// The streamed message delivered to a watcher: any new metadata records,
/// then the batch of events, both in enqueue order. (The wire layer may
/// split the batch by event shape; that framing carries no ordering and is
/// outside this crate.)
#[derive(Debug, PartialEq, Eq)]
pub struct Update {
    pub new_metadata: Vec<Metadata>,
    pub events: Vec<Event>,
}

/// Two events that denote the same occurrence, character for character.
pub open spec fn event_eq(a: Event, b: Event) -> bool {
    match (a, b) {
        (
            Event::Log { meta_id: m1, timestamp: t1, fields: f1 },
            Event::Log { meta_id: m2, timestamp: t2, fields: f2 },
        ) => m1 == m2 && t1 == t2 && fields_model(f1@) == fields_model(f2@),
        (
            Event::SpanCreated { span_id: s1, meta_id: m1, parent: p1, timestamp: t1, fields: f1 },
            Event::SpanCreated { span_id: s2, meta_id: m2, parent: p2, timestamp: t2, fields: f2 },
        ) => s1 == s2 && m1 == m2 && p1 == p2 && t1 == t2 && fields_model(f1@) == fields_model(
            f2@,
        ),
        (
            Event::SpanEnter { span_id: s1, thread_id: h1, timestamp: t1 },
            Event::SpanEnter { span_id: s2, thread_id: h2, timestamp: t2 },
        ) => s1 == s2 && h1 == h2 && t1 == t2,
        (
            Event::SpanExit { span_id: s1, thread_id: h1, timestamp: t1 },
            Event::SpanExit { span_id: s2, thread_id: h2, timestamp: t2 },
        ) => s1 == s2 && h1 == h2 && t1 == t2,
        (
            Event::SpanClosed { span_id: s1, timestamp: t1 },
            Event::SpanClosed { span_id: s2, timestamp: t2 },
        ) => s1 == s2 && t1 == t2,
        (
            Event::IpcRequest {
                meta_id: m1,
                timestamp: t1,
                cmd: c1,
                kind: k1,
                line: l1,
                column: o1,
                fields: f1,
            },
            Event::IpcRequest {
                meta_id: m2,
                timestamp: t2,
                cmd: c2,
                kind: k2,
                line: l2,
                column: o2,
                fields: f2,
            },
        ) => m1 == m2 && t1 == t2 && c1@ == c2@ && k1 == k2 && l1 == l2 && o1 == o2
            && fields_model(f1@) == fields_model(f2@),
        _ => false,
    }
}

/// Pointwise [`meta_eq`] over two metadata lists.
pub open spec fn metas_seq_eq(a: Seq<Metadata>, b: Seq<Metadata>) -> bool {
    a.len() == b.len() && forall|i: int| 0 <= i < a.len() ==> meta_eq(a[i], b[i])
}

/// Pointwise [`event_eq`] over two event lists.
pub open spec fn events_seq_eq(a: Seq<Event>, b: Seq<Event>) -> bool {
    a.len() == b.len() && forall|i: int| 0 <= i < a.len() ==> event_eq(a[i], b[i])
}

/// Two updates that carry the same message.
pub open spec fn update_eq(a: Update, b: Update) -> bool {
    metas_seq_eq(a.new_metadata@, b.new_metadata@) && events_seq_eq(a.events@, b.events@)
}

/// A clone of a [`Field`] denotes the same field.
pub proof fn lemma_cloned_field(a: Field, b: Field)
    requires
        vstd::pervasive::cloned::<Field>(a, b),
    ensures
        crate::fields::field_eq(b, a),
{
}

/// A clone of a [`Metadata`] denotes the same record.
pub proof fn lemma_cloned_meta(a: Metadata, b: Metadata)
    requires
        vstd::pervasive::cloned::<Metadata>(a, b),
    ensures
        meta_eq(b, a),
{
}

/// A clone of an [`Event`] denotes the same occurrence.
pub proof fn lemma_cloned_event(a: Event, b: Event)
    requires
        vstd::pervasive::cloned::<Event>(a, b),
    ensures
        event_eq(b, a),
{
}

impl Clone for Event {
    fn clone(&self) -> (r: Self)
        ensures
            event_eq(r, *self),
    {
        match self {
            Event::Log { meta_id, timestamp, fields } => {
                let f = fields.clone();
                proof {
                    assert forall|i: int| 0 <= i < f@.len() implies field_model(f@[i])
                        == field_model(fields@[i]) by {
                        lemma_cloned_field(fields@[i], f@[i]);
                    }
                    assert(fields_model(f@) =~= fields_model(fields@));
                }
                Event::Log { meta_id: *meta_id, timestamp: *timestamp, fields: f }
            },
            Event::SpanCreated { span_id, meta_id, parent, timestamp, fields } => {
                let f = fields.clone();
                proof {
                    assert forall|i: int| 0 <= i < f@.len() implies field_model(f@[i])
                        == field_model(fields@[i]) by {
                        lemma_cloned_field(fields@[i], f@[i]);
                    }
                    assert(fields_model(f@) =~= fields_model(fields@));
                }
                Event::SpanCreated {
                    span_id: *span_id,
                    meta_id: *meta_id,
                    parent: *parent,
                    timestamp: *timestamp,
                    fields: f,
                }
            },
            Event::SpanEnter { span_id, thread_id, timestamp } => Event::SpanEnter {
                span_id: *span_id,
                thread_id: *thread_id,
                timestamp: *timestamp,
            },
            Event::SpanExit { span_id, thread_id, timestamp } => Event::SpanExit {
                span_id: *span_id,
                thread_id: *thread_id,
                timestamp: *timestamp,
            },
            Event::SpanClosed { span_id, timestamp } => Event::SpanClosed {
                span_id: *span_id,
                timestamp: *timestamp,
            },
            Event::IpcRequest { meta_id, timestamp, cmd, kind, line, column, fields } => {
                let f = fields.clone();
                proof {
                    assert forall|i: int| 0 <= i < f@.len() implies field_model(f@[i])
                        == field_model(fields@[i]) by {
                        lemma_cloned_field(fields@[i], f@[i]);
                    }
                    assert(fields_model(f@) =~= fields_model(fields@));
                }
                Event::IpcRequest {
                    meta_id: *meta_id,
                    timestamp: *timestamp,
                    cmd: cmd.clone(),
                    kind: *kind,
                    line: *line,
                    column: *column,
                    fields: f,
                }
            },
        }
    }
}

impl Clone for Update {
    fn clone(&self) -> (r: Self)
        ensures
            update_eq(r, *self),
    {
        let new_metadata = self.new_metadata.clone();
        let events = self.events.clone();
        proof {
            assert forall|i: int| 0 <= i < new_metadata@.len() implies meta_eq(
                new_metadata@[i],
                self.new_metadata@[i],
            ) by {
                lemma_cloned_meta(self.new_metadata@[i], new_metadata@[i]);
            }
            assert forall|i: int| 0 <= i < events@.len() implies event_eq(
                events@[i],
                self.events@[i],
            ) by {
                lemma_cloned_event(self.events@[i], events@[i]);
            }
        }
        Update { new_metadata, events }
    }
}

} // verus!
