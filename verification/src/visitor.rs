//! The event tap: visitors that turn a structured trace event's raw
//! `(name, value)` pairs into a serializable field list, and the classifier
//! that recognizes the IPC-request schema (`cmd`, `kind`, `loc.line`,
//! `loc.column`) among them.

use vstd::prelude::*;
use crate::fields::{Field, FieldModel, FieldValue, RawField, ValueModel, field_model, fields_model,
    value_model};

verus! {

/// The dispatch kind of an IPC request.
#[derive(Clone, Copy, Debug, PartialEq, Eq, Structural)]
pub enum Kind {
    Sync,
    SyncThreadpool,
    Async,
}

/// Which [`Kind`] a `kind` field's string denotes, if any.
pub open spec fn spec_parse_kind(s: Seq<char>) -> Option<Kind> {
    if s == "sync"@ {
        Some(Kind::Sync)
    } else if s == "sync_threadpool"@ {
        Some(Kind::SyncThreadpool)
    } else if s == "async"@ {
        Some(Kind::Async)
    } else {
        None
    }
}

/// True of string slices with the same characters.
pub fn str_eq(a: &str, b: &str) -> (r: bool)
    ensures
        r == (a@ == b@),
{
    a.to_owned() == b.to_owned()
}

/// Recognizes the closed set of dispatch kinds. Any other string is a
/// schema violation and yields `None`; it never panics.
pub fn parse_kind(value: &str) -> (r: Option<Kind>)
    ensures
        r == spec_parse_kind(value@),
{
    if str_eq(value, "sync") {
        Some(Kind::Sync)
    } else if str_eq(value, "sync_threadpool") {
        Some(Kind::SyncThreadpool)
    } else if str_eq(value, "async") {
        Some(Kind::Async)
    } else {
        None
    }
}

/// Generic field extraction for one event: every visited pair becomes
/// exactly one [`Field`] whose `metadata_id` is the event's call-site id.
pub struct FieldVisitor {
    pub fields: Vec<Field>,
    pub meta_id: u64,
}

impl FieldVisitor {
    pub fn new(meta_id: u64) -> (r: Self)
        ensures
            r.fields@.len() == 0,
            r.meta_id == meta_id,
    {
        FieldVisitor { fields: Vec::new(), meta_id }
    }

    /// Records one pair, whatever its shape: total, preserves encounter
    /// order, and never de-duplicates names.
    pub fn record_debug(&mut self, name: &str, value: FieldValue)
        ensures
            final(self).meta_id == old(self).meta_id,
            final(self).fields@.len() == old(self).fields@.len() + 1,
            forall|j: int|
                0 <= j < old(self).fields@.len() ==> final(self).fields@[j] == old(
                    self,
                ).fields@[j],
            field_model(final(self).fields@.last()) == (FieldModel {
                metadata_id: old(self).meta_id,
                name: name@,
                value: value_model(value),
            }),
            fields_model(final(self).fields@) == fields_model(old(self).fields@).push(
                FieldModel {
                    metadata_id: old(self).meta_id,
                    name: name@,
                    value: value_model(value),
                },
            ),
    {
        let ghost old_fields = self.fields@;
        let ghost m = FieldModel {
            metadata_id: self.meta_id,
            name: name@,
            value: value_model(value),
        };
        let f = Field { metadata_id: self.meta_id, name: name.to_owned(), value };
        self.fields.push(f);
        proof {
            assert(fields_model(self.fields@) =~= fields_model(old_fields).push(m));
        }
    }

    /// Hands the collected list out, in encounter order.
    pub fn result(self) -> (r: Vec<Field>)
        ensures
            r == self.fields,
    {
        self.fields
    }
}

/// The abstract state of an [`IPCVisitor`] after some visits.
pub struct VisitorModel {
    pub meta_id: u64,
    pub fields: Seq<FieldModel>,
    pub cmd: Option<Seq<char>>,
    pub kind: Option<Kind>,
    pub line: Option<u32>,
    pub column: Option<u32>,
    pub malformed_kinds: u64,
}

/// Saturating count of schema violations: the counter never wraps.
pub open spec fn sat_inc(x: u64) -> u64 {
    if x < u64::MAX {
        (x + 1) as u64
    } else {
        x
    }
}

/// A `u64` source-location coordinate truncated to `u32`.
pub open spec fn truncate32(u: u64) -> u32 {
    (u % 0x1_0000_0000) as u32
}

/// Appending one generic field to the model.
pub open spec fn push_field(m: VisitorModel, name: Seq<char>, value: ValueModel) -> VisitorModel {
    VisitorModel {
        fields: m.fields.push(FieldModel { metadata_id: m.meta_id, name, value }),
        ..m
    }
}

/// How one visited pair changes the classifier's state. String pairs named
/// `cmd` and `kind` and `u64` pairs named `loc.line` and `loc.column` are
/// intercepted; an unrecognized `kind` string only bumps the violation
/// counter; everything else is forwarded as a generic field.
pub open spec fn visit_step(m: VisitorModel, name: Seq<char>, value: ValueModel) -> VisitorModel {
    match value {
        ValueModel::Str(s) => if name == "cmd"@ {
            VisitorModel { cmd: Some(s), ..m }
        } else if name == "kind"@ {
            match spec_parse_kind(s) {
                Some(k) => VisitorModel { kind: Some(k), ..m },
                None => VisitorModel { malformed_kinds: sat_inc(m.malformed_kinds), ..m },
            }
        } else {
            push_field(m, name, value)
        },
        ValueModel::U64(u) => if name == "loc.line"@ {
            VisitorModel { line: Some(truncate32(u)), ..m }
        } else if name == "loc.column"@ {
            VisitorModel { column: Some(truncate32(u)), ..m }
        } else {
            push_field(m, name, value)
        },
        _ => push_field(m, name, value),
    }
}

/// The classifier's state before any visit.
pub open spec fn init_model(meta_id: u64) -> VisitorModel {
    VisitorModel {
        meta_id,
        fields: Seq::empty(),
        cmd: None,
        kind: None,
        line: None,
        column: None,
        malformed_kinds: 0,
    }
}

/// The classifier's state after visiting a whole sequence of pairs.
pub open spec fn visit_fold(m: VisitorModel, raw: Seq<RawField>) -> VisitorModel
    decreases raw.len(),
{
    if raw.len() == 0 {
        m
    } else {
        visit_step(
            visit_fold(m, raw.drop_last()),
            raw.last().name@,
            value_model(raw.last().value),
        )
    }
}

/// A pair that, when visited, establishes the `cmd` half of the IPC gate.
pub open spec fn is_cmd_pair(f: RawField) -> bool {
    f.name@ == "cmd"@ && f.value is Str
}

/// A pair that, when visited, establishes the `kind` half of the IPC gate.
pub open spec fn is_valid_kind_pair(f: RawField) -> bool {
    &&& f.name@ == "kind"@
    &&& match f.value {
        FieldValue::Str(s) => spec_parse_kind(s@) is Some,
        _ => false,
    }
}

/// A visitor that wraps [`FieldVisitor`] and intercepts the four well-known
/// IPC field names before delegation.
pub struct IPCVisitor {
    pub field_visitor: FieldVisitor,
    pub cmd: Option<String>,
    pub kind: Option<Kind>,
    pub line: Option<u32>,
    pub column: Option<u32>,
    pub malformed_kinds: u64,
}

/// The completed classification of an IPC-shaped event.
#[derive(Debug, PartialEq, Eq)]
pub struct IPCVisitorResult {
    pub fields: Vec<Field>,
    pub cmd: String,
    pub kind: Kind,
    pub line: Option<u32>,
    pub column: Option<u32>,
}

impl IPCVisitor {
    /// The abstract state this visitor is in.
    pub open spec fn model(self) -> VisitorModel {
        VisitorModel {
            meta_id: self.field_visitor.meta_id,
            fields: fields_model(self.field_visitor.fields@),
            cmd: match self.cmd {
                Some(s) => Some(s@),
                None => None,
            },
            kind: self.kind,
            line: self.line,
            column: self.column,
            malformed_kinds: self.malformed_kinds,
        }
    }

    pub fn new(meta_id: u64) -> (r: Self)
        ensures
            r.model() == init_model(meta_id),
    {
        let r = IPCVisitor {
            field_visitor: FieldVisitor::new(meta_id),
            cmd: None,
            kind: None,
            line: None,
            column: None,
            malformed_kinds: 0,
        };
        proof {
            assert(r.model().fields =~= init_model(meta_id).fields);
            assert(r.model() =~= init_model(meta_id));
        }
        r
    }

    /// A string pair: intercepts `cmd` and `kind`, forwards the rest.
    /// An unrecognized `kind` string fails softly: the event stays a plain
    /// log event and the violation counter is bumped.
    pub fn record_str(&mut self, name: &str, value: &str)
        ensures
            final(self).model() == visit_step(old(self).model(), name@, ValueModel::Str(value@)),
    {
        if str_eq(name, "cmd") {
            self.cmd = Some(value.to_owned());
        } else if str_eq(name, "kind") {
            match parse_kind(value) {
                Some(k) => {
                    self.kind = Some(k);
                },
                None => {
                    if self.malformed_kinds < u64::MAX {
                        self.malformed_kinds = self.malformed_kinds + 1;
                    }
                },
            }
        } else {
            self.field_visitor.record_debug(name, FieldValue::Str(value.to_owned()));
        }
    }

    /// A `u64` pair: intercepts the source-location coordinates, truncating
    /// them to `u32`; forwards the rest.
    pub fn record_u64(&mut self, name: &str, value: u64)
        ensures
            final(self).model() == visit_step(old(self).model(), name@, ValueModel::U64(value)),
    {
        if str_eq(name, "loc.line") {
            self.line = Some((value % 0x1_0000_0000) as u32);
        } else if str_eq(name, "loc.column") {
            self.column = Some((value % 0x1_0000_0000) as u32);
        } else {
            self.field_visitor.record_debug(name, FieldValue::U64(value));
        }
    }

    /// Any other shape is delegated to the generic visitor unchanged.
    pub fn record_debug(&mut self, name: &str, value: FieldValue)
        ensures
            final(self).model() == push_field(old(self).model(), name@, value_model(value)),
    {
        self.field_visitor.record_debug(name, value);
    }

    /// Dispatches one raw pair the way the host's instrumentation layer
    /// does: strings to [`Self::record_str`], `u64`s to
    /// [`Self::record_u64`], everything else to [`Self::record_debug`].
    pub fn record(&mut self, f: &RawField)
        ensures
            final(self).model() == visit_step(old(self).model(), f.name@, value_model(f.value)),
    {
        match &f.value {
            FieldValue::Str(s) => {
                self.record_str(f.name.as_str(), s.as_str());
            },
            FieldValue::U64(u) => {
                let v = *u;
                self.record_u64(f.name.as_str(), v);
            },
            _ => {
                self.record_debug(f.name.as_str(), f.value.clone());
            },
        }
    }

    /// Yields a classification only if both `cmd` and a recognized `kind`
    /// were observed; otherwise the event is not an IPC event. (The
    /// collected generic fields of a non-IPC event are reached through
    /// [`Self::into_log_fields`].)
    pub fn result(self) -> (r: Option<IPCVisitorResult>)
        ensures
            r is Some <==> (self.model().cmd is Some && self.model().kind is Some),
            match r {
                Some(res) => {
                    &&& Some(res.cmd@) == self.model().cmd
                    &&& Some(res.kind) == self.model().kind
                    &&& res.line == self.model().line
                    &&& res.column == self.model().column
                    &&& fields_model(res.fields@) == self.model().fields
                },
                None => true,
            },
    {
        let IPCVisitor { field_visitor, cmd, kind, line, column, malformed_kinds: _ } = self;
        let fields = field_visitor.result();
        if let (Some(cmd), Some(kind)) = (cmd, kind) {
            Some(IPCVisitorResult { fields, cmd, kind, line, column })
        } else {
            None
        }
    }

    /// The generic fields collected so far, for the non-IPC outcome.
    pub fn into_log_fields(self) -> (r: Vec<Field>)
        ensures
            fields_model(r@) == self.model().fields,
    {
        self.field_visitor.result()
    }
}

/// Field totality for the generic visitor: every event yields exactly one
/// field per visited pair, in encounter order, with the event's call-site
/// id, whatever the value shapes; no input makes it panic.
pub fn collect_fields(meta_id: u64, raw: &Vec<RawField>) -> (r: Vec<Field>)
    ensures
        r@.len() == raw@.len(),
        forall|i: int|
            0 <= i < raw@.len() ==> field_model(r@[i]) == (FieldModel {
                metadata_id: meta_id,
                name: raw@[i].name@,
                value: value_model(raw@[i].value),
            }),
{
    let mut v = FieldVisitor::new(meta_id);
    let n = raw.len();
    for i in 0..n
        invariant
            n == raw@.len(),
            v.meta_id == meta_id,
            v.fields@.len() == i,
            forall|j: int|
                0 <= j < i ==> field_model(#[trigger] v.fields@[j]) == (FieldModel {
                    metadata_id: meta_id,
                    name: raw@[j].name@,
                    value: value_model(raw@[j].value),
                }),
    {
        let f = &raw[i];
        let value = f.value.clone();
        v.record_debug(f.name.as_str(), value);
    }
    v.result()
}

/// Runs the IPC classifier over a whole event, pair by pair, in the order
/// the host presents them.
pub fn visit_all(meta_id: u64, raw: &Vec<RawField>) -> (v: IPCVisitor)
    ensures
        v.model() == visit_fold(init_model(meta_id), raw@),
{
    let mut v = IPCVisitor::new(meta_id);
    let n = raw.len();
    for i in 0..n
        invariant
            n == raw@.len(),
            v.model() == visit_fold(init_model(meta_id), raw@.subrange(0, i as int)),
    {
        let ghost pre = raw@.subrange(0, i as int);
        v.record(&raw[i]);
        proof {
            let post = raw@.subrange(0, i + 1 as int);
            assert(post.drop_last() =~= pre);
            assert(post.last() == raw@[i as int]);
        }
    }
    proof {
        assert(raw@.subrange(0, raw@.len() as int) =~= raw@);
    }
    v
}

/// Classifies one event: yields an [`IPCVisitorResult`] exactly when both a
/// `cmd` string and a recognized `kind` string were observed.
pub fn classify_event(meta_id: u64, raw: &Vec<RawField>) -> (r: Option<IPCVisitorResult>)
    ensures
        r is Some <==> (visit_fold(init_model(meta_id), raw@).cmd is Some && visit_fold(
            init_model(meta_id),
            raw@,
        ).kind is Some),
        match r {
            Some(res) => {
                &&& Some(res.cmd@) == visit_fold(init_model(meta_id), raw@).cmd
                &&& Some(res.kind) == visit_fold(init_model(meta_id), raw@).kind
                &&& res.line == visit_fold(init_model(meta_id), raw@).line
                &&& res.column == visit_fold(init_model(meta_id), raw@).column
                &&& fields_model(res.fields@) == visit_fold(init_model(meta_id), raw@).fields
            },
            None => true,
        },
{
    let v = visit_all(meta_id, raw);
    v.result()
}

/// The IPC gate, over any sequence of visited pairs: after the whole event
/// is visited, `cmd` is known iff some pair was a `cmd` string, and `kind`
/// is known iff some pair was a `kind` string within the recognized set.
/// With [`classify_event`]'s contract: a classification is produced iff
/// both such pairs occur.
pub proof fn lemma_ipc_gate(meta_id: u64, raw: Seq<RawField>)
    ensures
        (visit_fold(init_model(meta_id), raw).cmd is Some) <==> (exists|i: int|
            0 <= i < raw.len() && is_cmd_pair(raw[i])),
        (visit_fold(init_model(meta_id), raw).kind is Some) <==> (exists|i: int|
            0 <= i < raw.len() && is_valid_kind_pair(raw[i])),
    decreases raw.len(),
{
    reveal_strlit("cmd");
    reveal_strlit("kind");
    if raw.len() == 0 {
    } else {
        let pre = raw.drop_last();
        lemma_ipc_gate(meta_id, pre);
        let m = visit_fold(init_model(meta_id), pre);
        let post = visit_fold(init_model(meta_id), raw);
        let last = raw.last();
        assert(raw[raw.len() - 1] == last);
        assert(forall|i: int| 0 <= i < pre.len() ==> pre[i] == raw[i]);
        if post.cmd is Some {
            if m.cmd is Some {
                let i = choose|i: int| 0 <= i < pre.len() && is_cmd_pair(pre[i]);
                assert(0 <= i < raw.len() && is_cmd_pair(raw[i]));
            } else {
                assert(is_cmd_pair(last));
                assert(0 <= raw.len() - 1 < raw.len() && is_cmd_pair(raw[raw.len() - 1]));
            }
        } else {
            assert(m.cmd is None);
            assert(!is_cmd_pair(last));
            assert(forall|i: int| 0 <= i < raw.len() && is_cmd_pair(raw[i]) ==> i < pre.len()
                && is_cmd_pair(pre[i]));
        }
        if post.kind is Some {
            if m.kind is Some {
                let i = choose|i: int| 0 <= i < pre.len() && is_valid_kind_pair(pre[i]);
                assert(0 <= i < raw.len() && is_valid_kind_pair(raw[i]));
            } else {
                assert(is_valid_kind_pair(last));
                assert(0 <= raw.len() - 1 < raw.len() && is_valid_kind_pair(raw[raw.len() - 1]));
            }
        } else {
            assert(m.kind is None);
            assert("cmd"@.len() == 3 && "kind"@.len() == 4);
            if is_valid_kind_pair(last) {
                match last.value {
                    FieldValue::Str(s0) => {
                        assert(value_model(last.value) == ValueModel::Str(s0@));
                        assert(last.name@ != "cmd"@);
                        assert(post == visit_step(m, last.name@, ValueModel::Str(s0@)));
                        assert(post.kind is Some);
                    },
                    _ => {},
                }
            }
            assert(!is_valid_kind_pair(last));
            assert(forall|i: int|
                0 <= i < raw.len() && is_valid_kind_pair(raw[i]) ==> i < pre.len()
                    && is_valid_kind_pair(pre[i]));
        }
    }
}

} // verus!
