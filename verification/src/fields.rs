//! Data model of the event tap: fields extracted from structured trace
//! events, and the immutable per-call-site metadata records.

use vstd::prelude::*;

verus! {

/// The value carried by one field of a structured trace event, as the host
/// hands it to the tap: an integer, a boolean, a string, or an already
/// debug-rendered representation of any other shape.
#[derive(Debug, PartialEq, Eq)]
pub enum FieldValue {
    U64(u64),
    I64(i64),
    Bool(bool),
    Str(String),
    Rendered(String),
}

/// One field of an event as shipped to clients. `metadata_id` identifies the
/// event's static call-site descriptor, `name` is the field's declared
/// identifier, `value` its (possibly rendered) value.
#[derive(Debug, PartialEq, Eq)]
pub struct Field {
    pub metadata_id: u64,
    pub name: String,
    pub value: FieldValue,
}

/// A raw `(name, value)` pair as presented by the host for one event,
/// before any classification.
#[derive(Debug, PartialEq, Eq)]
pub struct RawField {
    pub name: String,
    pub value: FieldValue,
}

/// Immutable descriptor of a call site that emits trace events. The
/// aggregator de-duplicates these by `id` and ships each record to every
/// watcher exactly once before any event that references it.
#[derive(Debug, PartialEq, Eq)]
pub struct Metadata {
    pub id: u64,
    pub level: u32,
    pub target: String,
    pub file: Option<String>,
    pub line: Option<u32>,
    pub module: Option<String>,
}

/// Spec-level mirror of [`FieldValue`] with strings abstracted to their
/// character sequences, so that contracts can speak of constructed values.
pub enum ValueModel {
    U64(u64),
    I64(i64),
    Bool(bool),
    Str(Seq<char>),
    Rendered(Seq<char>),
}

/// Spec-level mirror of [`Field`].
pub struct FieldModel {
    pub metadata_id: u64,
    pub name: Seq<char>,
    pub value: ValueModel,
}

/// What a [`FieldValue`] denotes at the spec level.
pub open spec fn value_model(v: FieldValue) -> ValueModel {
    match v {
        FieldValue::U64(x) => ValueModel::U64(x),
        FieldValue::I64(x) => ValueModel::I64(x),
        FieldValue::Bool(x) => ValueModel::Bool(x),
        FieldValue::Str(s) => ValueModel::Str(s@),
        FieldValue::Rendered(s) => ValueModel::Rendered(s@),
    }
}

/// What a [`Field`] denotes at the spec level.
pub open spec fn field_model(f: Field) -> FieldModel {
    FieldModel { metadata_id: f.metadata_id, name: f.name@, value: value_model(f.value) }
}

/// The spec-level content of a list of fields.
pub open spec fn fields_model(s: Seq<Field>) -> Seq<FieldModel> {
    s.map_values(|f: Field| field_model(f))
}

/// Two field values that denote the same thing.
pub open spec fn value_eq(a: FieldValue, b: FieldValue) -> bool {
    value_model(a) == value_model(b)
}

/// Two fields that denote the same thing.
pub open spec fn field_eq(a: Field, b: Field) -> bool {
    field_model(a) == field_model(b)
}

/// Two metadata records that denote the same call site, character for
/// character.
pub open spec fn meta_eq(a: Metadata, b: Metadata) -> bool {
    &&& a.id == b.id
    &&& a.level == b.level
    &&& a.target@ == b.target@
    &&& match (a.file, b.file) {
        (Some(x), Some(y)) => x@ == y@,
        (None, None) => true,
        _ => false,
    }
    &&& a.line == b.line
    &&& match (a.module, b.module) {
        (Some(x), Some(y)) => x@ == y@,
        (None, None) => true,
        _ => false,
    }
}

impl Clone for FieldValue {
    fn clone(&self) -> (r: Self)
        ensures
            value_eq(r, *self),
    {
        match self {
            FieldValue::U64(x) => FieldValue::U64(*x),
            FieldValue::I64(x) => FieldValue::I64(*x),
            FieldValue::Bool(x) => FieldValue::Bool(*x),
            FieldValue::Str(s) => FieldValue::Str(s.clone()),
            FieldValue::Rendered(s) => FieldValue::Rendered(s.clone()),
        }
    }
}

impl Clone for Field {
    fn clone(&self) -> (r: Self)
        ensures
            field_eq(r, *self),
    {
        Field { metadata_id: self.metadata_id, name: self.name.clone(), value: self.value.clone() }
    }
}

impl Clone for Metadata {
    fn clone(&self) -> (r: Self)
        ensures
            meta_eq(r, *self),
    {
        Metadata {
            id: self.id,
            level: self.level,
            target: self.target.clone(),
            file: match &self.file {
                Some(s) => Some(s.clone()),
                None => None,
            },
            line: self.line,
            module: match &self.module {
                Some(s) => Some(s.clone()),
                None => None,
            },
        }
    }
}

} // verus!
