use devtools_server::fields::{Field, FieldValue, RawField};
use devtools_server::visitor::{
    FieldVisitor, IPCVisitor, Kind, classify_event, collect_fields, parse_kind, visit_all,
};

fn raw(name: &str, value: FieldValue) -> RawField {
    RawField { name: name.to_string(), value }
}

#[test]
fn an_event_with_no_fields_yields_nothing() {
    let pairs: Vec<RawField> = vec![];
    assert!(collect_fields(1, &pairs).is_empty());
    assert!(classify_event(1, &pairs).is_none());
}

#[test]
fn parse_kind_recognizes_the_closed_set() {
    assert_eq!(parse_kind("sync"), Some(Kind::Sync));
    assert_eq!(parse_kind("sync_threadpool"), Some(Kind::SyncThreadpool));
    assert_eq!(parse_kind("async"), Some(Kind::Async));
    assert_eq!(parse_kind("bogus"), None);
    assert_eq!(parse_kind(""), None);
}

#[test]
fn field_visitor_is_total_and_keeps_order() {
    let pairs = vec![
        raw("a", FieldValue::U64(7)),
        raw("b", FieldValue::Str("x".to_string())),
        raw("a", FieldValue::Bool(true)),
        raw("c", FieldValue::I64(-3)),
        raw("d", FieldValue::Rendered("Thing { x: 1 }".to_string())),
    ];
    let fields = collect_fields(42, &pairs);
    assert_eq!(fields.len(), 5);
    assert_eq!(fields[0].metadata_id, 42);
    assert_eq!(fields[0].name, "a");
    assert_eq!(fields[0].value, FieldValue::U64(7));
    assert_eq!(fields[2].name, "a");
    assert_eq!(fields[2].value, FieldValue::Bool(true));
    assert_eq!(fields[4].value, FieldValue::Rendered("Thing { x: 1 }".to_string()));
}

#[test]
fn field_visitor_does_not_deduplicate_names() {
    let mut v = FieldVisitor::new(1);
    v.record_debug("dup", FieldValue::U64(1));
    v.record_debug("dup", FieldValue::U64(2));
    let fields = v.result();
    assert_eq!(fields.len(), 2);
    assert_eq!(fields[0].name, "dup");
    assert_eq!(fields[1].name, "dup");
}

#[test]
fn ipc_classification_extracts_the_schema() {
    let pairs = vec![
        raw("cmd", FieldValue::Str("open".to_string())),
        raw("kind", FieldValue::Str("async".to_string())),
        raw("loc.line", FieldValue::U64(12)),
        raw("loc.column", FieldValue::U64(3)),
        raw("path", FieldValue::Str("/x".to_string())),
    ];
    let res = classify_event(7, &pairs).expect("both cmd and kind were observed");
    assert_eq!(res.cmd, "open");
    assert_eq!(res.kind, Kind::Async);
    assert_eq!(res.line, Some(12));
    assert_eq!(res.column, Some(3));
    assert_eq!(
        res.fields,
        vec![Field {
            metadata_id: 7,
            name: "path".to_string(),
            value: FieldValue::Str("/x".to_string()),
        }]
    );
}

#[test]
fn ipc_gate_requires_cmd() {
    let pairs = vec![raw("kind", FieldValue::Str("sync".to_string()))];
    assert!(classify_event(1, &pairs).is_none());
}

#[test]
fn ipc_gate_requires_kind() {
    let pairs = vec![raw("cmd", FieldValue::Str("open".to_string()))];
    assert!(classify_event(1, &pairs).is_none());
}

#[test]
fn unknown_kind_fails_softly_and_is_counted() {
    let pairs = vec![
        raw("cmd", FieldValue::Str("open".to_string())),
        raw("kind", FieldValue::Str("turbo".to_string())),
        raw("path", FieldValue::Str("/x".to_string())),
    ];
    let v = visit_all(1, &pairs);
    assert_eq!(v.malformed_kinds, 1);
    let res = v.result();
    assert!(res.is_none());
}

#[test]
fn non_ipc_event_keeps_its_generic_fields() {
    let pairs = vec![
        raw("message", FieldValue::Str("hello".to_string())),
        raw("count", FieldValue::U64(4)),
    ];
    let v = visit_all(9, &pairs);
    let fields = v.into_log_fields();
    assert_eq!(fields.len(), 2);
    assert_eq!(fields[0].name, "message");
    assert_eq!(fields[1].value, FieldValue::U64(4));
}

#[test]
fn location_coordinates_truncate_to_u32() {
    let pairs = vec![
        raw("cmd", FieldValue::Str("open".to_string())),
        raw("kind", FieldValue::Str("sync".to_string())),
        raw("loc.line", FieldValue::U64(0x1_0000_0005)),
        raw("loc.column", FieldValue::U64(u64::MAX)),
    ];
    let res = classify_event(1, &pairs).unwrap();
    assert_eq!(res.line, Some(5));
    assert_eq!(res.column, Some(u32::MAX));
}

#[test]
fn later_cmd_and_kind_observations_win() {
    let pairs = vec![
        raw("cmd", FieldValue::Str("first".to_string())),
        raw("kind", FieldValue::Str("sync".to_string())),
        raw("cmd", FieldValue::Str("second".to_string())),
        raw("kind", FieldValue::Str("async".to_string())),
    ];
    let res = classify_event(1, &pairs).unwrap();
    assert_eq!(res.cmd, "second");
    assert_eq!(res.kind, Kind::Async);
}

#[test]
fn string_valued_fields_forwarded_by_debug_stay_generic() {
    let mut v = IPCVisitor::new(3);
    v.record_debug("note", FieldValue::Str("plain".to_string()));
    v.record_str("cmd", "open");
    v.record_str("kind", "sync");
    let res = v.result().unwrap();
    assert_eq!(res.fields.len(), 1);
    assert_eq!(res.fields[0].name, "note");
}
