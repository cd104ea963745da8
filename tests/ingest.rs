use log_ingest::entry::{LogEntry, QueuedRecord};
use log_ingest::ingest::{
    details_of, is_error_level, make_record, prepare_batch, prepare_batch_now, stamp_extra,
    timestamp_of,
};
use serde_json::Value;

fn entry(level: &str, message: &str, extra_json: &str) -> LogEntry {
    let extra: Value = serde_json::from_str(extra_json).unwrap();
    LogEntry::new(level.to_string(), message.to_string(), extra)
}

fn details_object(record: &QueuedRecord) -> serde_json::Map<String, Value> {
    let parsed: Value = serde_json::from_str(&record.details).unwrap();
    parsed.as_object().unwrap().clone()
}

#[test]
fn error_entry_is_stored_with_injected_timestamp() {
    let records = prepare_batch_now(vec![entry("error", "disk full", "{}")]);
    assert_eq!(records.len(), 1);
    let r = &records[0];
    assert_eq!(r.level, "error");
    assert_eq!(r.message, "disk full");
    assert!(!r.timestamp.is_empty());
    assert!(chrono::DateTime::parse_from_rfc3339(&r.timestamp).is_ok());
    let details = details_object(r);
    assert_eq!(details.len(), 1);
    assert_eq!(details.get("timestamp").unwrap().as_str().unwrap(), r.timestamp);
}

#[test]
fn injected_timestamp_is_close_to_now() {
    let before = chrono::Utc::now();
    let records = prepare_batch_now(vec![entry("error", "x", "{}")]);
    let after = chrono::Utc::now();
    let stamp = chrono::DateTime::parse_from_rfc3339(&records[0].timestamp).unwrap();
    assert!(stamp >= before && stamp <= after);
}

#[test]
fn info_entry_is_dropped() {
    let records = prepare_batch_now(vec![entry("info", "heartbeat", "{}")]);
    assert!(records.is_empty());
}

#[test]
fn provided_timestamp_is_kept_verbatim() {
    let records = prepare_batch_now(vec![entry(
        "error",
        "x",
        r#"{"timestamp":"2024-01-01T00:00:00Z"}"#,
    )]);
    assert_eq!(records.len(), 1);
    assert_eq!(records[0].timestamp, "2024-01-01T00:00:00Z");
    assert_eq!(records[0].details, r#"{"timestamp":"2024-01-01T00:00:00Z"}"#);
}

#[test]
fn only_error_level_passes_the_filter() {
    let batch = vec![
        entry("ERROR", "upper", "{}"),
        entry("warn", "w", "{}"),
        entry("error", "kept", "{}"),
        entry("error ", "trailing space", "{}"),
        entry("", "empty", "{}"),
    ];
    let records = prepare_batch(batch, "2025-06-01T12:00:00+00:00".to_string());
    assert_eq!(records.len(), 1);
    assert_eq!(records[0].message, "kept");
    assert!(records.iter().all(|r| r.level == "error"));
}

#[test]
fn missing_timestamp_takes_the_given_time() {
    let now = "2025-06-01T12:00:00.5+00:00".to_string();
    let records = prepare_batch(vec![entry("error", "m", r#"{"host":"a"}"#)], now.clone());
    assert_eq!(records[0].timestamp, now);
    assert_eq!(
        records[0].details,
        r#"{"host":"a","timestamp":"2025-06-01T12:00:00.5+00:00"}"#
    );
}

#[test]
fn details_round_trip_every_extra_field() {
    let extra = r#"{"host":"db-1","code":7,"ratio":0.5,"ok":false,"none":null,"nested":{"k":[1,2,"three"]}}"#;
    let given: Value = serde_json::from_str(extra).unwrap();
    let records = prepare_batch(vec![entry("error", "m", extra)], "T".to_string());
    let details = details_object(&records[0]);
    let given = given.as_object().unwrap();
    assert_eq!(details.len(), given.len() + 1);
    for (k, v) in given {
        assert_eq!(details.get(k), Some(v));
    }
    assert_eq!(details.get("timestamp"), Some(&Value::String("T".to_string())));
}

#[test]
fn records_keep_the_order_of_the_batch() {
    let batch = vec![
        entry("error", "A", "{}"),
        entry("info", "skip", "{}"),
        entry("error", "B", "{}"),
        entry("error", "C", "{}"),
    ];
    let records = prepare_batch(batch, "now".to_string());
    let messages: Vec<&str> = records.iter().map(|r| r.message.as_str()).collect();
    assert_eq!(messages, vec!["A", "B", "C"]);
}

#[test]
fn empty_batch_gives_no_records() {
    assert!(prepare_batch(Vec::new(), "now".to_string()).is_empty());
}

#[test]
fn non_string_timestamp_is_kept_and_read_as_empty() {
    let records = prepare_batch(vec![entry("error", "m", r#"{"timestamp":12}"#)], "now".to_string());
    assert_eq!(records[0].timestamp, "");
    assert_eq!(records[0].details, r#"{"timestamp":12}"#);
}

#[test]
fn extra_that_is_no_object_is_left_alone() {
    let e = LogEntry::new("error".to_string(), "m".to_string(), Value::Null);
    let r = make_record(e, "now".to_string());
    assert_eq!(r.timestamp, "");
    assert_eq!(r.details, "null");
}

#[test]
fn level_match_is_exact() {
    assert!(is_error_level(&"error".to_string()));
    assert!(!is_error_level(&"Error".to_string()));
    assert!(!is_error_level(&"err".to_string()));
    assert!(!is_error_level(&"errors".to_string()));
}

#[test]
fn stamp_extra_adds_a_missing_timestamp_only() {
    let added = stamp_extra(serde_json::from_str(r#"{"a":1}"#).unwrap(), "t1".to_string());
    assert_eq!(added.get("timestamp").and_then(|v| v.as_str()), Some("t1"));
    assert_eq!(added.get("a").and_then(|v| v.as_i64()), Some(1));
    let kept = stamp_extra(
        serde_json::from_str(r#"{"timestamp":"t0"}"#).unwrap(),
        "t1".to_string(),
    );
    assert_eq!(kept.get("timestamp").and_then(|v| v.as_str()), Some("t0"));
    let text = stamp_extra(Value::String("s".to_string()), "t1".to_string());
    assert_eq!(text, Value::String("s".to_string()));
}

#[test]
fn timestamp_of_reads_the_string_member() {
    let v: Value = serde_json::from_str(r#"{"timestamp":"abc","x":1}"#).unwrap();
    assert_eq!(timestamp_of(&v), "abc");
    let v: Value = serde_json::from_str(r#"{"x":1}"#).unwrap();
    assert_eq!(timestamp_of(&v), "");
    let v: Value = serde_json::from_str(r#"[1,2]"#).unwrap();
    assert_eq!(timestamp_of(&v), "");
}

#[test]
fn details_of_writes_compact_json() {
    let v: Value = serde_json::from_str(r#"{ "b" : [1, 2], "a" : "x" }"#).unwrap();
    assert_eq!(details_of(&v), r#"{"a":"x","b":[1,2]}"#);
}
