use log_ingest::entry::QueuedRecord;
use log_ingest::worker::{bind_values, next_action, WorkerAction, CREATE_TABLE_SQL, INSERT_SQL};

fn record(message: &str) -> QueuedRecord {
    QueuedRecord {
        level: "error".to_string(),
        message: message.to_string(),
        timestamp: "2024-01-01T00:00:00Z".to_string(),
        details: r#"{"timestamp":"2024-01-01T00:00:00Z"}"#.to_string(),
    }
}

#[test]
fn received_record_is_inserted() {
    match next_action(Some(record("disk full"))) {
        WorkerAction::Insert(r) => assert_eq!(r.message, "disk full"),
        WorkerAction::Stop => panic!("expected an insert"),
    }
}

#[test]
fn end_of_stream_stops_the_writer() {
    assert!(matches!(next_action(None), WorkerAction::Stop));
}

#[test]
fn bind_values_follow_the_column_order() {
    let values = bind_values(record("m"));
    assert_eq!(
        values,
        vec![
            "error".to_string(),
            "m".to_string(),
            "2024-01-01T00:00:00Z".to_string(),
            r#"{"timestamp":"2024-01-01T00:00:00Z"}"#.to_string(),
        ]
    );
    assert_eq!(INSERT_SQL.matches('?').count(), 4);
    assert!(CREATE_TABLE_SQL.starts_with("CREATE TABLE IF NOT EXISTS logs"));
}

#[test]
fn full_queue_holds_back_a_new_record_without_dropping_it() {
    let (tx, mut rx) = tokio::sync::mpsc::channel::<QueuedRecord>(2);
    tx.try_send(record("A")).unwrap();
    tx.try_send(record("B")).unwrap();
    match tx.try_send(record("C")) {
        Err(tokio::sync::mpsc::error::TrySendError::Full(r)) => assert_eq!(r.message, "C"),
        _ => panic!("a full queue must refuse without taking the record"),
    }
    assert_eq!(rx.try_recv().unwrap().message, "A");
    tx.try_send(record("C")).unwrap();
    assert_eq!(rx.try_recv().unwrap().message, "B");
    assert_eq!(rx.try_recv().unwrap().message, "C");
    drop(tx);
    assert!(matches!(
        rx.try_recv(),
        Err(tokio::sync::mpsc::error::TryRecvError::Disconnected)
    ));
}
