//! The decisions of the background writer that drains the queue into the store.
use vstd::prelude::*;

use crate::entry::QueuedRecord;

verus! {

/// Creates the log table where it does not exist yet.
pub const CREATE_TABLE_SQL: &'static str =
    "CREATE TABLE IF NOT EXISTS logs (id INTEGER PRIMARY KEY AUTOINCREMENT, level TEXT NOT NULL, message TEXT NOT NULL, timestamp TEXT NOT NULL, details TEXT)";

/// Appends one row; its four parameters are bound in the order of `bind_values`.
pub const INSERT_SQL: &'static str = "INSERT INTO logs (level, message, timestamp, details) VALUES (?, ?, ?, ?)";

/// What the writer does next.
#[derive(Debug)]
pub enum WorkerAction {
    /// Write this record as a new row, then wait for the next one.
    Insert(QueuedRecord),
    /// The queue is closed and drained: finish.
    Stop,
}

/// The writer's step: a record that came out of the queue is written, and the
/// end of the stream ends the writer.
pub fn next_action(received: Option<QueuedRecord>) -> (r: WorkerAction)
    ensures
        match received {
            Some(record) => r == WorkerAction::Insert(record),
            None => r == WorkerAction::Stop,
        },
{
    match received {
        Some(record) => WorkerAction::Insert(record),
        None => WorkerAction::Stop,
    }
}

/// The values bound to the insert statement's parameters, in their order:
/// level, message, timestamp, details.
pub fn bind_values(record: QueuedRecord) -> (r: Vec<String>)
    ensures
        r@.len() == 4,
        r@[0]@ == record.level@,
        r@[1]@ == record.message@,
        r@[2]@ == record.timestamp@,
        r@[3]@ == record.details@,
{
    let QueuedRecord { level, message, timestamp, details } = record;
    let mut r: Vec<String> = Vec::new();
    r.push(level);
    r.push(message);
    r.push(timestamp);
    r.push(details);
    r
}

} // verus!
