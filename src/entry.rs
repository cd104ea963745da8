//! The values that flow from a request to the store.
use vstd::prelude::*;

verus! {

/// A log entry as a client sends it: its level, its message, and every other
/// field of the entry, kept as a JSON document so that none is lost.
#[derive(Debug)]
pub struct LogEntry {
    pub level: String,
    pub message: String,
    pub extra: serde_json::Value,
}

impl LogEntry {
    pub fn new(level: String, message: String, extra: serde_json::Value) -> (r: LogEntry)
        ensures
            r.level == level,
            r.message == message,
            r.extra == extra,
    {
        LogEntry { level, message, extra }
    }
}

/// An accepted entry, ready to be written: the resolved timestamp and the
/// serialized extra fields sit beside the level and the message.
#[derive(Debug)]
pub struct QueuedRecord {
    pub level: String,
    pub message: String,
    pub timestamp: String,
    pub details: String,
}

} // verus!
