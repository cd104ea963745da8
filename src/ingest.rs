//! Filtering and enrichment of incoming log entries.
use vstd::prelude::*;

use crate::clock::now_rfc3339;
use crate::entry::{LogEntry, QueuedRecord};
use crate::json::{
    entries, has_member, insert_member, into_object, json_text, member, members, object_value,
    string_value, text_of, to_json_text,
};

verus! {

/// The one level that is kept.
pub open spec fn error_level() -> Seq<char> {
    seq!['e', 'r', 'r', 'o', 'r']
}

/// The key of the timestamp member among an entry's extra fields.
pub open spec fn timestamp_key() -> Seq<char> {
    seq!['t', 'i', 'm', 'e', 's', 't', 'a', 'm', 'p']
}

/// `after` is `before` with its timestamp resolved against `now`: an object
/// that lacks a timestamp member gains one, a string holding `now`, and keeps
/// every other member; any other value is kept as it is.
pub open spec fn stamped(before: serde_json::Value, after: serde_json::Value, now: Seq<char>) -> bool {
    match members(before) {
        Some(f) => if f.contains_key(timestamp_key()) {
            after == before
        } else {
            match members(after) {
                Some(g) => {
                    &&& g.contains_key(timestamp_key())
                    &&& text_of(g[timestamp_key()]) == Some(now)
                    &&& g == f.insert(timestamp_key(), g[timestamp_key()])
                },
                None => false,
            }
        },
        None => after == before,
    }
}

/// The timestamp that a record takes from its resolved extra fields: the text
/// of the timestamp member, or empty where there is none or it is no string.
pub open spec fn timestamp_in(extra: serde_json::Value) -> Seq<char> {
    match members(extra) {
        Some(g) => if g.contains_key(timestamp_key()) {
            match text_of(g[timestamp_key()]) {
                Some(t) => t,
                None => Seq::empty(),
            }
        } else {
            Seq::empty()
        },
        None => Seq::empty(),
    }
}

/// The details of a record: the JSON text of its resolved extra fields, or
/// empty where serialization reports an error.
pub open spec fn details_in(extra: serde_json::Value) -> Seq<char> {
    match json_text(extra) {
        Some(t) => t,
        None => Seq::empty(),
    }
}

/// `r` is built from `e` whose extra fields were resolved to `extra`.
pub open spec fn record_from(r: QueuedRecord, e: LogEntry, extra: serde_json::Value) -> bool {
    &&& r.level@ == e.level@
    &&& r.message@ == e.message@
    &&& r.timestamp@ == timestamp_in(extra)
    &&& r.details@ == details_in(extra)
}

/// `r` is the record of entry `e` when the current time reads `now`.
pub open spec fn is_record_of(r: QueuedRecord, e: LogEntry, now: Seq<char>) -> bool {
    exists|x: serde_json::Value| #[trigger] stamped(e.extra, x, now) && record_from(r, e, x)
}

/// The entries of a batch that are kept, in the order in which they came.
pub open spec fn accepted(batch: Seq<LogEntry>) -> Seq<LogEntry>
    decreases batch.len(),
{
    if batch.len() == 0 {
        Seq::empty()
    } else {
        let kept = accepted(batch.drop_last());
        if batch.last().level@ == error_level() {
            kept.push(batch.last())
        } else {
            kept
        }
    }
}

/// `records` is what a batch becomes when the current time reads `now`: one
/// record for each accepted entry, in the same order.
pub open spec fn prepared(batch: Seq<LogEntry>, records: Seq<QueuedRecord>, now: Seq<char>) -> bool {
    &&& records.len() == accepted(batch).len()
    &&& forall|i: int| 0 <= i < records.len() ==> is_record_of(#[trigger] records[i], accepted(batch)[i], now)
}

/// Whether an entry of this level is accepted (an exact, case-sensitive match).
pub fn is_error_level(level: &String) -> (r: bool)
    ensures
        r == (level@ == error_level()),
{
    let error = String::from_str("error");
    proof {
        reveal_strlit("error");
    }
    assert(error@ =~= error_level());
    *level == error
}

/// Adds the current time, `now`, as the timestamp member of an object that lacks one.
pub fn stamp_extra(extra: serde_json::Value, now: String) -> (r: serde_json::Value)
    ensures
        stamped(extra, r, now@),
{
    proof {
        reveal_strlit("timestamp");
    }
    assert("timestamp"@ =~= timestamp_key());
    let lacks_timestamp = match extra.as_object() {
        Some(m) => !has_member(m, "timestamp"),
        None => false,
    };
    if lacks_timestamp {
        match into_object(extra) {
            Ok(m) => {
                let mut m = m;
                let stamp = string_value(now);
                insert_member(&mut m, String::from_str("timestamp"), stamp);
                let r = object_value(m);
                assert(entries(m)[timestamp_key()] == stamp);
                r
            },
            Err(v) => v,
        }
    } else {
        extra
    }
}

/// The timestamp that a record takes from its resolved extra fields.
pub fn timestamp_of(extra: &serde_json::Value) -> (r: String)
    ensures
        r@ == timestamp_in(*extra),
{
    proof {
        reveal_strlit("timestamp");
    }
    assert("timestamp"@ =~= timestamp_key());
    match extra.as_object() {
        Some(m) => match member(m, "timestamp") {
            Some(v) => match v.as_str() {
                Some(t) => String::from_str(t),
                None => String::new(),
            },
            None => String::new(),
        },
        None => String::new(),
    }
}

/// The details column of a record: its resolved extra fields as JSON text,
/// or empty where serialization fails.
pub fn details_of(extra: &serde_json::Value) -> (r: String)
    ensures
        r@ == details_in(*extra),
{
    match to_json_text(extra) {
        Ok(s) => s,
        Err(_) => String::new(),
    }
}

/// Builds the record of an accepted entry, resolving its timestamp against `now`.
pub fn make_record(entry: LogEntry, now: String) -> (r: QueuedRecord)
    ensures
        is_record_of(r, entry, now@),
{
    let ghost e = entry;
    let LogEntry { level, message, extra } = entry;
    let extra = stamp_extra(extra, now);
    let timestamp = timestamp_of(&extra);
    let details = details_of(&extra);
    let r = QueuedRecord { level, message, timestamp, details };
    assert(stamped(e.extra, extra, now@) && record_from(r, e, extra));
    r
}

/// Turns a batch into the records to be queued: entries of any level but
/// the error level are dropped, the others are stamped against `now`.
pub fn prepare_batch(batch: Vec<LogEntry>, now: String) -> (r: Vec<QueuedRecord>)
    ensures
        prepared(batch@, r@, now@),
{
    let ghost all = batch@;
    let mut records: Vec<QueuedRecord> = Vec::new();
    for entry in it: batch.into_iter()
        invariant
            it.seq() == all,
            prepared(all.take(it.index()), records@, now@),
    {
        let ghost i = it.index();
        assert(all.take(i + 1).drop_last() =~= all.take(i));
        assert(all.take(i + 1).last() == entry);
        if is_error_level(&entry.level) {
            let record = make_record(entry, now.clone());
            records.push(record);
        }
        assert(prepared(all.take(i + 1), records@, now@));
    }
    assert(all.take(all.len() as int) =~= all);
    records
}

/// Turns a batch into the records to be queued, stamping entries that lack a
/// timestamp with the current UTC time.
pub fn prepare_batch_now(batch: Vec<LogEntry>) -> (r: Vec<QueuedRecord>)
    ensures
        exists|now: Seq<char>| now.len() > 0 && #[trigger] prepared(batch@, r@, now),
{
    let now = now_rfc3339();
    let r = prepare_batch(batch, now);
    assert(now@.len() > 0 && prepared(batch@, r@, now@));
    r
}

} // verus!
