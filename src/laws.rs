//! What holds of every batch that `prepare_batch` turns into records.
use vstd::prelude::*;

use crate::entry::{LogEntry, QueuedRecord};
use crate::ingest::{
    accepted, details_in, error_level, is_record_of, prepared, record_from, stamped, timestamp_key,
};
use crate::json::{members, text_of};

verus! {

/// The timestamp that an accepted entry is stored with: the one it brings, as
/// a string; the current time where it brings none; empty where its extra
/// fields are no object or their timestamp is no string.
pub open spec fn expected_timestamp(extra: serde_json::Value, now: Seq<char>) -> Seq<char> {
    match members(extra) {
        Some(f) => if f.contains_key(timestamp_key()) {
            match text_of(f[timestamp_key()]) {
                Some(t) => t,
                None => Seq::empty(),
            }
        } else {
            now
        },
        None => Seq::empty(),
    }
}

/// The details of `r` are the JSON text of an object that holds every extra
/// field of `e` unchanged, and beside them only the timestamp.
pub open spec fn keeps_fields(r: QueuedRecord, e: LogEntry) -> bool {
    members(e.extra) is Some ==> exists|x: serde_json::Value|
        #![trigger details_in(x)]
        {
            &&& r.details@ == details_in(x)
            &&& members(x) is Some
            &&& members(e.extra)->0.submap_of(members(x)->0)
            &&& members(x)->0.dom() == members(e.extra)->0.dom().insert(timestamp_key())
        }
}

proof fn lemma_accepted_levels(batch: Seq<LogEntry>)
    ensures
        forall|k: int|
            0 <= k < accepted(batch).len() ==> (#[trigger] accepted(batch)[k]).level@ == error_level(),
    decreases batch.len(),
{
    if batch.len() > 0 {
        let p = batch.drop_last();
        lemma_accepted_levels(p);
        assert forall|k: int| 0 <= k < accepted(batch).len() implies (#[trigger] accepted(
            batch,
        )[k]).level@ == error_level() by {
            if k < accepted(p).len() {
                assert(accepted(p)[k].level@ == error_level());
            }
        }
    }
}

proof fn lemma_accepted_from(batch: Seq<LogEntry>, i: int)
    requires
        0 <= i < accepted(batch).len(),
    ensures
        exists|a: int| 0 <= a < batch.len() && accepted(batch)[i] == #[trigger] batch[a],
    decreases batch.len(),
{
    let p = batch.drop_last();
    if i < accepted(p).len() {
        lemma_accepted_from(p, i);
        let a = choose|a: int| 0 <= a < p.len() && accepted(p)[i] == #[trigger] p[a];
        assert(batch[a] == p[a]);
    } else {
        assert(batch[batch.len() - 1] == batch.last());
    }
}

proof fn lemma_accepted_in_order(batch: Seq<LogEntry>, i: int, j: int)
    requires
        0 <= i < j < accepted(batch).len(),
    ensures
        exists|a: int, b: int|
            #![trigger batch[a], batch[b]]
            0 <= a < b < batch.len() && accepted(batch)[i] == batch[a] && accepted(batch)[j]
                == batch[b],
    decreases batch.len(),
{
    let p = batch.drop_last();
    if j < accepted(p).len() {
        lemma_accepted_in_order(p, i, j);
        let (a, b) = choose|a: int, b: int|
            #![trigger p[a], p[b]]
            0 <= a < b < p.len() && accepted(p)[i] == p[a] && accepted(p)[j] == p[b];
        assert(batch[a] == p[a] && batch[b] == p[b]);
    } else {
        lemma_accepted_from(p, i);
        let a = choose|a: int| 0 <= a < p.len() && accepted(p)[i] == #[trigger] p[a];
        assert(batch[a] == p[a]);
        assert(batch[batch.len() - 1] == batch.last());
    }
}

/// Only error entries are queued: every record of a batch carries the error
/// level, so no entry of another level reaches the store.
pub proof fn only_errors_queued(batch: Seq<LogEntry>, records: Seq<QueuedRecord>, now: Seq<char>)
    requires
        prepared(batch, records, now),
    ensures
        forall|i: int| 0 <= i < records.len() ==> (#[trigger] records[i]).level@ == error_level(),
{
    lemma_accepted_levels(batch);
    assert forall|i: int| 0 <= i < records.len() implies (#[trigger] records[i]).level@
        == error_level() by {
        let e = accepted(batch)[i];
        assert(is_record_of(records[i], e, now));
        let x = choose|x: serde_json::Value| #[trigger]
            stamped(e.extra, x, now) && record_from(records[i], e, x);
    }
}

/// Each record carries the timestamp its entry brought, verbatim, or the
/// current time where the entry brought none.
pub proof fn timestamps_resolved(batch: Seq<LogEntry>, records: Seq<QueuedRecord>, now: Seq<char>)
    requires
        prepared(batch, records, now),
    ensures
        forall|i: int|
            0 <= i < records.len() ==> (#[trigger] records[i]).timestamp@ == expected_timestamp(
                accepted(batch)[i].extra,
                now,
            ),
{
    assert forall|i: int| 0 <= i < records.len() implies (#[trigger] records[i]).timestamp@
        == expected_timestamp(accepted(batch)[i].extra, now) by {
        let e = accepted(batch)[i];
        assert(is_record_of(records[i], e, now));
        let x = choose|x: serde_json::Value| #[trigger]
            stamped(e.extra, x, now) && record_from(records[i], e, x);
        if let Some(f) = members(e.extra) {
            if !f.contains_key(timestamp_key()) {
                let g = members(x)->0;
                assert(g.contains_key(timestamp_key()));
            }
        }
    }
}

/// No extra field is lost: the details of each record are the JSON text of
/// its entry's extra fields, with the resolved timestamp added where missing.
pub proof fn details_keep_fields(batch: Seq<LogEntry>, records: Seq<QueuedRecord>, now: Seq<char>)
    requires
        prepared(batch, records, now),
    ensures
        forall|i: int|
            0 <= i < records.len() ==> keeps_fields(#[trigger] records[i], accepted(batch)[i]),
{
    assert forall|i: int| 0 <= i < records.len() implies keeps_fields(
        #[trigger] records[i],
        accepted(batch)[i],
    ) by {
        let e = accepted(batch)[i];
        assert(is_record_of(records[i], e, now));
        let x = choose|x: serde_json::Value| #[trigger]
            stamped(e.extra, x, now) && record_from(records[i], e, x);
        if let Some(f) = members(e.extra) {
            let g = members(x)->0;
            assert(g.dom() =~= f.dom().insert(timestamp_key()));
            assert(records[i].details@ == details_in(x));
        }
    }
}

/// Records come out in the order of their entries: of two records, the
/// earlier one is built from an earlier entry of the batch.
pub proof fn order_kept(
    batch: Seq<LogEntry>,
    records: Seq<QueuedRecord>,
    now: Seq<char>,
    i: int,
    j: int,
)
    requires
        prepared(batch, records, now),
        0 <= i < j < records.len(),
    ensures
        exists|a: int, b: int|
            #![trigger batch[a], batch[b]]
            0 <= a < b < batch.len() && is_record_of(records[i], batch[a], now) && is_record_of(
                records[j],
                batch[b],
                now,
            ),
{
    lemma_accepted_in_order(batch, i, j);
    let (a, b) = choose|a: int, b: int|
        #![trigger batch[a], batch[b]]
        0 <= a < b < batch.len() && accepted(batch)[i] == batch[a] && accepted(batch)[j] == batch[b];
    assert(is_record_of(records[i], batch[a], now));
    assert(is_record_of(records[j], batch[b], now));
}

} // verus!
