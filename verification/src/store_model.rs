//! The run's intended effect on the store, as a mathematical model, and
//! the law that makes repeated runs idempotent.
//!
//! The store keeps at most one row per id, and an insert replaces the row
//! sharing its id. A run applies its records in file order: each accepted
//! record upserts its row, each rejected one leaves the store untouched.
//! On that model the replay law is proved below: applying the same
//! sequence of records a second time leaves the store exactly as the
//! first application left it.

use vstd::prelude::*;

use crate::record::{normalized_tag_of, record_accepted, rfc3339_epoch_of, Record};
use crate::value_bits::spec_is_positive;

verus! {

/// One persisted row, as the model keeps it: everything the store holds of
/// a record except its id, which is the row's key.
pub struct StoredRow {
    /// Unix epoch seconds parsed from the record's timestamp.
    pub timestamp: i64,
    /// The bit pattern of the record's value.
    pub value_bits: u64,
    /// The record's normalized tag.
    pub tag: Seq<char>,
    /// Whether the record's value is strictly greater than zero.
    pub positive: bool,
}

/// The row an accepted record persists.
pub open spec fn stored_row_of(r: Record) -> StoredRow {
    StoredRow {
        timestamp: rfc3339_epoch_of(r.timestamp@)->0,
        value_bits: r.value_bits,
        tag: normalized_tag_of(r),
        positive: spec_is_positive(r.value_bits),
    }
}

/// One record's effect on the store: an accepted record replaces the row
/// keyed by its id; a rejected one changes nothing.
pub open spec fn apply_record(store: Map<Seq<char>, StoredRow>, r: Record) -> Map<
    Seq<char>,
    StoredRow,
> {
    if record_accepted(r) {
        store.insert(r.id@, stored_row_of(r))
    } else {
        store
    }
}

/// A whole run's effect on the store: its records applied in file order.
pub open spec fn store_after(store: Map<Seq<char>, StoredRow>, items: Seq<Record>) -> Map<
    Seq<char>,
    StoredRow,
>
    decreases items.len(),
{
    if items.len() == 0 {
        store
    } else {
        store_after(apply_record(store, items[0]), items.drop_first())
    }
}

/// The row the run's last accepted record with this id persists, if the
/// run has one.
pub open spec fn last_written(items: Seq<Record>, key: Seq<char>) -> Option<StoredRow>
    decreases items.len(),
{
    if items.len() == 0 {
        None
    } else {
        let rest = last_written(items.drop_first(), key);
        if rest is Some {
            rest
        } else if record_accepted(items[0]) && items[0].id@ == key {
            Some(stored_row_of(items[0]))
        } else {
            None
        }
    }
}

/// A record that fails validation is never persisted: it leaves the
/// store exactly as it was.
pub proof fn lemma_rejected_never_persisted(store: Map<Seq<char>, StoredRow>, r: Record)
    requires
        !record_accepted(r),
    ensures
        apply_record(store, r) == store,
{
}

/// What a run leaves at each key: the run's last accepted row for that
/// key, or whatever was there before where the run wrote none.
pub proof fn lemma_store_after_at_key(
    store: Map<Seq<char>, StoredRow>,
    items: Seq<Record>,
    key: Seq<char>,
)
    ensures
        store_after(store, items).contains_key(key) <==> (store.contains_key(key) || last_written(
            items,
            key,
        ) is Some),
        last_written(items, key) matches Some(row) ==> store_after(store, items)[key] == row,
        last_written(items, key) is None && store.contains_key(key) ==> store_after(
            store,
            items,
        )[key] == store[key],
    decreases items.len(),
{
    if items.len() > 0 {
        lemma_store_after_at_key(apply_record(store, items[0]), items.drop_first(), key);
    }
}

/// Running the pipeline twice over the same input against the same store
/// leaves the same rows as running it once: each id keeps the last row the
/// input wrote for it, and a second pass writes the very same rows again.
pub proof fn lemma_rerun_idempotent(store: Map<Seq<char>, StoredRow>, items: Seq<Record>)
    ensures
        store_after(store_after(store, items), items) == store_after(store, items),
{
    let once = store_after(store, items);
    let twice = store_after(once, items);
    assert forall|key: Seq<char>| #![all_triggers] true implies {
        &&& (twice.contains_key(key) <==> once.contains_key(key))
        &&& (twice.contains_key(key) ==> twice[key] == once[key])
    } by {
        lemma_store_after_at_key(store, items, key);
        lemma_store_after_at_key(once, items, key);
    }
    assert(twice =~= once);
}

} // verus!
