//! What the three phases do to the reference store: the write phase fills
//! it with one record per sample, the read phase finds every one of them,
//! the delete phase leaves it empty, and whatever is read or deleted after
//! that fails.
//!
//! A completed phase services every sample index exactly once, in some
//! order. The laws here hold for every such order.

use vstd::prelude::*;
use vstd::seq_lib::lemma_seq_contains_after_push;
use crate::dry::{lookup, result_of, store_after, StoreView};
use crate::distributor::is_sample;
use crate::operation::{BenchmarkOperation, ClientError};
use crate::phase_laws::law_completed_phase_services_each_sample_once;
use crate::phase_model::{PhaseModel, PhaseStatus};
use crate::record::RecordView;

verus! {

/// Whether `keys` holds every sample index of `0 .. samples` exactly once,
/// and nothing else.
pub open spec fn services_each_sample_once(keys: Seq<i32>, samples: int) -> bool {
    &&& keys.no_duplicates()
    &&& forall|key: i32| keys.contains(key) <==> 0 <= key < samples
}

/// The keys that a phase has serviced, in the order of completion.
pub open spec fn serviced_keys(phase: PhaseModel) -> Seq<i32> {
    phase.serviced.map_values(|key: int| key as i32)
}

/// The keys of a completed phase with at least one worker are the sample
/// indices, each exactly once.
pub proof fn law_completed_phase_keys(phase: PhaseModel)
    requires
        phase.inv(),
        phase.status == PhaseStatus::Completed,
        phase.workers.len() >= 1,
    ensures
        services_each_sample_once(serviced_keys(phase), phase.samples),
        serviced_keys(phase).len() == if phase.samples > 0 {
            phase.samples
        } else {
            0
        },
{
    let keys = serviced_keys(phase);
    law_completed_phase_services_each_sample_once(phase);
    assert forall|i: int| 0 <= i < keys.len() implies is_sample(
        #[trigger] phase.serviced[i],
        phase.samples,
    ) && keys[i] == phase.serviced[i] by {
        assert(phase.serviced.contains(phase.serviced[i]));
    }
    assert forall|key: i32| keys.contains(key) <==> 0 <= key < phase.samples by {
        if keys.contains(key) {
            let i = choose|i: int| 0 <= i < keys.len() && keys[i] == key;
            assert(is_sample(phase.serviced[i], phase.samples));
        }
        if 0 <= key < phase.samples {
            assert(phase.serviced.contains(key as int));
            let i = choose|i: int| 0 <= i < phase.serviced.len() && phase.serviced[i] == key as int;
            assert(keys[i] == key);
        }
    }
    assert forall|i: int, j: int| 0 <= i < keys.len() && 0 <= j < keys.len() && i != j implies keys[i]
        != keys[j] by {
        assert(is_sample(phase.serviced[i], phase.samples));
        assert(is_sample(phase.serviced[j], phase.samples));
    }
}

/// The store after writing `records[i]` under `keys[i]`, for each `i` in
/// order.
pub open spec fn after_writes(store: StoreView, keys: Seq<i32>, records: Seq<RecordView>) -> StoreView
    recommends
        records.len() == keys.len(),
    decreases keys.len(),
{
    if keys.len() == 0 {
        store
    } else {
        store_after(
            after_writes(store, keys.drop_last(), records.drop_last()),
            BenchmarkOperation::Write,
            keys.last(),
            records.last(),
        )
    }
}

/// The store after deleting each of `keys`, in order.
pub open spec fn after_deletes(store: StoreView, keys: Seq<i32>) -> StoreView
    decreases keys.len(),
{
    if keys.len() == 0 {
        store
    } else {
        after_deletes(store, keys.drop_last()).remove(keys.last())
    }
}

/// Whether reading each of `keys` succeeds.
pub open spec fn reads_succeed(store: StoreView, keys: Seq<i32>) -> bool {
    forall|i: int|
        0 <= i < keys.len() ==> result_of(store, BenchmarkOperation::Read, #[trigger] keys[i])
            is Ok
}

/// Whether deleting each of `keys`, in order, succeeds.
pub open spec fn deletes_succeed(store: StoreView, keys: Seq<i32>) -> bool
    decreases keys.len(),
{
    keys.len() == 0 || (deletes_succeed(store, keys.drop_last()) && result_of(
        after_deletes(store, keys.drop_last()),
        BenchmarkOperation::Delete,
        keys.last(),
    ) is Ok)
}

/// A key is among `keys` exactly when it is the last or among the others.
proof fn lemma_contains_last_or_earlier(keys: Seq<i32>, key: i32)
    requires
        keys.len() > 0,
    ensures
        keys.contains(key) <==> keys.last() == key || keys.drop_last().contains(key),
{
    assert(keys =~= keys.drop_last().push(keys.last()));
    lemma_seq_contains_after_push(keys.drop_last(), keys.last(), key);
}

/// After the writes the store holds what it held before and every key
/// written.
pub proof fn lemma_keys_after_writes(store: StoreView, keys: Seq<i32>, records: Seq<RecordView>)
    requires
        records.len() == keys.len(),
    ensures
        forall|key: i32| #[trigger]
            after_writes(store, keys, records).contains_key(key) <==> store.contains_key(key)
                || keys.contains(key),
    decreases keys.len(),
{
    if keys.len() > 0 {
        let earlier = after_writes(store, keys.drop_last(), records.drop_last());
        lemma_keys_after_writes(store, keys.drop_last(), records.drop_last());
        assert(after_writes(store, keys, records) == earlier.insert(keys.last(), records.last()));
        assert forall|key: i32| #[trigger]
            after_writes(store, keys, records).contains_key(key) <==> store.contains_key(key)
                || keys.contains(key) by {
            lemma_contains_last_or_earlier(keys, key);
            assert(earlier.contains_key(key) <==> store.contains_key(key)
                || keys.drop_last().contains(key));
        }
    }
}

/// After the deletes the store holds what it held before, less every key
/// deleted.
pub proof fn lemma_keys_after_deletes(store: StoreView, keys: Seq<i32>)
    ensures
        forall|key: i32| #[trigger]
            after_deletes(store, keys).contains_key(key) <==> store.contains_key(key)
                && !keys.contains(key),
    decreases keys.len(),
{
    if keys.len() > 0 {
        let earlier = after_deletes(store, keys.drop_last());
        lemma_keys_after_deletes(store, keys.drop_last());
        assert(after_deletes(store, keys) == earlier.remove(keys.last()));
        assert forall|key: i32| #[trigger]
            after_deletes(store, keys).contains_key(key) <==> store.contains_key(key)
                && !keys.contains(key) by {
            lemma_contains_last_or_earlier(keys, key);
            assert(earlier.contains_key(key) <==> store.contains_key(key)
                && !keys.drop_last().contains(key));
        }
    }
}

/// Deleting keys that are all stored, each once, succeeds every time.
proof fn lemma_deletes_of_stored_keys_succeed(store: StoreView, keys: Seq<i32>)
    requires
        keys.no_duplicates(),
        forall|i: int| 0 <= i < keys.len() ==> store.contains_key(#[trigger] keys[i]),
    ensures
        deletes_succeed(store, keys),
    decreases keys.len(),
{
    if keys.len() > 0 {
        let earlier = keys.drop_last();
        assert forall|i: int| 0 <= i < earlier.len() implies store.contains_key(
            #[trigger] earlier[i],
        ) by {
            assert(earlier[i] == keys[i]);
        }
        lemma_deletes_of_stored_keys_succeed(store, earlier);
        lemma_keys_after_deletes(store, earlier);
        assert(!earlier.contains(keys.last())) by {
            if earlier.contains(keys.last()) {
                let i = choose|i: int| 0 <= i < earlier.len() && earlier[i] == keys.last();
                assert(keys[i] == keys[keys.len() - 1]);
            }
        }
        assert(store.contains_key(keys[keys.len() - 1]));
    }
}

/// The write phase fills the store. On an empty store, a write phase that
/// services every sample once leaves exactly one record per sample: the
/// keys of the store are the sample indices, and there are as many records
/// as samples.
pub proof fn law_write_phase_fills_the_store(
    keys: Seq<i32>,
    records: Seq<RecordView>,
    samples: int,
)
    requires
        services_each_sample_once(keys, samples),
        records.len() == keys.len(),
    ensures
        ({
            let written = after_writes(StoreView::empty(), keys, records);
            &&& forall|key: i32| written.contains_key(key) <==> 0 <= key < samples
            &&& written.dom().finite()
            &&& written.len() == keys.len()
        }),
{
    let written = after_writes(StoreView::empty(), keys, records);
    lemma_keys_after_writes(StoreView::empty(), keys, records);
    assert(written.dom() =~= keys.to_set());
    keys.unique_seq_to_set();
    vstd::seq_lib::seq_to_set_is_finite(keys);
}

/// The read phase finds every key of the write phase, and changes nothing.
pub proof fn law_read_phase_finds_every_key(store: StoreView, keys: Seq<i32>, samples: int)
    requires
        forall|key: i32| store.contains_key(key) <==> 0 <= key < samples,
        services_each_sample_once(keys, samples),
    ensures
        reads_succeed(store, keys),
        forall|i: int, record: RecordView|
            0 <= i < keys.len() ==> #[trigger] store_after(
                store,
                BenchmarkOperation::Read,
                keys[i],
                record,
            ) == store,
{
    assert forall|i: int| 0 <= i < keys.len() implies result_of(
        store,
        BenchmarkOperation::Read,
        #[trigger] keys[i],
    ) is Ok by {
        assert(keys.contains(keys[i]));
    }
}

/// The delete phase removes every key of the write phase: every delete
/// succeeds and the store is empty afterwards.
pub proof fn law_delete_phase_empties_the_store(store: StoreView, keys: Seq<i32>, samples: int)
    requires
        forall|key: i32| store.contains_key(key) <==> 0 <= key < samples,
        services_each_sample_once(keys, samples),
    ensures
        deletes_succeed(store, keys),
        after_deletes(store, keys) == StoreView::empty(),
{
    assert forall|i: int| 0 <= i < keys.len() implies store.contains_key(#[trigger] keys[i]) by {
        assert(keys.contains(keys[i]));
    }
    lemma_deletes_of_stored_keys_succeed(store, keys);
    lemma_keys_after_deletes(store, keys);
    assert(after_deletes(store, keys) =~= StoreView::empty());
}

/// After the delete phase every read and every delete fails, whatever the
/// key, with an error that names the key.
pub proof fn law_nothing_is_found_in_an_empty_store(key: i32)
    ensures
        result_of(StoreView::empty(), BenchmarkOperation::Read, key) == Err::<(), ClientError>(
            ClientError::KeyNotFound(key),
        ),
        result_of(StoreView::empty(), BenchmarkOperation::Delete, key) == Err::<(), ClientError>(
            ClientError::KeyNotFound(key),
        ),
        lookup(StoreView::empty(), key) is Err,
{
}

/// Deleting one key twice fails the second time, whatever happens to other
/// keys in between.
pub proof fn law_second_delete_fails(store: StoreView, keys: Seq<i32>, first: int, second: int)
    requires
        0 <= first < second < keys.len(),
        keys[first] == keys[second],
    ensures
        result_of(
            after_deletes(store, keys.take(second)),
            BenchmarkOperation::Delete,
            keys[second],
        ) == Err::<(), ClientError>(ClientError::KeyNotFound(keys[second])),
{
    let earlier = keys.take(second);
    lemma_keys_after_deletes(store, earlier);
    assert(earlier[first] == keys[second]);
    assert(earlier.contains(keys[second]));
}

} // verus!
