//! The in-memory reference store: a map from sample index to record, with
//! the four operations every backing store offers.
//!
//! A write stores or replaces; a read and a delete of a key under which
//! nothing is stored fail. What one operation has done is visible to every
//! operation after it.

use std::collections::HashMap;
use vstd::prelude::*;
use crate::operation::{BenchmarkOperation, ClientError};
use crate::record::{Record, RecordView};

verus! {

/// What the store holds: the record of each key.
pub type StoreView = Map<i32, RecordView>;

/// The result of looking `key` up in `store`.
pub open spec fn lookup(store: StoreView, key: i32) -> Result<(), ClientError> {
    if store.contains_key(key) {
        Ok(())
    } else {
        Err(ClientError::KeyNotFound(key))
    }
}

/// The store after `operation` on `key`, with `record` as the payload of a
/// write.
pub open spec fn store_after(
    store: StoreView,
    operation: BenchmarkOperation,
    key: i32,
    record: RecordView,
) -> StoreView {
    match operation {
        BenchmarkOperation::Write => store.insert(key, record),
        BenchmarkOperation::Read => store,
        BenchmarkOperation::Delete => store.remove(key),
    }
}

/// The result of `operation` on `key`: a write always succeeds, a read and
/// a delete succeed exactly when the key is stored.
pub open spec fn result_of(store: StoreView, operation: BenchmarkOperation, key: i32) -> Result<
    (),
    ClientError,
> {
    match operation {
        BenchmarkOperation::Write => Ok(()),
        BenchmarkOperation::Read => lookup(store, key),
        BenchmarkOperation::Delete => lookup(store, key),
    }
}

/// The in-memory store.
pub struct DryDatabase {
    records: HashMap<i32, Record>,
}

impl View for DryDatabase {
    type V = StoreView;

    closed spec fn view(&self) -> StoreView {
        self.records@.map_values(|record: Record| record@)
    }
}

impl DryDatabase {
    /// An empty store.
    pub fn new() -> (store: Self)
        ensures
            store@ == StoreView::empty(),
    {
        let store = DryDatabase { records: HashMap::new() };
        proof {
            assert(store@ =~= StoreView::empty());
        }
        store
    }

    /// Prepares the store. There is nothing to set up: the store stays as
    /// it is, however often it is prepared.
    pub fn prepare(&mut self) -> (result: Result<(), ClientError>)
        ensures
            result == Ok::<(), ClientError>(()),
            final(self)@ == old(self)@,
    {
        Ok(())
    }

    /// Stores a copy of `record` under `key`, in place of what was there.
    pub fn write(&mut self, key: i32, record: &Record) -> (result: Result<(), ClientError>)
        ensures
            result == Ok::<(), ClientError>(()),
            final(self)@ == old(self)@.insert(key, record@),
    {
        let copy = record.clone();
        let _ = self.records.insert(key, copy);
        proof {
            assert(self@ =~= old(self)@.insert(key, record@));
        }
        Ok(())
    }

    /// Looks `key` up. Fails if nothing is stored under it.
    pub fn read(&self, key: i32) -> (result: Result<(), ClientError>)
        ensures
            result == lookup(self@, key),
    {
        if self.records.contains_key(&key) {
            Ok(())
        } else {
            Err(ClientError::KeyNotFound(key))
        }
    }

    /// Removes what is stored under `key`. Fails, and changes nothing, if
    /// nothing is stored under it.
    pub fn delete(&mut self, key: i32) -> (result: Result<(), ClientError>)
        ensures
            result == lookup(old(self)@, key),
            final(self)@ == old(self)@.remove(key),
    {
        let removed = self.records.remove(&key);
        proof {
            assert(self@ =~= old(self)@.remove(key));
        }
        match removed {
            Some(_) => Ok(()),
            None => Err(ClientError::KeyNotFound(key)),
        }
    }

    /// Performs `operation` on `key`; a write stores a copy of `record`.
    pub fn apply(&mut self, operation: BenchmarkOperation, key: i32, record: &Record) -> (result:
        Result<(), ClientError>)
        ensures
            result == result_of(old(self)@, operation, key),
            final(self)@ == store_after(old(self)@, operation, key, record@),
    {
        match operation {
            BenchmarkOperation::Write => self.write(key, record),
            BenchmarkOperation::Read => self.read(key),
            BenchmarkOperation::Delete => self.delete(key),
        }
    }

    /// The record stored under `key`, if there is one.
    pub fn get(&self, key: i32) -> (record: Option<&Record>)
        ensures
            record.is_some() == self@.contains_key(key),
            record matches Some(found) ==> found@ == self@[key],
    {
        self.records.get(&key)
    }

    /// Whether something is stored under `key`.
    pub fn contains(&self, key: i32) -> (found: bool)
        ensures
            found == self@.contains_key(key),
    {
        self.records.contains_key(&key)
    }

    /// The number of records in the store.
    pub fn len(&self) -> (count: usize)
        ensures
            count == self@.len(),
            self@.dom().finite(),
    {
        proof {
            assert(self@.dom() =~= self.records@.dom());
        }
        self.records.len()
    }

    /// Whether the store holds no record.
    pub fn is_empty(&self) -> (empty: bool)
        ensures
            empty == (self@.len() == 0),
            self@.dom().finite(),
    {
        self.len() == 0
    }
}

impl Default for DryDatabase {
    /// An empty store.
    fn default() -> (store: Self)
        ensures
            store@ == StoreView::empty(),
    {
        DryDatabase::new()
    }
}

/// Round trip of one key. After a write the key is found, by a read and
/// by a delete, and holds what was written; after the delete it is gone,
/// so that a second delete of it fails, and so does a read.
pub proof fn law_write_read_delete_round_trip(store: StoreView, key: i32, record: RecordView)
    ensures
        ({
            let written = store_after(store, BenchmarkOperation::Write, key, record);
            let read = store_after(written, BenchmarkOperation::Read, key, record);
            let deleted = store_after(read, BenchmarkOperation::Delete, key, record);
            &&& written[key] == record
            &&& result_of(written, BenchmarkOperation::Read, key) is Ok
            &&& read == written
            &&& result_of(read, BenchmarkOperation::Delete, key) is Ok
            &&& !deleted.contains_key(key)
            &&& result_of(deleted, BenchmarkOperation::Delete, key) == Err::<(), ClientError>(
                ClientError::KeyNotFound(key),
            )
            &&& result_of(deleted, BenchmarkOperation::Read, key) == Err::<(), ClientError>(
                ClientError::KeyNotFound(key),
            )
        }),
{
}

/// An operation on one key leaves every other key as it was.
pub proof fn law_operations_touch_one_key(
    store: StoreView,
    operation: BenchmarkOperation,
    key: i32,
    record: RecordView,
    other: i32,
)
    requires
        other != key,
    ensures
        store_after(store, operation, key, record).contains_key(other) == store.contains_key(other),
        store.contains_key(other) ==> store_after(store, operation, key, record)[other]
            == store[other],
{
}

} // verus!
