//! The volatile reference backend: an in-memory store behind the same
//! transaction-returning contract as the durable backend, with the pending
//! write set mechanics present but synchronous — no flush delay, no engine
//! to coordinate with, so every commit and rollback succeeds.
//!
//! Exclusivity is carried by ownership rather than by a lock: opening a
//! write transaction consumes the store, so a second writer — or any reader
//! — cannot exist until commit or rollback hands the store back; read
//! transactions borrow the store shared, so any number may be open at once
//! and none suspends on another.

use vstd::prelude::*;

use crate::StoreError;
use crate::adapter::Buffered;
use crate::adapter::buffered_get;
use crate::adapter::buffered_has;
use crate::kvtable::KvTable;
use crate::kvtable::val_view;

verus! {

/// Committed state as callers see it: keys holding a value map to their
/// payloads; tombstones and absent keys are invisible.
pub open spec fn visible_map(m: Map<Seq<char>, Option<Seq<u8>>>) -> Map<Seq<char>, Seq<u8>> {
    Map::new(|k: Seq<char>| m.contains_key(k) && m[k] is Some, |k: Seq<char>| m[k]->0)
}

/// What a read inside a write transaction returns: the transaction's own
/// pending entry when one exists (a tombstone reads as absent), else the
/// committed state.
pub open spec fn tx_read(
    base: Map<Seq<char>, Seq<u8>>,
    pend: Map<Seq<char>, Option<Seq<u8>>>,
    k: Seq<char>,
) -> Option<Seq<u8>> {
    if pend.contains_key(k) {
        pend[k]
    } else if base.contains_key(k) {
        Some(base[k])
    } else {
        None
    }
}

/// The committed state after a commit: the pending write set laid over the
/// base, values replacing and tombstones deleting.
pub open spec fn store_after(
    base: Map<Seq<char>, Seq<u8>>,
    pend: Map<Seq<char>, Option<Seq<u8>>>,
) -> Map<Seq<char>, Seq<u8>> {
    Map::new(
        |k: Seq<char>| tx_read(base, pend, k) is Some,
        |k: Seq<char>| tx_read(base, pend, k)->0,
    )
}

/// A handle to one logical in-memory key-value database.
pub struct MemStore {
    committed: KvTable,
}

impl View for MemStore {
    type V = Map<Seq<char>, Seq<u8>>;

    closed spec fn view(&self) -> Map<Seq<char>, Seq<u8>> {
        visible_map(self.committed@)
    }
}

/// A read transaction: a shared, isolated view of the committed state.
pub struct MemRead<'a> {
    store: &'a MemStore,
}

impl<'a> View for MemRead<'a> {
    type V = Map<Seq<char>, Seq<u8>>;

    closed spec fn view(&self) -> Map<Seq<char>, Seq<u8>> {
        self.store@
    }
}

/// A write transaction: the store moves in when it opens and moves back out
/// at commit or rollback, so at most one write transaction is ever open and
/// no read overlaps it.
pub struct MemWrite {
    committed: KvTable,
    pending: KvTable,
}

impl MemStore {
    /// Opens the in-memory database of this name. Volatile storage is always
    /// available, so this never fails and is never unavailable.
    pub fn new(_name: &str) -> (r: Result<Option<MemStore>, StoreError>)
        ensures
            r matches Ok(Some(s)) && s@ == Map::<Seq<char>, Seq<u8>>::empty(),
    {
        let s = MemStore { committed: KvTable::new() };
        proof {
            assert(s@ =~= Map::<Seq<char>, Seq<u8>>::empty());
        }
        Ok(Some(s))
    }

    /// Opens a read transaction. Readers borrow the store shared: any number
    /// may be open concurrently and none waits on another.
    pub fn open_read(&self) -> (r: Result<MemRead<'_>, StoreError>)
        ensures
            r matches Ok(t) && t@ == self@,
    {
        Ok(MemRead { store: self })
    }

    /// Opens a write transaction with an empty pending write set. The store
    /// moves into the transaction: until commit or rollback returns it, no
    /// other transaction — read or write — can be opened against it.
    pub fn open_write(self) -> (r: Result<MemWrite, StoreError>)
        ensures
            r matches Ok(t) && t.base_view() == self@ && t.pending_view() == Map::<
                Seq<char>,
                Option<Seq<u8>>,
            >::empty(),
    {
        Ok(MemWrite { committed: self.committed, pending: KvTable::new() })
    }
}

impl<'a> MemRead<'a> {
    /// Whether the committed state holds this key.
    pub fn has(&self, key: &str) -> (r: Result<bool, StoreError>)
        ensures
            r matches Ok(b) && b == self@.contains_key(key@),
    {
        match self.store.committed.lookup(key) {
            Some(Some(_)) => Ok(true),
            _ => Ok(false),
        }
    }

    /// The committed payload under this key, if any.
    pub fn get(&self, key: &str) -> (r: Result<Option<Vec<u8>>, StoreError>)
        ensures
            r matches Ok(v) && val_view(v) == (if self@.contains_key(key@) {
                Some(self@[key@])
            } else {
                None
            }),
    {
        match self.store.committed.lookup(key) {
            Some(Some(v)) => Ok(Some(v)),
            _ => Ok(None),
        }
    }
}

impl MemWrite {
    /// The committed state this transaction opened over.
    pub closed spec fn base_view(&self) -> Map<Seq<char>, Seq<u8>> {
        visible_map(self.committed@)
    }

    /// The transaction's private pending write set.
    pub closed spec fn pending_view(&self) -> Map<Seq<char>, Option<Seq<u8>>> {
        self.pending@
    }

    /// Whether this transaction sees the key: its own pending writes first,
    /// the committed state for untouched keys.
    pub fn has(&self, key: &str) -> (r: Result<bool, StoreError>)
        ensures
            r matches Ok(b) && b == (tx_read(self.base_view(), self.pending_view(), key@)
                is Some),
    {
        match buffered_has(&self.pending, key) {
            Buffered::Hit(b) => Ok(b),
            Buffered::Miss => match self.committed.lookup(key) {
                Some(Some(_)) => Ok(true),
                _ => Ok(false),
            },
        }
    }

    /// What this transaction sees under the key: its own pending write if
    /// one exists — a tombstone reads as absent — else the committed payload.
    pub fn get(&self, key: &str) -> (r: Result<Option<Vec<u8>>, StoreError>)
        ensures
            r matches Ok(v) && val_view(v) == tx_read(self.base_view(), self.pending_view(), key@),
    {
        match buffered_get(&self.pending, key) {
            Buffered::Hit(v) => Ok(v),
            Buffered::Miss => match self.committed.lookup(key) {
                Some(Some(v)) => Ok(Some(v)),
                _ => Ok(None),
            },
        }
    }

    /// Records a replacement value in the pending write set; nothing reaches
    /// the committed state before commit.
    pub fn put(&mut self, key: &str, value: &[u8]) -> (r: Result<(), StoreError>)
        ensures
            r is Ok,
            final(self).pending_view() == old(self).pending_view().insert(key@, Some(value@)),
            final(self).base_view() == old(self).base_view(),
    {
        self.pending.put(key, value);
        Ok(())
    }

    /// Records a tombstone in the pending write set.
    pub fn del(&mut self, key: &str) -> (r: Result<(), StoreError>)
        ensures
            r is Ok,
            final(self).pending_view() == old(self).pending_view().insert(key@, None),
            final(self).base_view() == old(self).base_view(),
    {
        self.pending.del(key);
        Ok(())
    }

    /// Consumes the transaction, lays the pending write set over the
    /// committed state, and hands the store back. The reference backend has
    /// no asynchronous commit phase, so commit always succeeds.
    pub fn commit(self) -> (r: (MemStore, Result<(), StoreError>))
        ensures
            r.1 is Ok,
            r.0@ == store_after(self.base_view(), self.pending_view()),
    {
        let ghost base = self.base_view();
        let ghost pend = self.pending_view();
        let MemWrite { mut committed, pending } = self;
        committed.apply(&pending);
        let s = MemStore { committed };
        proof {
            assert(s@ =~= store_after(base, pend));
        }
        (s, Ok(()))
    }

    /// Consumes the transaction, discards the pending write set without
    /// flushing anything, and hands the store back unchanged. Always
    /// succeeds: there is no engine whose abort could fail.
    pub fn rollback(self) -> (r: (MemStore, Result<(), StoreError>))
        ensures
            r.1 is Ok,
            r.0@ == self.base_view(),
    {
        let MemWrite { committed, pending: _ } = self;
        (MemStore { committed }, Ok(()))
    }
}

} // verus!
