//! Core of a transactional key-value store with two backends: a volatile
//! in-memory reference backend and the decision logic of an adapter for a
//! durable, asynchronous engine. Writes are buffered in a pending write set
//! until commit; at most one write transaction is open per store; commit and
//! rollback outcomes are decided by a small terminal state machine.

use vstd::prelude::*;

pub mod adapter;
pub mod bridge;
pub mod kvtable;
pub mod laws;
pub mod memstore;

verus! {

/// Errors surfaced through the store contract.
#[derive(Clone, Debug, PartialEq, Eq)]
pub enum StoreError {
    /// Durable storage capability is absent in this environment; a valid
    /// negative result rather than a failure.
    Unavailable,
    /// The underlying engine rejected an operation or a request; carries the
    /// engine's own message.
    EngineError(String),
    /// A completion bridge was dropped before it fired.
    Cancelled,
    /// A commit observed a terminal state other than committed.
    TransactionAborted,
    /// A rollback observed a terminal state other than aborted.
    TransactionAbortFailed,
}

} // verus!
