//! Decision core of the durable-backend adapter. The engine executes
//! requests asynchronously and signals completion through callbacks; an
//! unverified driver performs those calls and awaits those signals, and every
//! decision in between — what a buffered read returns, what a commit flushes,
//! how a terminal signal moves the transaction state, which result a commit
//! or rollback surfaces — is taken here.
//!
//! The driver must hold the store's reader/writer lock exclusively for the
//! whole life of a write transaction and release it on every exit path;
//! that lock, not this module, is what keeps a second write transaction from
//! opening while one is in flight.

use vstd::prelude::*;

use crate::StoreError;
use crate::kvtable::FlushOp;
use crate::kvtable::KvTable;
use crate::kvtable::ops_match;
use crate::kvtable::val_view;

verus! {

/// Completion state of one write transaction: open, then exactly one of the
/// three terminal states, one-way.
#[derive(Clone, Copy, Debug, PartialEq, Eq, Structural)]
pub enum WriteState {
    Open,
    Committed,
    Aborted,
    Errored,
}

/// The engine's asynchronous terminal signal for a transaction: completed,
/// aborted (requested or spontaneous), or failed inside the engine.
#[derive(Clone, Copy, Debug, PartialEq, Eq, Structural)]
pub enum EngineSignal {
    Complete,
    Abort,
    Error,
}

/// The terminal state a signal drives an open transaction to.
pub open spec fn terminal_of(sig: EngineSignal) -> WriteState {
    match sig {
        EngineSignal::Complete => WriteState::Committed,
        EngineSignal::Abort => WriteState::Aborted,
        EngineSignal::Error => WriteState::Errored,
    }
}

/// Moves the transaction state on an engine signal: an open transaction
/// takes the signal's terminal state; a terminal state is final and a later
/// signal leaves it unchanged.
pub fn deliver_signal(state: WriteState, sig: EngineSignal) -> (r: WriteState)
    ensures
        r == (if state is Open {
            terminal_of(sig)
        } else {
            state
        }),
{
    match state {
        WriteState::Open => match sig {
            EngineSignal::Complete => WriteState::Committed,
            EngineSignal::Abort => WriteState::Aborted,
            EngineSignal::Error => WriteState::Errored,
        },
        _ => state,
    }
}

/// Collapses backend construction into one tagged result, for callers that
/// cannot go on without a store: construction hands back a usable store, or
/// "unavailable" as a valid negative outcome distinct from an error; here
/// the absent capability becomes the `Unavailable` tag.
pub fn require_store<T>(outcome: Option<T>) -> (r: Result<T, StoreError>)
    ensures
        match outcome {
            Some(s) => r matches Ok(t) && t == s,
            None => r matches Err(StoreError::Unavailable),
        },
{
    match outcome {
        Some(s) => Ok(s),
        None => Err(StoreError::Unavailable),
    }
}

/// Outcome of consulting the pending write set before the engine: a hit
/// settles the read from the transaction's own writes; a miss means the key
/// is untouched and the committed state must answer.
#[derive(Clone, Debug, PartialEq, Eq)]
pub enum Buffered<T> {
    Hit(T),
    Miss,
}

/// Read-your-own-writes lookup for `get`: a recorded value answers with that
/// value, a tombstone answers with absence, an untouched key falls through.
pub fn buffered_get(pending: &KvTable, key: &str) -> (r: Buffered<Option<Vec<u8>>>)
    ensures
        match r {
            Buffered::Hit(v) => pending@.contains_key(key@) && pending@[key@] == val_view(v),
            Buffered::Miss => !pending@.contains_key(key@),
        },
{
    match pending.lookup(key) {
        Some(v) => Buffered::Hit(v),
        None => Buffered::Miss,
    }
}

/// Read-your-own-writes lookup for `has`: a recorded value answers true, a
/// tombstone answers false, an untouched key falls through.
pub fn buffered_has(pending: &KvTable, key: &str) -> (r: Buffered<bool>)
    ensures
        match r {
            Buffered::Hit(b) => pending@.contains_key(key@) && b == (pending@[key@] is Some),
            Buffered::Miss => !pending@.contains_key(key@),
        },
{
    match pending.lookup(key) {
        Some(Some(_)) => Buffered::Hit(true),
        Some(None) => Buffered::Hit(false),
        None => Buffered::Miss,
    }
}

/// What a commit must do: nothing at all when no write is pending — the
/// commit then succeeds without contacting the engine — or flush exactly the
/// pending entries and await the terminal signal.
#[derive(Clone, Debug, PartialEq, Eq)]
pub enum CommitPlan {
    Done,
    Flush(Vec<FlushOp>),
}

/// Plans a commit from the pending write set.
pub fn plan_commit(pending: &KvTable) -> (r: CommitPlan)
    ensures
        match r {
            CommitPlan::Done => pending@ == Map::<Seq<char>, Option<Seq<u8>>>::empty(),
            CommitPlan::Flush(ops) => pending@ != Map::<Seq<char>, Option<Seq<u8>>>::empty()
                && ops_match(pending@, ops@),
        },
{
    if pending.is_empty() {
        CommitPlan::Done
    } else {
        CommitPlan::Flush(pending.flush_ops())
    }
}

/// The commit result once the flush completed and a terminal signal arrived.
/// An engine-reported transaction error takes precedence over the state;
/// otherwise only the committed state is success.
pub fn finish_commit(state: WriteState, engine_error: Option<String>) -> (r: Result<
    (),
    StoreError,
>)
    requires
        !(state is Open),
    ensures
        match engine_error {
            Some(m) => r matches Err(StoreError::EngineError(em)) && em@ == m@,
            None => if state is Committed {
                r is Ok
            } else {
                r matches Err(StoreError::TransactionAborted)
            },
        },
{
    match engine_error {
        Some(m) => Err(StoreError::EngineError(m)),
        None => match state {
            WriteState::Committed => Ok(()),
            _ => Err(StoreError::TransactionAborted),
        },
    }
}

/// What a rollback must do: nothing when no write is pending, or when the
/// transaction already reached a terminal outcome — the caller's intent,
/// undoing its writes, is then already satisfied — else request an abort
/// from the engine and await the terminal signal.
#[derive(Clone, Copy, Debug, PartialEq, Eq)]
pub enum RollbackPlan {
    Done,
    RequestAbort,
}

/// Plans a rollback from the pending write set and the current state.
pub fn plan_rollback(pending: &KvTable, state: WriteState) -> (r: RollbackPlan)
    ensures
        r == (if pending@ == Map::<Seq<char>, Option<Seq<u8>>>::empty() {
            RollbackPlan::Done
        } else if state is Committed || state is Aborted {
            RollbackPlan::Done
        } else {
            RollbackPlan::RequestAbort
        }),
{
    if pending.is_empty() {
        RollbackPlan::Done
    } else {
        match state {
            WriteState::Committed => RollbackPlan::Done,
            WriteState::Aborted => RollbackPlan::Done,
            _ => RollbackPlan::RequestAbort,
        }
    }
}

/// The rollback result once an abort was requested and a terminal signal
/// arrived. An engine-reported error takes precedence; otherwise only the
/// aborted state counts as the abort having happened.
pub fn finish_rollback(state: WriteState, engine_error: Option<String>) -> (r: Result<
    (),
    StoreError,
>)
    requires
        !(state is Open),
    ensures
        match engine_error {
            Some(m) => r matches Err(StoreError::EngineError(em)) && em@ == m@,
            None => if state is Aborted {
                r is Ok
            } else {
                r matches Err(StoreError::TransactionAbortFailed)
            },
        },
{
    match engine_error {
        Some(m) => Err(StoreError::EngineError(m)),
        None => match state {
            WriteState::Aborted => Ok(()),
            _ => Err(StoreError::TransactionAbortFailed),
        },
    }
}

} // verus!
