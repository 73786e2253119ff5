//! Tests of the durable-backend adapter's decision core: the write-state
//! machine, buffered reads, flush planning, and commit/rollback outcomes.

use txkv::StoreError;
use txkv::adapter::Buffered;
use txkv::adapter::CommitPlan;
use txkv::adapter::EngineSignal;
use txkv::adapter::RollbackPlan;
use txkv::adapter::WriteState;
use txkv::adapter::buffered_get;
use txkv::adapter::buffered_has;
use txkv::adapter::deliver_signal;
use txkv::adapter::finish_commit;
use txkv::adapter::finish_rollback;
use txkv::adapter::plan_commit;
use txkv::adapter::plan_rollback;
use txkv::adapter::require_store;
use txkv::kvtable::FlushOp;
use txkv::kvtable::KvTable;

#[test]
fn signals_drive_an_open_transaction_to_terminals() {
    assert_eq!(deliver_signal(WriteState::Open, EngineSignal::Complete), WriteState::Committed);
    assert_eq!(deliver_signal(WriteState::Open, EngineSignal::Abort), WriteState::Aborted);
    assert_eq!(deliver_signal(WriteState::Open, EngineSignal::Error), WriteState::Errored);
}

#[test]
fn terminal_states_are_final() {
    assert_eq!(deliver_signal(WriteState::Committed, EngineSignal::Abort), WriteState::Committed);
    assert_eq!(deliver_signal(WriteState::Aborted, EngineSignal::Complete), WriteState::Aborted);
    assert_eq!(deliver_signal(WriteState::Errored, EngineSignal::Complete), WriteState::Errored);
}

#[test]
fn buffered_reads_consult_the_pending_set_first() {
    let mut pending = KvTable::new();
    pending.put("hit", b"v");
    pending.del("gone");

    assert_eq!(buffered_get(&pending, "hit"), Buffered::Hit(Some(b"v".to_vec())));
    assert_eq!(buffered_get(&pending, "gone"), Buffered::Hit(None));
    assert_eq!(buffered_get(&pending, "untouched"), Buffered::Miss);

    assert_eq!(buffered_has(&pending, "hit"), Buffered::Hit(true));
    assert_eq!(buffered_has(&pending, "gone"), Buffered::Hit(false));
    assert_eq!(buffered_has(&pending, "untouched"), Buffered::Miss);
}

#[test]
fn empty_pending_set_commits_without_engine_contact() {
    let pending = KvTable::new();
    assert_eq!(plan_commit(&pending), CommitPlan::Done);
}

#[test]
fn flush_covers_every_pending_entry_exactly_once() {
    let mut pending = KvTable::new();
    pending.put("a", b"1");
    pending.del("b");
    pending.put("a", b"2");

    let plan = plan_commit(&pending);
    let ops = match plan {
        CommitPlan::Flush(ops) => ops,
        CommitPlan::Done => panic!("a non-empty pending set must flush"),
    };
    assert_eq!(ops.len(), 2);
    assert!(ops.contains(&FlushOp::Put("a".to_string(), b"2".to_vec())));
    assert!(ops.contains(&FlushOp::Del("b".to_string())));
}

#[test]
fn commit_succeeds_only_on_committed_state() {
    assert_eq!(finish_commit(WriteState::Committed, None), Ok(()));
    assert_eq!(finish_commit(WriteState::Aborted, None), Err(StoreError::TransactionAborted));
    assert_eq!(finish_commit(WriteState::Errored, None), Err(StoreError::TransactionAborted));
}

#[test]
fn engine_error_takes_precedence_over_commit_state() {
    assert_eq!(
        finish_commit(WriteState::Committed, Some("disk full".to_string())),
        Err(StoreError::EngineError("disk full".to_string()))
    );
    assert_eq!(
        finish_commit(WriteState::Errored, Some("constraint".to_string())),
        Err(StoreError::EngineError("constraint".to_string()))
    );
}

#[test]
fn rollback_with_empty_pending_set_is_a_no_op() {
    let pending = KvTable::new();
    assert_eq!(plan_rollback(&pending, WriteState::Open), RollbackPlan::Done);
    assert_eq!(plan_rollback(&pending, WriteState::Errored), RollbackPlan::Done);
}

#[test]
fn rollback_after_terminal_outcome_is_a_no_op() {
    let mut pending = KvTable::new();
    pending.put("x", b"1");
    assert_eq!(plan_rollback(&pending, WriteState::Committed), RollbackPlan::Done);
    assert_eq!(plan_rollback(&pending, WriteState::Aborted), RollbackPlan::Done);
}

#[test]
fn rollback_with_pending_writes_requests_an_abort() {
    let mut pending = KvTable::new();
    pending.put("x", b"1");
    assert_eq!(plan_rollback(&pending, WriteState::Open), RollbackPlan::RequestAbort);
    assert_eq!(plan_rollback(&pending, WriteState::Errored), RollbackPlan::RequestAbort);
}

#[test]
fn rollback_succeeds_only_on_aborted_state() {
    assert_eq!(finish_rollback(WriteState::Aborted, None), Ok(()));
    assert_eq!(
        finish_rollback(WriteState::Committed, None),
        Err(StoreError::TransactionAbortFailed)
    );
    assert_eq!(
        finish_rollback(WriteState::Errored, None),
        Err(StoreError::TransactionAbortFailed)
    );
    assert_eq!(
        finish_rollback(WriteState::Aborted, Some("lost".to_string())),
        Err(StoreError::EngineError("lost".to_string()))
    );
}

#[test]
fn kvtable_records_values_and_tombstones() {
    let mut t = KvTable::new();
    assert!(t.is_empty());
    assert_eq!(t.lookup("k"), None);

    t.put("k", b"v");
    assert!(!t.is_empty());
    assert_eq!(t.lookup("k"), Some(Some(b"v".to_vec())));

    t.del("k");
    assert!(!t.is_empty());
    assert_eq!(t.lookup("k"), Some(None));
}

#[test]
fn kvtable_apply_lays_the_right_table_over_the_left() {
    let mut base = KvTable::new();
    base.put("a", b"1");
    base.put("b", b"2");

    let mut over = KvTable::new();
    over.put("b", b"3");
    over.del("c");

    base.apply(&over);
    assert_eq!(base.lookup("a"), Some(Some(b"1".to_vec())));
    assert_eq!(base.lookup("b"), Some(Some(b"3".to_vec())));
    assert_eq!(base.lookup("c"), Some(None));
}

#[test]
fn absent_capability_is_tagged_unavailable() {
    assert_eq!(require_store::<u8>(None), Err(StoreError::Unavailable));
    assert_eq!(require_store(Some(7u8)), Ok(7u8));
}

#[test]
fn flush_batch_reproduces_the_reference_commit() {
    // Drive the same transaction through both backends: the reference
    // backend commits its pending set directly, while a simulated engine
    // executes the flush batch op by op. Both must end in the same state.
    let store = txkv::memstore::MemStore::new("db").unwrap().unwrap();
    let mut tx = store.open_write().unwrap();
    tx.put("a", b"1").unwrap();
    let (store, r) = tx.commit();
    assert_eq!(r, Ok(()));

    let mut engine: std::collections::HashMap<String, Vec<u8>> = std::collections::HashMap::new();
    engine.insert("a".to_string(), b"1".to_vec());

    let mut tx = store.open_write().unwrap();
    let mut pending = KvTable::new();
    for (key, value) in [("a", Some(b"2".to_vec())), ("b", Some(b"3".to_vec()))] {
        match value {
            Some(v) => {
                tx.put(key, &v).unwrap();
                pending.put(key, &v);
            }
            None => {
                tx.del(key).unwrap();
                pending.del(key);
            }
        }
    }
    tx.del("a").unwrap();
    pending.del("a");

    let ops = match plan_commit(&pending) {
        CommitPlan::Flush(ops) => ops,
        CommitPlan::Done => panic!("a non-empty pending set must flush"),
    };
    for op in ops {
        match op {
            FlushOp::Put(k, v) => {
                engine.insert(k, v);
            }
            FlushOp::Del(k) => {
                engine.remove(&k);
            }
        }
    }

    let (store, r) = tx.commit();
    assert_eq!(r, Ok(()));
    let read = store.open_read().unwrap();
    for key in ["a", "b", "c"] {
        assert_eq!(read.get(key).unwrap(), engine.get(key).cloned());
        assert_eq!(read.has(key).unwrap(), engine.contains_key(key));
    }
}
