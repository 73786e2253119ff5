//! Laws of the transaction contract, stated over the specification maps that
//! the backends' contracts use. Each holds for every key, every value and
//! every committed state.

use vstd::prelude::*;

use crate::kvtable::FlushOp;
use crate::kvtable::op_key;
use crate::kvtable::op_val;
use crate::kvtable::ops_match;
use crate::memstore::store_after;
use crate::memstore::tx_read;

verus! {

/// Read-your-own-writes for puts: after a put of `v` under `k`, a read of
/// `k` through the same transaction, before any commit, returns `v` —
/// whatever the committed state and the earlier pending writes hold.
pub proof fn lemma_put_then_get(
    base: Map<Seq<char>, Seq<u8>>,
    pend: Map<Seq<char>, Option<Seq<u8>>>,
    k: Seq<char>,
    v: Seq<u8>,
)
    ensures
        tx_read(base, pend.insert(k, Some(v)), k) == Some(v),
{
}

/// Read-your-own-writes for deletes: after a del of `k`, the same
/// transaction no longer sees `k`, even if the committed state holds it.
pub proof fn lemma_del_then_has(
    base: Map<Seq<char>, Seq<u8>>,
    pend: Map<Seq<char>, Option<Seq<u8>>>,
    k: Seq<char>,
)
    ensures
        tx_read(base, pend.insert(k, None), k) is None,
{
}

/// Round trip of a put through a commit: once a transaction whose last
/// pending write under `k` was a put of `v` commits, the committed state
/// holds `v` under `k`, so a later read transaction returns it.
pub proof fn lemma_commit_put_round_trip(
    base: Map<Seq<char>, Seq<u8>>,
    pend: Map<Seq<char>, Option<Seq<u8>>>,
    k: Seq<char>,
    v: Seq<u8>,
)
    ensures
        store_after(base, pend.insert(k, Some(v))).contains_key(k),
        store_after(base, pend.insert(k, Some(v)))[k] == v,
{
}

/// Round trip of a delete through a commit: once a transaction whose last
/// pending write under `k` was a del commits, the committed state no longer
/// holds `k`, so a later read transaction reports it absent.
pub proof fn lemma_commit_del_round_trip(
    base: Map<Seq<char>, Seq<u8>>,
    pend: Map<Seq<char>, Option<Seq<u8>>>,
    k: Seq<char>,
)
    ensures
        !store_after(base, pend.insert(k, None)).contains_key(k),
{
}

/// What one flush operation does to the durable engine's state: a put stores
/// the payload under the key, a delete removes the key.
pub open spec fn apply_op(m: Map<Seq<char>, Seq<u8>>, op: FlushOp) -> Map<Seq<char>, Seq<u8>> {
    match op {
        FlushOp::Put(k, v) => m.insert(k@, v@),
        FlushOp::Del(k) => m.remove(k@),
    }
}

/// The durable engine's state after a whole flush batch.
pub open spec fn apply_ops(m: Map<Seq<char>, Seq<u8>>, ops: Seq<FlushOp>) -> Map<
    Seq<char>,
    Seq<u8>,
>
    decreases ops.len(),
{
    if ops.len() == 0 {
        m
    } else {
        apply_op(apply_ops(m, ops.drop_last()), ops.last())
    }
}

/// Flushing is faithful: a batch that states exactly a pending write set,
/// applied to the committed state the engine holds, leaves the engine in
/// precisely the state the reference backend's commit of that pending set
/// yields — the two backends are indistinguishable through the contract.
pub proof fn lemma_flush_matches_commit(
    base: Map<Seq<char>, Seq<u8>>,
    pend: Map<Seq<char>, Option<Seq<u8>>>,
    ops: Seq<FlushOp>,
)
    requires
        ops_match(pend, ops),
    ensures
        apply_ops(base, ops) == store_after(base, pend),
    decreases ops.len(),
{
    if ops.len() == 0 {
        assert(apply_ops(base, ops) =~= store_after(base, pend));
    } else {
        let front = ops.drop_last();
        let lastop = ops.last();
        let k = op_key(lastop);
        let pend2 = pend.remove(k);
        assert forall|i: int|
            0 <= i < front.len() implies pend2.contains_key(op_key(front[i])) && pend2[op_key(
            front[i],
        )] == op_val(front[i]) by {
            assert(op_key(ops[i]) != op_key(ops[ops.len() - 1]));
        }
        assert forall|kk: Seq<char>| pend2.contains_key(kk) implies exists|i: int|
            0 <= i < front.len() && op_key(front[i]) == kk by {
            let i = choose|i: int| 0 <= i < ops.len() && op_key(ops[i]) == kk;
            assert(i != ops.len() - 1);
            assert(op_key(front[i]) == kk);
        }
        lemma_flush_matches_commit(base, pend2, front);
        assert(pend.contains_key(k) && pend[k] == op_val(lastop));
        assert(apply_ops(base, ops) =~= store_after(base, pend));
    }
}

/// Keys a transaction never touched survive its commit unchanged: committing
/// cannot disturb data outside the pending write set.
pub proof fn lemma_commit_untouched(
    base: Map<Seq<char>, Seq<u8>>,
    pend: Map<Seq<char>, Option<Seq<u8>>>,
    k: Seq<char>,
)
    requires
        !pend.contains_key(k),
    ensures
        store_after(base, pend).contains_key(k) == base.contains_key(k),
        base.contains_key(k) ==> store_after(base, pend)[k] == base[k],
{
}

} // verus!
