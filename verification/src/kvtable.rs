//! An association table from string keys to either a replacement value or a
//! tombstone (a deletion marker). One table serves as the pending write set
//! of a write transaction; another serves as the committed state of the
//! in-memory backend, where a tombstone marks a key that was deleted.

use vstd::prelude::*;

verus! {

/// The value side of one entry, as contracts see it: a replacement value or
/// a tombstone.
pub open spec fn val_view(v: Option<Vec<u8>>) -> Option<Seq<u8>> {
    match v {
        Some(b) => Some(b@),
        None => None,
    }
}

/// The mapping described by a sequence of entries, later entries winning.
/// The table itself keeps keys unique, so order never matters for it.
pub open spec fn map_of(s: Seq<(String, Option<Vec<u8>>)>) -> Map<Seq<char>, Option<Seq<u8>>>
    decreases s.len(),
{
    if s.len() == 0 {
        Map::empty()
    } else {
        map_of(s.drop_last()).insert(s.last().0@, val_view(s.last().1))
    }
}

/// A table of key/value-or-tombstone entries with unique keys.
pub struct KvTable {
    entries: Vec<(String, Option<Vec<u8>>)>,
}

impl View for KvTable {
    type V = Map<Seq<char>, Option<Seq<u8>>>;

    closed spec fn view(&self) -> Map<Seq<char>, Option<Seq<u8>>> {
        map_of(self.entries@)
    }
}

proof fn lemma_map_of_absent(s: Seq<(String, Option<Vec<u8>>)>, k: Seq<char>)
    requires
        forall|i: int| 0 <= i < s.len() ==> s[i].0@ != k,
    ensures
        !map_of(s).contains_key(k),
    decreases s.len(),
{
    if s.len() > 0 {
        lemma_map_of_absent(s.drop_last(), k);
    }
}

proof fn lemma_map_of_present(s: Seq<(String, Option<Vec<u8>>)>, i: int, k: Seq<char>)
    requires
        0 <= i < s.len(),
        s[i].0@ == k,
        forall|j: int| i < j < s.len() ==> s[j].0@ != k,
    ensures
        map_of(s).contains_key(k),
        map_of(s)[k] == val_view(s[i].1),
    decreases s.len(),
{
    if i < s.len() - 1 {
        lemma_map_of_present(s.drop_last(), i, k);
    }
}

proof fn lemma_map_of_update(s: Seq<(String, Option<Vec<u8>>)>, i: int, e: (String, Option<Vec<u8>>))
    requires
        0 <= i < s.len(),
        e.0@ == s[i].0@,
        forall|j: int, l: int| 0 <= j < l < s.len() ==> s[j].0@ != s[l].0@,
    ensures
        map_of(s.update(i, e)) == map_of(s).insert(e.0@, val_view(e.1)),
    decreases s.len(),
{
    let t = s.update(i, e);
    if i == s.len() - 1 {
        assert(t.drop_last() =~= s.drop_last());
        assert(t.last() == e);
        assert(map_of(t) =~= map_of(s).insert(e.0@, val_view(e.1)));
    } else {
        assert(t.drop_last() =~= s.drop_last().update(i, e));
        lemma_map_of_update(s.drop_last(), i, e);
        assert(t.last() == s.last());
        assert(s.last().0@ != e.0@);
        assert(map_of(t) =~= map_of(s).insert(e.0@, val_view(e.1)));
    }
}

/// Copies a byte payload.
fn clone_bytes(b: &Vec<u8>) -> (r: Vec<u8>)
    ensures
        r@ == b@,
{
    vstd::slice::slice_to_vec(b.as_slice())
}

fn clone_entry_value(v: &Option<Vec<u8>>) -> (r: Option<Vec<u8>>)
    ensures
        val_view(r) == val_view(*v),
{
    match v {
        Some(b) => Some(clone_bytes(b)),
        None => None,
    }
}

impl KvTable {
    #[verifier::type_invariant]
    spec fn wf(self) -> bool {
        forall|i: int, j: int|
            0 <= i < j < self.entries@.len() ==> self.entries@[i].0@ != self.entries@[j].0@
    }

    /// An empty table.
    pub fn new() -> (t: KvTable)
        ensures
            t@ == Map::<Seq<char>, Option<Seq<u8>>>::empty(),
    {
        KvTable { entries: Vec::new() }
    }

    /// Whether the table holds no entry at all, tombstones included.
    pub fn is_empty(&self) -> (r: bool)
        ensures
            r == (self@ == Map::<Seq<char>, Option<Seq<u8>>>::empty()),
    {
        proof {
            use_type_invariant(self);
            if self.entries@.len() == 0 {
                assert(self@ =~= Map::<Seq<char>, Option<Seq<u8>>>::empty());
            } else {
                assert(self@.contains_key(self.entries@.last().0@));
            }
        }
        self.entries.len() == 0
    }

    /// The index of the entry with this key, if one exists.
    fn find(&self, key: &str) -> (r: Option<usize>)
        ensures
            match r {
                Some(i) => i < self.entries@.len() && self.entries@[i as int].0@ == key@,
                None => forall|i: int| 0 <= i < self.entries@.len() ==> self.entries@[i].0@ != key@,
            },
    {
        let k = key.to_owned();
        let n = self.entries.len();
        let mut i: usize = 0;
        while i < n
            invariant
                n == self.entries@.len(),
                i <= n,
                k@ == key@,
                forall|j: int| 0 <= j < i ==> self.entries@[j].0@ != key@,
            decreases n - i,
        {
            if self.entries[i].0 == k {
                return Some(i);
            }
            i = i + 1;
        }
        None
    }

    /// Records a value or a tombstone for this key, replacing any earlier
    /// entry for it.
    pub fn set_entry(&mut self, key: &str, value: Option<Vec<u8>>)
        ensures
            final(self)@ == old(self)@.insert(key@, val_view(value)),
    {
        proof {
            use_type_invariant(&*self);
        }
        let found = self.find(key);
        let ghost s0 = self.entries@;
        let mut entries: Vec<(String, Option<Vec<u8>>)> = Vec::new();
        std::mem::swap(&mut entries, &mut self.entries);
        let e = (key.to_owned(), value);
        let ghost enew = e;
        match found {
            Some(i) => {
                entries[i] = e;
                proof {
                    lemma_map_of_update(s0, i as int, enew);
                }
            }
            None => {
                entries.push(e);
                proof {
                    assert(entries@.drop_last() =~= s0);
                }
            }
        }
        self.entries = entries;
    }

    /// Records a replacement value for this key.
    pub fn put(&mut self, key: &str, value: &[u8])
        ensures
            final(self)@ == old(self)@.insert(key@, Some(value@)),
    {
        let v = vstd::slice::slice_to_vec(value);
        self.set_entry(key, Some(v));
    }

    /// Records a tombstone for this key.
    pub fn del(&mut self, key: &str)
        ensures
            final(self)@ == old(self)@.insert(key@, None),
    {
        self.set_entry(key, None);
    }

    /// What the table records for this key: nothing, a tombstone, or a value.
    pub fn lookup(&self, key: &str) -> (r: Option<Option<Vec<u8>>>)
        ensures
            match r {
                Some(v) => self@.contains_key(key@) && self@[key@] == val_view(v),
                None => !self@.contains_key(key@),
            },
    {
        proof {
            use_type_invariant(self);
        }
        match self.find(key) {
            Some(i) => {
                proof {
                    lemma_map_of_present(self.entries@, i as int, key@);
                }
                Some(clone_entry_value(&self.entries[i].1))
            }
            None => {
                proof {
                    lemma_map_of_absent(self.entries@, key@);
                }
                None
            }
        }
    }

    /// Lays every entry of `other` over this table: values and tombstones of
    /// `other` win, untouched keys keep what this table records. This is the
    /// commit step of the in-memory backend.
    pub fn apply(&mut self, other: &KvTable)
        ensures
            final(self)@ == old(self)@.union_prefer_right(other@),
    {
        proof {
            use_type_invariant(other);
        }
        let ghost base = self@;
        let ghost os = other.entries@;
        let n = other.entries.len();
        let mut i: usize = 0;
        while i < n
            invariant
                n == other.entries@.len(),
                os == other.entries@,
                i <= n,
                self@ == base.union_prefer_right(map_of(os.take(i as int))),
            decreases n - i,
        {
            let key_ref: &String = &other.entries[i].0;
            let v = clone_entry_value(&other.entries[i].1);
            self.set_entry(key_ref.as_str(), v);
            proof {
                assert(os.take(i + 1 as int).drop_last() =~= os.take(i as int));
                assert(os.take(i + 1 as int).last() == os[i as int]);
                assert(self@ =~= base.union_prefer_right(map_of(os.take(i + 1 as int))));
            }
            i = i + 1;
        }
        proof {
            assert(os.take(n as int) =~= os);
        }
    }
}

/// One mutation to hand to the durable engine at flush: a put request with a
/// key and a byte payload, or a delete request.
#[derive(Clone, Debug, PartialEq, Eq)]
pub enum FlushOp {
    Put(String, Vec<u8>),
    Del(String),
}

/// The key a flush operation is addressed to.
pub open spec fn op_key(op: FlushOp) -> Seq<char> {
    match op {
        FlushOp::Put(k, _) => k@,
        FlushOp::Del(k) => k@,
    }
}

/// The pending entry a flush operation carries: a value or a tombstone.
pub open spec fn op_val(op: FlushOp) -> Option<Seq<u8>> {
    match op {
        FlushOp::Put(_, v) => Some(v@),
        FlushOp::Del(_) => None,
    }
}

/// The flush batch `ops` states exactly the mapping `m`: every key once, a
/// put for a recorded value, a delete for a tombstone, and nothing else.
pub open spec fn ops_match(m: Map<Seq<char>, Option<Seq<u8>>>, ops: Seq<FlushOp>) -> bool {
    &&& forall|i: int, j: int| 0 <= i < j < ops.len() ==> op_key(ops[i]) != op_key(ops[j])
    &&& forall|i: int|
        0 <= i < ops.len() ==> m.contains_key(op_key(ops[i])) && m[op_key(ops[i])] == op_val(
            ops[i],
        )
    &&& forall|k: Seq<char>|
        m.contains_key(k) ==> exists|i: int| 0 <= i < ops.len() && op_key(ops[i]) == k
}

impl KvTable {
    /// The batch of engine requests that flushes this table: one put or
    /// delete per recorded key.
    pub fn flush_ops(&self) -> (ops: Vec<FlushOp>)
        ensures
            ops_match(self@, ops@),
    {
        proof {
            use_type_invariant(self);
        }
        let n = self.entries.len();
        let mut ops: Vec<FlushOp> = Vec::new();
        let mut i: usize = 0;
        while i < n
            invariant
                n == self.entries@.len(),
                forall|a: int, b: int|
                    0 <= a < b < self.entries@.len() ==> self.entries@[a].0@
                        != self.entries@[b].0@,
                i <= n,
                ops@.len() == i,
                forall|j: int|
                    0 <= j < i ==> op_key(ops@[j]) == self.entries@[j].0@ && op_val(ops@[j])
                        == val_view(self.entries@[j].1),
            decreases n - i,
        {
            let key = self.entries[i].0.clone();
            let op = match &self.entries[i].1 {
                Some(v) => FlushOp::Put(key, clone_bytes(v)),
                None => FlushOp::Del(key),
            };
            ops.push(op);
            i = i + 1;
        }
        proof {
            assert forall|j: int| 0 <= j < ops@.len() implies self@.contains_key(op_key(ops@[j]))
                && self@[op_key(ops@[j])] == op_val(ops@[j]) by {
                lemma_map_of_present(self.entries@, j, self.entries@[j].0@);
            }
            assert forall|k: Seq<char>| self@.contains_key(k) implies exists|j: int|
                0 <= j < ops@.len() && op_key(ops@[j]) == k by {
                if forall|j: int| 0 <= j < self.entries@.len() ==> self.entries@[j].0@ != k {
                    lemma_map_of_absent(self.entries@, k);
                }
                let j = choose|j: int|
                    0 <= j < self.entries@.len() && self.entries@[j].0@ == k;
                assert(op_key(ops@[j]) == k);
            }
        }
        ops
    }
}

} // verus!
