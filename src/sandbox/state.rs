//! The persisted runtime state: contract storage and uploaded code, each a
//! key/value store with one value per key, and the instantiated contracts
//! with the code each was made from.

use vstd::prelude::*;

use crate::sandbox::{AccountId, CodeHash};

verus! {

/// A storage entry or a write, as plain byte sequences.
pub type Entry = (Seq<u8>, Seq<u8>);

/// The byte sequences of stored pairs.
pub open spec fn entries_model(v: Seq<(Vec<u8>, Vec<u8>)>) -> Seq<Entry> {
    v.map_values(|e: (Vec<u8>, Vec<u8>)| (e.0@, e.1@))
}

/// The index of the entry with key `k`, if any.
pub open spec fn key_index(s: Seq<Entry>, k: Seq<u8>) -> Option<int>
    decreases s.len(),
{
    if s.len() == 0 {
        None
    } else if s.last().0 == k {
        Some(s.len() - 1)
    } else {
        key_index(s.drop_last(), k)
    }
}

/// The value stored under `k`, if any.
pub open spec fn value_of(s: Seq<Entry>, k: Seq<u8>) -> Option<Seq<u8>> {
    match key_index(s, k) {
        Some(i) => Some(s[i].1),
        None => None,
    }
}

/// The store after writing `v` under `k`: an existing value is replaced in
/// place, a new key is added at the end.
pub open spec fn put(s: Seq<Entry>, k: Seq<u8>, v: Seq<u8>) -> Seq<Entry> {
    match key_index(s, k) {
        Some(i) => s.update(i, (k, v)),
        None => s.push((k, v)),
    }
}

/// The store after the writes, in order.
pub open spec fn apply_writes(s: Seq<Entry>, w: Seq<Entry>) -> Seq<Entry>
    decreases w.len(),
{
    if w.len() == 0 {
        s
    } else {
        let prev = apply_writes(s, w.drop_last());
        put(prev, w.last().0, w.last().1)
    }
}

/// What the runtime state holds, as plain values.
pub struct StateModel {
    /// Contract storage.
    pub storage: Seq<Entry>,
    /// Uploaded code, keyed by the bytes of its hash.
    pub codes: Seq<Entry>,
    /// Each instantiated contract, with the hash of its code.
    pub contracts: Seq<(AccountId, CodeHash)>,
}

/// Whether `a` is one of the instantiated contracts.
pub open spec fn has_contract(m: StateModel, a: AccountId) -> bool {
    exists|i: int| 0 <= i < m.contracts.len() && m.contracts[i].0 == a
}

proof fn lemma_key_index(s: Seq<Entry>, k: Seq<u8>)
    ensures
        key_index(s, k) matches Some(i) ==> 0 <= i < s.len() && s[i].0 == k,
    decreases s.len(),
{
    if s.len() > 0 {
        lemma_key_index(s.drop_last(), k);
    }
}

proof fn lemma_key_index_update(s: Seq<Entry>, i: int, k: Seq<u8>, v: Seq<u8>, k2: Seq<u8>)
    requires
        0 <= i < s.len(),
        s[i].0 == k,
    ensures
        key_index(s.update(i, (k, v)), k2) == key_index(s, k2),
    decreases s.len(),
{
    let t = s.update(i, (k, v));
    if i < s.len() - 1 {
        assert(t.drop_last() == s.drop_last().update(i, (k, v)));
        lemma_key_index_update(s.drop_last(), i, k, v, k2);
    } else {
        assert(t.drop_last() == s.drop_last());
    }
}

/// A read after a write under `k` gives the written value, and a write under
/// `k` leaves the value under every other key as it was.
pub proof fn lemma_read_after_write(s: Seq<Entry>, k: Seq<u8>, v: Seq<u8>, other: Seq<u8>)
    ensures
        value_of(put(s, k, v), k) == Some(v),
        other != k ==> value_of(put(s, k, v), other) == value_of(s, other),
{
    lemma_key_index(s, k);
    lemma_key_index(s, other);
    match key_index(s, k) {
        Some(i) => {
            lemma_key_index_update(s, i, k, v, k);
            lemma_key_index_update(s, i, k, v, other);
            lemma_key_index(put(s, k, v), other);
            if let Some(j) = key_index(s, other) {
                if other != k {
                    assert(j != i);
                }
            }
        },
        None => {
            assert(put(s, k, v).drop_last() == s);
        },
    }
}

/// Whether two byte sequences are equal.
pub fn same_bytes(a: &[u8], b: &[u8]) -> (r: bool)
    ensures
        r == (a@ == b@),
{
    if a.len() != b.len() {
        return false;
    }
    let mut i: usize = 0;
    while i < a.len()
        invariant
            a@.len() == b@.len(),
            i <= a@.len(),
            a@.take(i as int) == b@.take(i as int),
        decreases a@.len() - i,
    {
        if a[i] != b[i] {
            assert(a@[i as int] != b@[i as int]);
            return false;
        }
        proof {
            assert(a@.take(i + 1) == a@.take(i as int).push(a@[i as int]));
            assert(b@.take(i + 1) == b@.take(i as int).push(b@[i as int]));
        }
        i = i + 1;
    }
    proof {
        assert(a@.take(i as int) == a@);
        assert(b@.take(i as int) == b@);
    }
    true
}

/// A vector that holds the bytes of `b`.
pub fn copy_bytes(b: &[u8]) -> (r: Vec<u8>)
    ensures
        r@ == b@,
{
    let mut r: Vec<u8> = Vec::new();
    let mut i: usize = 0;
    while i < b.len()
        invariant
            i <= b@.len(),
            r@ == b@.take(i as int),
        decreases b@.len() - i,
    {
        r.push(b[i]);
        i = i + 1;
    }
    proof {
        assert(b@.take(i as int) == b@);
    }
    r
}

/// Whether two account identities are equal.
pub fn same_account(a: &AccountId, b: &AccountId) -> (r: bool)
    ensures
        r == (*a == *b),
{
    let r = same_bytes(a.as_slice(), b.as_slice());
    proof {
        if r {
            assert(*a =~= *b);
        }
    }
    r
}

fn find_key(entries: &Vec<(Vec<u8>, Vec<u8>)>, k: &[u8]) -> (r: Option<usize>)
    ensures
        r matches Some(i) ==> key_index(entries_model(entries@), k@) == Some(i as int),
        r is None ==> key_index(entries_model(entries@), k@) is None,
{
    let ghost s = entries_model(entries@);
    let mut i: usize = entries.len();
    proof {
        assert(s.take(i as int) == s);
    }
    while i > 0
        invariant
            i <= entries@.len(),
            s == entries_model(entries@),
            key_index(s, k@) == key_index(s.take(i as int), k@),
        decreases i,
    {
        proof {
            assert(s.take(i as int).drop_last() == s.take(i - 1));
        }
        if same_bytes(entries[i - 1].0.as_slice(), k) {
            return Some(i - 1);
        }
        i = i - 1;
    }
    None
}

fn get_key<'a>(entries: &'a Vec<(Vec<u8>, Vec<u8>)>, k: &[u8]) -> (r: Option<&'a Vec<u8>>)
    ensures
        r matches Some(v) ==> value_of(entries_model(entries@), k@) == Some(v@),
        r is None ==> value_of(entries_model(entries@), k@) is None,
{
    match find_key(entries, k) {
        Some(i) => {
            proof {
                lemma_key_index(entries_model(entries@), k@);
            }
            Some(&entries[i].1)
        },
        None => None,
    }
}

fn put_key(entries: &mut Vec<(Vec<u8>, Vec<u8>)>, k: Vec<u8>, v: Vec<u8>)
    ensures
        entries_model(final(entries)@) == put(entries_model(old(entries)@), k@, v@),
{
    let ghost ks = k@;
    let ghost vs = v@;
    match find_key(entries, k.as_slice()) {
        Some(i) => {
            proof {
                lemma_key_index(entries_model(entries@), ks);
            }
            entries.set(i, (k, v));
            proof {
                assert(entries_model(entries@) =~= put(entries_model(old(entries)@), ks, vs));
            }
        },
        None => {
            entries.push((k, v));
            proof {
                assert(entries_model(entries@) =~= put(entries_model(old(entries)@), ks, vs));
            }
        },
    }
}

/// The runtime state that a sandbox owns.
pub struct RuntimeState {
    entries: Vec<(Vec<u8>, Vec<u8>)>,
    codes: Vec<(Vec<u8>, Vec<u8>)>,
    contracts: Vec<(AccountId, CodeHash)>,
}

impl RuntimeState {
    pub closed spec fn model(&self) -> StateModel {
        StateModel {
            storage: entries_model(self.entries@),
            codes: entries_model(self.codes@),
            contracts: self.contracts@,
        }
    }

    /// A clean state: no storage, no code and no contracts.
    pub fn new() -> (r: Self)
        ensures
            r.model().storage == Seq::<Entry>::empty(),
            r.model().codes == Seq::<Entry>::empty(),
            r.model().contracts == Seq::<(AccountId, CodeHash)>::empty(),
    {
        let r = RuntimeState { entries: Vec::new(), codes: Vec::new(), contracts: Vec::new() };
        proof {
            assert(entries_model(r.entries@) =~= Seq::<Entry>::empty());
            assert(entries_model(r.codes@) =~= Seq::<Entry>::empty());
        }
        r
    }

    /// The value stored under `k`, if any.
    pub fn get(&self, k: &[u8]) -> (r: Option<&Vec<u8>>)
        ensures
            r matches Some(v) ==> value_of(self.model().storage, k@) == Some(v@),
            r is None ==> value_of(self.model().storage, k@) is None,
    {
        get_key(&self.entries, k)
    }

    /// Writes `v` under `k`.
    pub fn put(&mut self, k: Vec<u8>, v: Vec<u8>)
        ensures
            final(self).model().storage == put(old(self).model().storage, k@, v@),
            final(self).model().codes == old(self).model().codes,
            final(self).model().contracts == old(self).model().contracts,
    {
        put_key(&mut self.entries, k, v);
    }

    /// The code uploaded under `h`, if any.
    pub fn get_code(&self, h: &CodeHash) -> (r: Option<&Vec<u8>>)
        ensures
            r matches Some(v) ==> value_of(self.model().codes, h@) == Some(v@),
            r is None ==> value_of(self.model().codes, h@) is None,
    {
        get_key(&self.codes, h.as_slice())
    }

    /// Stores `code` under its hash `h`.
    pub fn put_code(&mut self, h: CodeHash, code: Vec<u8>)
        ensures
            final(self).model().codes == put(old(self).model().codes, h@, code@),
            final(self).model().storage == old(self).model().storage,
            final(self).model().contracts == old(self).model().contracts,
    {
        let key = copy_bytes(h.as_slice());
        put_key(&mut self.codes, key, code);
    }

    /// Applies the writes, in order.
    pub fn commit(&mut self, writes: &Vec<(Vec<u8>, Vec<u8>)>)
        ensures
            final(self).model().storage == apply_writes(old(self).model().storage, entries_model(writes@)),
            final(self).model().codes == old(self).model().codes,
            final(self).model().contracts == old(self).model().contracts,
    {
        let ghost w = entries_model(writes@);
        let mut i: usize = 0;
        while i < writes.len()
            invariant
                i <= writes@.len(),
                w == entries_model(writes@),
                self.model().storage == apply_writes(old(self).model().storage, w.take(i as int)),
                self.model().codes == old(self).model().codes,
                self.model().contracts == old(self).model().contracts,
            decreases writes@.len() - i,
        {
            let k = writes[i].0.clone();
            let v = writes[i].1.clone();
            proof {
                assert(k@ =~= writes@[i as int].0@);
                assert(v@ =~= writes@[i as int].1@);
                assert(w.take(i + 1).drop_last() == w.take(i as int));
            }
            self.put(k, v);
            i = i + 1;
        }
        proof {
            assert(w.take(i as int) == w);
        }
    }

    /// The hash of the code that the contract at `a` was made from, if `a`
    /// is an instantiated contract.
    pub fn contract_code_hash(&self, a: &AccountId) -> (r: Option<CodeHash>)
        ensures
            r is None <==> !has_contract(self.model(), *a),
            r matches Some(h) ==> exists|i: int|
                0 <= i < self.model().contracts.len() && #[trigger] self.model().contracts[i] == (*a, h),
    {
        let mut i: usize = 0;
        while i < self.contracts.len()
            invariant
                i <= self.contracts@.len(),
                forall|j: int| 0 <= j < i ==> self.contracts@[j].0 != *a,
            decreases self.contracts@.len() - i,
        {
            if same_account(&self.contracts[i].0, a) {
                assert(self.model().contracts[i as int] == (*a, self.contracts@[i as int].1));
                return Some(self.contracts[i].1);
            }
            i = i + 1;
        }
        None
    }

    /// Whether `a` is an instantiated contract.
    pub fn contains_contract(&self, a: &AccountId) -> (r: bool)
        ensures
            r == has_contract(self.model(), *a),
    {
        self.contract_code_hash(a).is_some()
    }

    /// Records `a` as an instantiated contract made from the code under `h`.
    pub fn add_contract(&mut self, a: AccountId, h: CodeHash)
        ensures
            final(self).model().storage == old(self).model().storage,
            final(self).model().codes == old(self).model().codes,
            final(self).model().contracts == old(self).model().contracts.push((a, h)),
    {
        self.contracts.push((a, h));
    }
}

} // verus!
