use vstd::prelude::*;
use crate::error::{ErrorKind, HotStuffError};
use crate::types::bytes::{bytes_equal, copy_bytes};
use crate::types::hash::sha256;

verus! {

struct PoolEntry {
    key: crate::types::hash::Hash,
    tx: Vec<u8>,
}

/// A bounded pool of raw transactions, each stored under the SHA-256 hash of its bytes.
pub struct Mempool {
    entries: Vec<PoolEntry>,
    max_size: usize,
    contents: Ghost<Map<Seq<u8>, Seq<u8>>>,
}

impl Mempool {
    /// The pooled transactions, keyed by hash.
    pub closed spec fn view_map(&self) -> Map<Seq<u8>, Seq<u8>> {
        self.contents@
    }

    /// The capacity the pool was created with.
    pub closed spec fn capacity(&self) -> nat {
        self.max_size as nat
    }

    /// The order in which the pool hands its transactions out: every key once.
    pub closed spec fn order(&self) -> Seq<Seq<u8>> {
        self.entries@.map_values(|e: PoolEntry| e.key@)
    }

    /// The internal consistency of the pool.
    pub closed spec fn wf(&self) -> bool {
        &&& self.contents@.dom().finite()
        &&& self.contents@.len() == self.entries@.len()
        &&& self.entries@.len() <= self.max_size
        &&& forall|i: int| 0 <= i < self.entries@.len() ==> {
            &&& #[trigger] self.contents@.contains_key(self.entries@[i].key@)
            &&& self.contents@[self.entries@[i].key@] == self.entries@[i].tx@
        }
        &&& forall|k: Seq<u8>| #[trigger] self.contents@.contains_key(k) ==>
            exists|i: int| 0 <= i < self.entries@.len() && #[trigger] self.entries@[i].key@ == k
        &&& forall|i: int, j: int| 0 <= i < j < self.entries@.len() ==>
            self.entries@[i].key@ != self.entries@[j].key@
        &&& forall|k: Seq<u8>| #[trigger] self.contents@.contains_key(k) ==> k == sha256(self.contents@[k])
    }

    /// The pool holds finitely many transactions, stays within its capacity and keys every
    /// transaction by its hash.
    pub proof fn lemma_invariants(&self)
        requires
            self.wf(),
        ensures
            self.view_map().dom().finite(),
            self.view_map().len() <= self.capacity(),
            forall|k: Seq<u8>| #[trigger] self.view_map().contains_key(k) ==> k == sha256(self.view_map()[k]),
    {
    }

    /// An empty pool that holds at most `max_size` transactions.
    pub fn new(max_size: usize) -> (m: Mempool)
        ensures
            m.wf(),
            m.view_map() == Map::<Seq<u8>, Seq<u8>>::empty(),
            m.capacity() == max_size,
    {
        Mempool { entries: Vec::new(), max_size, contents: Ghost(Map::empty()) }
    }

    /// The number of pooled transactions.
    pub fn len(&self) -> (n: usize)
        requires
            self.wf(),
        ensures
            n == self.view_map().len(),
    {
        self.entries.len()
    }

    /// The position of the entry stored under `key`, if any.
    fn find(&self, key: &[u8]) -> (r: Option<usize>)
        requires
            self.wf(),
        ensures
            match r {
                Some(i) => i < self.entries@.len() && self.entries@[i as int].key@ == key@,
                None => !self.contents@.contains_key(key@),
            },
    {
        let mut i: usize = 0;
        while i < self.entries.len()
            invariant
                self.wf(),
                i <= self.entries@.len(),
                forall|j: int| 0 <= j < i ==> self.entries@[j].key@ != key@,
            decreases self.entries@.len() - i,
        {
            if bytes_equal(key, &self.entries[i].key.0) {
                return Some(i);
            }
            i = i + 1;
        }
        None
    }

    /// Adds a transaction under its hash, unless the pool is already at capacity.
    pub fn add_transaction(&mut self, tx: Vec<u8>) -> (r: Result<(), HotStuffError>)
        requires
            old(self).wf(),
        ensures
            final(self).wf(),
            final(self).capacity() == old(self).capacity(),
            old(self).view_map().len() >= old(self).capacity() ==> {
                &&& r is Err
                &&& r->Err_0.kind() == ErrorKind::Storage
                &&& r->Err_0.message() == "Mempool is full"@
                &&& final(self).view_map() == old(self).view_map()
                &&& final(self).order() == old(self).order()
            },
            old(self).view_map().len() < old(self).capacity() ==> {
                &&& r is Ok
                &&& final(self).view_map() == old(self).view_map().insert(sha256(tx@), tx@)
            },
    {
        if self.entries.len() >= self.max_size {
            return Err(HotStuffError::storage("Mempool is full"));
        }
        let key = crate::types::hash::Hash::from_bytes(tx.as_slice());
        let ghost k = key@;
        let ghost old_contents = self.contents@;
        match self.find(&key.0) {
            Some(i) => {
                let ghost old_entries = self.entries@;
                self.entries.set(i, PoolEntry { key, tx });
                self.contents = Ghost(old_contents.insert(k, self.entries@[i as int].tx@));
                proof {
                    assert(old_contents.insert(k, self.entries@[i as int].tx@).dom() =~= old_contents.dom());
                    assert forall|j: int| 0 <= j < self.entries@.len() implies {
                        &&& #[trigger] self.contents@.contains_key(self.entries@[j].key@)
                        &&& self.contents@[self.entries@[j].key@] == self.entries@[j].tx@
                    } by {
                        if j != i {
                            assert(old_entries[j] == self.entries@[j]);
                        }
                    }
                    assert forall|kk: Seq<u8>| #[trigger] self.contents@.contains_key(kk) implies
                        exists|j: int| 0 <= j < self.entries@.len() && #[trigger] self.entries@[j].key@ == kk by {
                        if kk == k {
                            assert(self.entries@[i as int].key@ == kk);
                        } else {
                            let j = choose|j: int| 0 <= j < old_entries.len() && #[trigger] old_entries[j].key@ == kk;
                            assert(self.entries@[j].key@ == kk);
                        }
                    }
                    assert forall|a: int, b: int| 0 <= a < b < self.entries@.len() implies
                        self.entries@[a].key@ != self.entries@[b].key@ by {
                        assert(old_entries[a].key@ == self.entries@[a].key@);
                        assert(old_entries[b].key@ == self.entries@[b].key@);
                    }
                }
            },
            None => {
                let ghost old_entries = self.entries@;
                self.entries.push(PoolEntry { key, tx });
                self.contents = Ghost(old_contents.insert(k, self.entries@[old_entries.len() as int].tx@));
                proof {
                    let n = old_entries.len() as int;
                    assert(self.contents@.dom() =~= old_contents.dom().insert(k));
                    assert forall|j: int| 0 <= j < self.entries@.len() implies {
                        &&& #[trigger] self.contents@.contains_key(self.entries@[j].key@)
                        &&& self.contents@[self.entries@[j].key@] == self.entries@[j].tx@
                    } by {
                        if j != n {
                            assert(old_entries[j] == self.entries@[j]);
                            assert(old_contents.contains_key(old_entries[j].key@));
                        }
                    }
                    assert forall|kk: Seq<u8>| #[trigger] self.contents@.contains_key(kk) implies
                        exists|j: int| 0 <= j < self.entries@.len() && #[trigger] self.entries@[j].key@ == kk by {
                        if kk == k {
                            assert(self.entries@[n].key@ == kk);
                        } else {
                            let j = choose|j: int| 0 <= j < old_entries.len() && #[trigger] old_entries[j].key@ == kk;
                            assert(self.entries@[j].key@ == kk);
                        }
                    }
                    assert forall|a: int, b: int| 0 <= a < b < self.entries@.len() implies
                        self.entries@[a].key@ != self.entries@[b].key@ by {
                        if b == n {
                            assert(old_contents.contains_key(old_entries[a].key@));
                        } else {
                            assert(old_entries[a].key@ == self.entries@[a].key@);
                            assert(old_entries[b].key@ == self.entries@[b].key@);
                        }
                    }
                }
            },
        }
        Ok(())
    }
    /// Looks a transaction up by its hash.
    pub fn get_transaction(&self, tx_hash: &[u8]) -> (r: Result<Option<Vec<u8>>, HotStuffError>)
        requires
            self.wf(),
        ensures
            r is Ok,
            r->Ok_0 is Some <==> self.view_map().contains_key(tx_hash@),
            r->Ok_0 is Some ==> r->Ok_0->Some_0@ == self.view_map()[tx_hash@],
    {
        match self.find(tx_hash) {
            Some(i) => {
                assert(self.contents@.contains_key(self.entries@[i as int].key@));
                Ok(Some(copy_bytes(self.entries[i].tx.as_slice())))
            },
            None => Ok(None),
        }
    }

    /// Removes every transaction whose hash is listed; unknown hashes are ignored.
    pub fn remove_transactions(&mut self, tx_hashes: &[Vec<u8>]) -> (r: Result<(), HotStuffError>)
        requires
            old(self).wf(),
        ensures
            r is Ok,
            final(self).wf(),
            final(self).capacity() == old(self).capacity(),
            final(self).view_map() == old(self).view_map().remove_keys(
                tx_hashes@.map_values(|h: Vec<u8>| h@).to_set(),
            ),
    {
        let ghost hs = tx_hashes@.map_values(|h: Vec<u8>| h@);
        let ghost start = self.contents@;
        let mut n: usize = 0;
        assert(hs.subrange(0, 0).to_set() =~= Set::<Seq<u8>>::empty());
        assert(start.remove_keys(Set::<Seq<u8>>::empty()) =~= start);
        while n < tx_hashes.len()
            invariant
                self.wf(),
                self.max_size == old(self).max_size,
                n <= tx_hashes@.len(),
                hs == tx_hashes@.map_values(|h: Vec<u8>| h@),
                start == old(self).contents@,
                self.contents@ == start.remove_keys(hs.subrange(0, n as int).to_set()),
            decreases tx_hashes@.len() - n,
        {
            self.remove_one(tx_hashes[n].as_slice());
            proof {
                let a = hs.subrange(0, n + 1);
                let b = hs.subrange(0, n as int);
                assert forall|x: Seq<u8>| a.to_set().contains(x) <==> b.to_set().insert(hs[n as int]).contains(x) by {
                    if a.to_set().contains(x) {
                        let j = choose|j: int| 0 <= j < a.len() && a[j] == x;
                        if j < n {
                            assert(b[j] == x);
                        }
                    }
                    if b.to_set().contains(x) {
                        let j = choose|j: int| 0 <= j < b.len() && b[j] == x;
                        assert(a[j] == x);
                    }
                    if x == hs[n as int] {
                        assert(a[n as int] == x);
                    }
                }
                assert(a.to_set() =~= b.to_set().insert(hs[n as int]));
                assert(start.remove_keys(hs.subrange(0, n + 1).to_set()) =~=
                    start.remove_keys(hs.subrange(0, n as int).to_set()).remove(hs[n as int]));
            }
            n = n + 1;
        }
        assert(hs.subrange(0, tx_hashes@.len() as int) =~= hs);
        Ok(())
    }

    /// Removes the transaction stored under `key`, if any.
    fn remove_one(&mut self, key: &[u8])
        requires
            old(self).wf(),
        ensures
            final(self).wf(),
            final(self).max_size == old(self).max_size,
            final(self).contents@ == old(self).contents@.remove(key@),
    {
        match self.find(key) {
            None => {
                assert(self.contents@.remove(key@) =~= self.contents@);
            },
            Some(i) => {
                let ghost old_entries = self.entries@;
                let ghost old_contents = self.contents@;
                let _removed = self.entries.remove(i);
                self.contents = Ghost(old_contents.remove(key@));
                proof {
                    assert(self.contents@.dom() =~= old_contents.dom().remove(key@));
                    assert forall|j: int| 0 <= j < self.entries@.len() implies {
                        &&& #[trigger] self.contents@.contains_key(self.entries@[j].key@)
                        &&& self.contents@[self.entries@[j].key@] == self.entries@[j].tx@
                    } by {
                        if j < i {
                            assert(self.entries@[j] == old_entries[j]);
                            assert(old_entries[j].key@ != old_entries[i as int].key@);
                            assert(old_contents.contains_key(old_entries[j].key@));
                        } else {
                            assert(self.entries@[j] == old_entries[j + 1]);
                            assert(old_entries[j + 1].key@ != old_entries[i as int].key@);
                            assert(old_contents.contains_key(old_entries[j + 1].key@));
                        }
                    }
                    assert forall|kk: Seq<u8>| #[trigger] self.contents@.contains_key(kk) implies
                        exists|j: int| 0 <= j < self.entries@.len() && #[trigger] self.entries@[j].key@ == kk by {
                        let j = choose|j: int| 0 <= j < old_entries.len() && #[trigger] old_entries[j].key@ == kk;
                        assert(j != i);
                        if j < i {
                            assert(self.entries@[j].key@ == kk);
                        } else {
                            assert(self.entries@[j - 1].key@ == kk);
                        }
                    }
                    assert forall|a: int, b: int| 0 <= a < b < self.entries@.len() implies
                        self.entries@[a].key@ != self.entries@[b].key@ by {
                        let a2 = if a < i { a } else { a + 1 };
                        let b2 = if b < i { b } else { b + 1 };
                        assert(self.entries@[a] == old_entries[a2]);
                        assert(self.entries@[b] == old_entries[b2]);
                    }
                }
            },
        }
    }

    /// Up to `max_count` pooled transactions, taken in the pool's order.
    pub fn get_batch(&self, max_count: usize) -> (r: Result<Vec<Vec<u8>>, HotStuffError>)
        requires
            self.wf(),
        ensures
            r is Ok,
            r->Ok_0@.len() == (if max_count < self.view_map().len() { max_count as nat } else { self.view_map().len() }),
            forall|i: int| 0 <= i < r->Ok_0@.len() ==>
                #[trigger] r->Ok_0@[i]@ == self.view_map()[self.order()[i]],
            self.order().to_set() == self.view_map().dom(),
            self.order().no_duplicates(),
    {
        let mut batch: Vec<Vec<u8>> = Vec::new();
        let mut i: usize = 0;
        while i < self.entries.len() && i < max_count
            invariant
                self.wf(),
                i <= self.entries@.len(),
                i <= max_count,
                batch@.len() == i,
                forall|j: int| 0 <= j < i ==> #[trigger] batch@[j]@ == self.entries@[j].tx@,
            decreases self.entries@.len() - i,
        {
            batch.push(copy_bytes(self.entries[i].tx.as_slice()));
            i = i + 1;
        }
        proof {
            assert forall|j: int| 0 <= j < batch@.len() implies
                #[trigger] batch@[j]@ == self.contents@[self.order()[j]] by {
                assert(self.order()[j] == self.entries@[j].key@);
                assert(self.contents@.contains_key(self.entries@[j].key@));
            }
            assert forall|k: Seq<u8>| self.order().to_set().contains(k) <==> self.contents@.dom().contains(k) by {
                if self.contents@.dom().contains(k) {
                    let j = choose|j: int| 0 <= j < self.entries@.len() && #[trigger] self.entries@[j].key@ == k;
                    assert(self.order()[j] == k);
                }
                if self.order().to_set().contains(k) {
                    let j = choose|j: int| 0 <= j < self.order().len() && self.order()[j] == k;
                    assert(self.entries@[j].key@ == k);
                }
            }
            assert(self.order().to_set() =~= self.contents@.dom());
            assert forall|a: int, b: int| 0 <= a < self.order().len() && 0 <= b < self.order().len() && a != b
                implies self.order()[a] != self.order()[b] by {
                if a < b {
                    assert(self.entries@[a].key@ != self.entries@[b].key@);
                } else {
                    assert(self.entries@[b].key@ != self.entries@[a].key@);
                }
            }
        }
        Ok(batch)
    }
}

} // verus!
