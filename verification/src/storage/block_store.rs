use vstd::prelude::*;
use crate::error::{ErrorKind, HotStuffError};
use crate::types::block::{Block, BlockView};

verus! {

/// Storage for blocks, addressed by block hash.
pub trait BlockStore {
    /// The internal consistency of the store.
    spec fn store_wf(&self) -> bool;

    /// Whether the store takes every block it is given without failing, as an in-memory
    /// store does; a store that can fail (a disk, a network) answers false.
    spec fn always_accepts(&self) -> bool;

    /// The stored blocks, keyed by the hash they were stored under.
    spec fn blocks(&self) -> Map<Seq<u8>, BlockView>;

    /// Stores a block under its hash, replacing any block stored under the same hash; a store
    /// that always accepts never fails, and keeps that property.
    fn put_block(&mut self, block: &Block) -> (r: Result<(), HotStuffError>)
        requires
            old(self).store_wf(),
        ensures
            final(self).store_wf(),
            old(self).always_accepts() ==> r is Ok && final(self).always_accepts(),
            r is Ok ==> final(self).blocks() == old(self).blocks().insert(block@.hash, block@),
    ;

    /// The block stored under `hash`, if any.
    fn get_block(&self, hash: &crate::types::hash::Hash) -> (r: Result<Option<Block>, HotStuffError>)
        requires
            self.store_wf(),
        ensures
            r is Ok ==> (r->Ok_0 is Some <==> self.blocks().contains_key(hash@)),
            r matches Ok(Some(b)) ==> b@ == self.blocks()[hash@],
    ;

    /// Whether a block is stored under `hash`.
    fn has_block(&self, hash: &crate::types::hash::Hash) -> (r: Result<bool, HotStuffError>)
        requires
            self.store_wf(),
        ensures
            r is Ok ==> r->Ok_0 == self.blocks().contains_key(hash@),
    ;

    /// A stored block of greatest height.
    fn get_latest_committed_block(&self) -> (r: Result<Block, HotStuffError>)
        requires
            self.store_wf(),
        ensures
            r is Ok ==> {
                &&& self.blocks().contains_key(r->Ok_0@.hash)
                &&& self.blocks()[r->Ok_0@.hash] == r->Ok_0@
                &&& forall|k: Seq<u8>| #[trigger] self.blocks().contains_key(k) ==>
                    self.blocks()[k].height <= r->Ok_0@.height
            },
    ;
}

/// An in-memory block store.
pub struct MemoryBlockStore {
    blocks: Vec<Block>,
    contents: Ghost<Map<Seq<u8>, BlockView>>,
}

impl MemoryBlockStore {
    /// The stored blocks, keyed by the hash they were stored under.
    pub closed spec fn view_map(&self) -> Map<Seq<u8>, BlockView> {
        self.contents@
    }

    /// The internal consistency of the store.
    pub closed spec fn wf(&self) -> bool {
        &&& forall|i: int| 0 <= i < self.blocks@.len() ==> {
            &&& #[trigger] self.contents@.contains_key(self.blocks@[i].hash@)
            &&& self.contents@[self.blocks@[i].hash@] == self.blocks@[i]@
        }
        &&& forall|k: Seq<u8>| #[trigger] self.contents@.contains_key(k) ==>
            exists|i: int| 0 <= i < self.blocks@.len() && #[trigger] self.blocks@[i].hash@ == k
        &&& forall|i: int, j: int| 0 <= i < j < self.blocks@.len() ==>
            self.blocks@[i].hash@ != self.blocks@[j].hash@
    }

    /// An empty store.
    pub fn new() -> (s: MemoryBlockStore)
        ensures
            s.wf(),
            s.view_map() == Map::<Seq<u8>, BlockView>::empty(),
    {
        MemoryBlockStore { blocks: Vec::new(), contents: Ghost(Map::empty()) }
    }

    /// The position of the block stored under `hash`, if any.
    fn find(&self, hash: &crate::types::hash::Hash) -> (r: Option<usize>)
        requires
            self.wf(),
        ensures
            match r {
                Some(i) => i < self.blocks@.len() && self.blocks@[i as int].hash@ == hash@,
                None => !self.contents@.contains_key(hash@),
            },
    {
        let mut i: usize = 0;
        while i < self.blocks.len()
            invariant
                self.wf(),
                i <= self.blocks@.len(),
                forall|j: int| 0 <= j < i ==> self.blocks@[j].hash@ != hash@,
            decreases self.blocks@.len() - i,
        {
            if self.blocks[i].hash == *hash {
                return Some(i);
            }
            i = i + 1;
        }
        None
    }
}

impl BlockStore for MemoryBlockStore {
    open spec fn store_wf(&self) -> bool {
        self.wf()
    }

    open spec fn always_accepts(&self) -> bool {
        true
    }

    open spec fn blocks(&self) -> Map<Seq<u8>, BlockView> {
        self.view_map()
    }

    fn put_block(&mut self, block: &Block) -> (r: Result<(), HotStuffError>)
        ensures
            r is Ok,
            final(self).wf(),
            final(self).view_map() == old(self).view_map().insert(block@.hash, block@),
    {
        let ghost k = block@.hash;
        let ghost old_contents = self.contents@;
        let ghost old_blocks = self.blocks@;
        let copy = block.clone();
        match self.find(&block.hash) {
            Some(i) => {
                self.blocks.set(i, copy);
                self.contents = Ghost(old_contents.insert(k, block@));
                proof {
                    assert forall|j: int| 0 <= j < self.blocks@.len() implies {
                        &&& #[trigger] self.contents@.contains_key(self.blocks@[j].hash@)
                        &&& self.contents@[self.blocks@[j].hash@] == self.blocks@[j]@
                    } by {
                        if j != i {
                            assert(old_blocks[j] == self.blocks@[j]);
                        }
                    }
                    assert forall|kk: Seq<u8>| #[trigger] self.contents@.contains_key(kk) implies
                        exists|j: int| 0 <= j < self.blocks@.len() && #[trigger] self.blocks@[j].hash@ == kk by {
                        if kk == k {
                            assert(self.blocks@[i as int].hash@ == kk);
                        } else {
                            let j = choose|j: int| 0 <= j < old_blocks.len() && #[trigger] old_blocks[j].hash@ == kk;
                            assert(self.blocks@[j].hash@ == kk);
                        }
                    }
                    assert forall|a: int, b: int| 0 <= a < b < self.blocks@.len() implies
                        self.blocks@[a].hash@ != self.blocks@[b].hash@ by {
                        assert(old_blocks[a].hash@ == self.blocks@[a].hash@);
                        assert(old_blocks[b].hash@ == self.blocks@[b].hash@);
                    }
                }
            },
            None => {
                self.blocks.push(copy);
                self.contents = Ghost(old_contents.insert(k, block@));
                proof {
                    let n = old_blocks.len() as int;
                    assert forall|j: int| 0 <= j < self.blocks@.len() implies {
                        &&& #[trigger] self.contents@.contains_key(self.blocks@[j].hash@)
                        &&& self.contents@[self.blocks@[j].hash@] == self.blocks@[j]@
                    } by {
                        if j != n {
                            assert(old_blocks[j] == self.blocks@[j]);
                            assert(old_contents.contains_key(old_blocks[j].hash@));
                        }
                    }
                    assert forall|kk: Seq<u8>| #[trigger] self.contents@.contains_key(kk) implies
                        exists|j: int| 0 <= j < self.blocks@.len() && #[trigger] self.blocks@[j].hash@ == kk by {
                        if kk == k {
                            assert(self.blocks@[n].hash@ == kk);
                        } else {
                            let j = choose|j: int| 0 <= j < old_blocks.len() && #[trigger] old_blocks[j].hash@ == kk;
                            assert(self.blocks@[j].hash@ == kk);
                        }
                    }
                    assert forall|a: int, b: int| 0 <= a < b < self.blocks@.len() implies
                        self.blocks@[a].hash@ != self.blocks@[b].hash@ by {
                        if b == n {
                            assert(old_contents.contains_key(old_blocks[a].hash@));
                        } else {
                            assert(old_blocks[a].hash@ == self.blocks@[a].hash@);
                            assert(old_blocks[b].hash@ == self.blocks@[b].hash@);
                        }
                    }
                }
            },
        }
        Ok(())
    }

    fn get_block(&self, hash: &crate::types::hash::Hash) -> (r: Result<Option<Block>, HotStuffError>)
        ensures
            r is Ok,
            r->Ok_0 is Some <==> self.view_map().contains_key(hash@),
            r->Ok_0 is Some ==> r->Ok_0->Some_0@ == self.view_map()[hash@],
    {
        match self.find(hash) {
            Some(i) => {
                assert(self.contents@.contains_key(self.blocks@[i as int].hash@));
                Ok(Some(self.blocks[i].clone()))
            },
            None => Ok(None),
        }
    }

    fn has_block(&self, hash: &crate::types::hash::Hash) -> (r: Result<bool, HotStuffError>)
        ensures
            r == Ok::<bool, HotStuffError>(self.view_map().contains_key(hash@)),
    {
        match self.find(hash) {
            Some(i) => {
                assert(self.contents@.contains_key(self.blocks@[i as int].hash@));
                Ok(true)
            },
            None => Ok(false),
        }
    }

    fn get_latest_committed_block(&self) -> (r: Result<Block, HotStuffError>)
        ensures
            r is Err <==> self.view_map().is_empty(),
            r is Err ==> r->Err_0.kind() == ErrorKind::Storage && r->Err_0.message() == "No blocks found"@,
            r is Ok ==> {
                &&& self.view_map().contains_key(r->Ok_0@.hash)
                &&& self.view_map()[r->Ok_0@.hash] == r->Ok_0@
                &&& forall|k: Seq<u8>| #[trigger] self.view_map().contains_key(k) ==>
                    self.view_map()[k].height <= r->Ok_0@.height
            },
    {
        if self.blocks.len() == 0 {
            proof {
                assert forall|k: Seq<u8>| !self.contents@.contains_key(k) by {
                    if self.contents@.contains_key(k) {
                        let j = choose|j: int| 0 <= j < self.blocks@.len() && #[trigger] self.blocks@[j].hash@ == k;
                    }
                }
                assert(self.contents@.dom() =~= Set::<Seq<u8>>::empty());
            }
            return Err(HotStuffError::storage("No blocks found"));
        }
        let mut best: usize = 0;
        let mut i: usize = 1;
        while i < self.blocks.len()
            invariant
                self.wf(),
                1 <= i <= self.blocks@.len(),
                best < i,
                forall|j: int| 0 <= j < i ==> self.blocks@[j].height <= self.blocks@[best as int].height,
            decreases self.blocks@.len() - i,
        {
            if self.blocks[i].height >= self.blocks[best].height {
                best = i;
            }
            i = i + 1;
        }
        proof {
            assert(self.contents@.contains_key(self.blocks@[best as int].hash@));
            assert forall|k: Seq<u8>| #[trigger] self.contents@.contains_key(k) implies
                self.contents@[k].height <= self.blocks@[best as int].height by {
                let j = choose|j: int| 0 <= j < self.blocks@.len() && #[trigger] self.blocks@[j].hash@ == k;
                assert(self.contents@.contains_key(self.blocks@[j].hash@));
            }
        }
        Ok(self.blocks[best].clone())
    }
}

} // verus!
