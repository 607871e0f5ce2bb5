use vstd::prelude::*;
use crate::message::consensus::{collect_vote_signatures, vote_signatures, FastCommit, Timeout, Vote};
use crate::protocol::hotstuff2::{has_fast_committer, has_voter, PipelineStage};
use crate::protocol::hotstuff2_complete::{ChainedBlock, TimeoutCollector, VoteCollector};
use crate::types::signature::Signature;

verus! {

/// The concurrent hash map of the `dashmap` crate. Each map the protocol keeps is one
/// instantiation of it; a name below gives each instantiation's contents as a mathematical
/// map, keyed by the view of the key, and the wrappers below state what `DashMap::new`,
/// `insert`, `remove`, `clear`, `len` and `iter` do to or give of those contents.
#[verifier::external_type_specification]
#[verifier::external_body]
#[verifier::reject_recursive_types(K)]
#[verifier::reject_recursive_types(V)]
#[verifier::reject_recursive_types(S)]
pub struct ExDashMap<K, V, S>(dashmap::DashMap<K, V, S>);

/// The items recorded under `k`, or none.
pub open spec fn bucket_items<K, T>(m: Map<K, Seq<T>>, k: K) -> Seq<T> {
    if m.contains_key(k) { m[k] } else { Seq::empty() }
}

// ---------------------------------------------------------------------------------------
// Votes per block hash.

/// Votes per block hash.
pub type VoteTable = dashmap::DashMap<crate::types::hash::Hash, Vec<Vote>>;

/// The contents of a vote table, keyed by the view of the block hash.
pub uninterp spec fn vote_table(m: VoteTable) -> Map<Seq<u8>, Vec<Vote>>;

/// An empty table, from `DashMap::new`.
#[verifier::external_body]
fn new_vote_table() -> (created: VoteTable)
    ensures
        vote_table(created).dom() == Set::<Seq<u8>>::empty(),
{
    dashmap::DashMap::new()
}

/// `DashMap::remove`: takes the entry of `key` out and returns its value.
#[verifier::external_body]
fn remove_votes(m: &mut VoteTable, key: &crate::types::hash::Hash) -> (r: Option<Vec<Vote>>)
    ensures
        vote_table(*final(m)) == vote_table(*old(m)).remove(key@),
        r == (if vote_table(*old(m)).contains_key(key@) { Some(vote_table(*old(m))[key@]) } else { None::<Vec<Vote>> }),
{
    m.remove(key).map(|(_, v)| v)
}

/// `DashMap::insert`: stores `value` under `key`, replacing any previous value.
#[verifier::external_body]
fn insert_votes(m: &mut VoteTable, key: crate::types::hash::Hash, value: Vec<Vote>)
    ensures
        vote_table(*final(m)) == vote_table(*old(m)).insert(key@, value),
{
    m.insert(key, value);
}

/// Votes collected per block hash, in arrival order.
pub struct VoteBuckets {
    table: VoteTable,
}

impl VoteBuckets {
    /// The votes per hash.
    pub closed spec fn view_map(&self) -> Map<Seq<u8>, Seq<Vote>> {
        vote_table(self.table).map_values(|v: Vec<Vote>| v@)
    }

    /// The table holds finitely many hashes.
    pub closed spec fn wf(&self) -> bool {
        vote_table(self.table).dom().finite()
    }

    /// An empty collection.
    pub fn new() -> (b: VoteBuckets)
        ensures
            b.wf(),
            b.view_map() == Map::<Seq<u8>, Seq<Vote>>::empty(),
    {
        let b = VoteBuckets { table: new_vote_table() };
        assert(b.view_map() =~= Map::<Seq<u8>, Seq<Vote>>::empty());
        b
    }

    /// Appends `item` to the votes for `key`; returns how many votes `key` now has.
    pub fn push(&mut self, key: crate::types::hash::Hash, item: Vote) -> (n: usize)
        requires
            old(self).wf(),
        ensures
            final(self).wf(),
            final(self).view_map() == old(self).view_map().insert(key@, bucket_items(old(self).view_map(), key@).push(item)),
            n == bucket_items(old(self).view_map(), key@).len() + 1,
    {
        let ghost before = vote_table(self.table);
        let mut items = match remove_votes(&mut self.table, &key) {
            Some(v) => v,
            None => Vec::new(),
        };
        assert(items@ == bucket_items(old(self).view_map(), key@));
        items.push(item);
        let n = items.len();
        let ghost pushed = items;
        insert_votes(&mut self.table, key, items);
        assert(vote_table(self.table) =~= before.insert(key@, pushed));
        assert(self.view_map() =~= old(self).view_map().insert(key@, pushed@));
        n
    }

    /// Whether a vote from `node` is already recorded for `key`.
    pub fn has_voter(&mut self, key: &crate::types::hash::Hash, node: u64) -> (b: bool)
        requires
            old(self).wf(),
        ensures
            final(self).wf(),
            final(self).view_map() == old(self).view_map(),
            b == has_voter(bucket_items(old(self).view_map(), key@), node),
    {
        let ghost before = vote_table(self.table);
        match remove_votes(&mut self.table, key) {
            Some(items) => {
                let mut found = false;
                let mut i: usize = 0;
                while i < items.len()
                    invariant
                        i <= items@.len(),
                        found <==> exists|t: int| 0 <= t < i && #[trigger] items@[t].node_id == node,
                    decreases items@.len() - i,
                {
                    if items[i].node_id == node {
                        found = true;
                    }
                    i = i + 1;
                }
                insert_votes(&mut self.table, *key, items);
                assert(vote_table(self.table) =~= before);
                found
            },
            None => {
                assert(vote_table(self.table) =~= before);
                false
            },
        }
    }

    /// Copies of the signatures of the votes for `key`, in order.
    pub fn signatures(&mut self, key: &crate::types::hash::Hash) -> (sigs: Vec<Signature>)
        requires
            old(self).wf(),
        ensures
            final(self).wf(),
            final(self).view_map() == old(self).view_map(),
            sigs@.map_values(|s: Signature| s@) == vote_signatures(bucket_items(old(self).view_map(), key@)),
    {
        let ghost before = vote_table(self.table);
        match remove_votes(&mut self.table, key) {
            Some(items) => {
                let sigs = collect_vote_signatures(&items);
                let ghost kept = items;
                insert_votes(&mut self.table, *key, items);
                assert(vote_table(self.table) =~= before);
                sigs
            },
            None => {
                assert(vote_table(self.table) =~= before);
                let sigs: Vec<Signature> = Vec::new();
                assert(sigs@.map_values(|s: Signature| s@) =~= vote_signatures(Seq::<Vote>::empty()));
                sigs
            },
        }
    }
}

// ---------------------------------------------------------------------------------------
// Fast commits per block hash.

/// Fast-commit votes per block hash.
pub type FastCommitTable = dashmap::DashMap<crate::types::hash::Hash, Vec<FastCommit>>;

/// The contents of a fast-commit table, keyed by the view of the block hash.
pub uninterp spec fn fast_commit_table(m: FastCommitTable) -> Map<Seq<u8>, Vec<FastCommit>>;

/// An empty table, from `DashMap::new`.
#[verifier::external_body]
fn new_fast_commit_table() -> (created: FastCommitTable)
    ensures
        fast_commit_table(created).dom() == Set::<Seq<u8>>::empty(),
{
    dashmap::DashMap::new()
}

/// `DashMap::remove`: takes the entry of `key` out and returns its value.
#[verifier::external_body]
fn remove_fast_commits(m: &mut FastCommitTable, key: &crate::types::hash::Hash) -> (r: Option<Vec<FastCommit>>)
    ensures
        fast_commit_table(*final(m)) == fast_commit_table(*old(m)).remove(key@),
        r == (if fast_commit_table(*old(m)).contains_key(key@) {
            Some(fast_commit_table(*old(m))[key@])
        } else {
            None::<Vec<FastCommit>>
        }),
{
    m.remove(key).map(|(_, v)| v)
}

/// `DashMap::insert`: stores `value` under `key`, replacing any previous value.
#[verifier::external_body]
fn insert_fast_commits(m: &mut FastCommitTable, key: crate::types::hash::Hash, value: Vec<FastCommit>)
    ensures
        fast_commit_table(*final(m)) == fast_commit_table(*old(m)).insert(key@, value),
{
    m.insert(key, value);
}

/// Fast-commit votes collected per block hash, in arrival order.
pub struct FastCommitBuckets {
    table: FastCommitTable,
}

impl FastCommitBuckets {
    /// The fast commits per hash.
    pub closed spec fn view_map(&self) -> Map<Seq<u8>, Seq<FastCommit>> {
        fast_commit_table(self.table).map_values(|v: Vec<FastCommit>| v@)
    }

    /// The table holds finitely many hashes.
    pub closed spec fn wf(&self) -> bool {
        fast_commit_table(self.table).dom().finite()
    }

    /// An empty collection.
    pub fn new() -> (b: FastCommitBuckets)
        ensures
            b.wf(),
            b.view_map() == Map::<Seq<u8>, Seq<FastCommit>>::empty(),
    {
        let b = FastCommitBuckets { table: new_fast_commit_table() };
        assert(b.view_map() =~= Map::<Seq<u8>, Seq<FastCommit>>::empty());
        b
    }

    /// Appends `item` to the fast commits for `key`; returns how many `key` now has.
    pub fn push(&mut self, key: crate::types::hash::Hash, item: FastCommit) -> (n: usize)
        requires
            old(self).wf(),
        ensures
            final(self).wf(),
            final(self).view_map() == old(self).view_map().insert(key@, bucket_items(old(self).view_map(), key@).push(item)),
            n == bucket_items(old(self).view_map(), key@).len() + 1,
    {
        let ghost before = fast_commit_table(self.table);
        let mut items = match remove_fast_commits(&mut self.table, &key) {
            Some(v) => v,
            None => Vec::new(),
        };
        assert(items@ == bucket_items(old(self).view_map(), key@));
        items.push(item);
        let n = items.len();
        let ghost pushed = items;
        insert_fast_commits(&mut self.table, key, items);
        assert(fast_commit_table(self.table) =~= before.insert(key@, pushed));
        assert(self.view_map() =~= old(self).view_map().insert(key@, pushed@));
        n
    }

    /// Whether a fast commit from `node` is already recorded for `key`.
    pub fn has_committer(&mut self, key: &crate::types::hash::Hash, node: u64) -> (b: bool)
        requires
            old(self).wf(),
        ensures
            final(self).wf(),
            final(self).view_map() == old(self).view_map(),
            b == has_fast_committer(bucket_items(old(self).view_map(), key@), node),
    {
        let ghost before = fast_commit_table(self.table);
        match remove_fast_commits(&mut self.table, key) {
            Some(items) => {
                let mut found = false;
                let mut i: usize = 0;
                while i < items.len()
                    invariant
                        i <= items@.len(),
                        found <==> exists|t: int| 0 <= t < i && #[trigger] items@[t].node_id == node,
                    decreases items@.len() - i,
                {
                    if items[i].node_id == node {
                        found = true;
                    }
                    i = i + 1;
                }
                insert_fast_commits(&mut self.table, *key, items);
                assert(fast_commit_table(self.table) =~= before);
                found
            },
            None => {
                assert(fast_commit_table(self.table) =~= before);
                false
            },
        }
    }

    /// The number of fast commits for `key`, when it has an entry.
    pub fn count(&mut self, key: &crate::types::hash::Hash) -> (r: Option<usize>)
        requires
            old(self).wf(),
        ensures
            final(self).wf(),
            final(self).view_map() == old(self).view_map(),
            r is Some <==> old(self).view_map().contains_key(key@),
            r is Some ==> r->Some_0 == old(self).view_map()[key@].len(),
    {
        let ghost before = fast_commit_table(self.table);
        match remove_fast_commits(&mut self.table, key) {
            Some(items) => {
                let n = items.len();
                insert_fast_commits(&mut self.table, *key, items);
                assert(fast_commit_table(self.table) =~= before);
                Some(n)
            },
            None => {
                assert(fast_commit_table(self.table) =~= before);
                None
            },
        }
    }
}

// ---------------------------------------------------------------------------------------
// Timeouts per view.

/// Timeout reports per view.
pub type TimeoutTable = dashmap::DashMap<u64, Vec<Timeout>>;

/// The contents of a timeout table.
pub uninterp spec fn timeout_table(m: TimeoutTable) -> Map<u64, Vec<Timeout>>;

/// An empty table, from `DashMap::new`.
#[verifier::external_body]
fn new_timeout_table() -> (created: TimeoutTable)
    ensures
        timeout_table(created).dom() == Set::<u64>::empty(),
{
    dashmap::DashMap::new()
}

/// `DashMap::remove`: takes the entry of `key` out and returns its value.
#[verifier::external_body]
fn remove_timeouts(m: &mut TimeoutTable, key: u64) -> (r: Option<Vec<Timeout>>)
    ensures
        timeout_table(*final(m)) == timeout_table(*old(m)).remove(key),
        r == (if timeout_table(*old(m)).contains_key(key) { Some(timeout_table(*old(m))[key]) } else { None::<Vec<Timeout>> }),
{
    m.remove(&key).map(|(_, v)| v)
}

/// `DashMap::insert`: stores `value` under `key`, replacing any previous value.
#[verifier::external_body]
fn insert_timeouts(m: &mut TimeoutTable, key: u64, value: Vec<Timeout>)
    ensures
        timeout_table(*final(m)) == timeout_table(*old(m)).insert(key, value),
{
    m.insert(key, value);
}

/// `DashMap::clear`: removes every entry.
#[verifier::external_body]
fn clear_timeout_table(m: &mut TimeoutTable)
    ensures
        timeout_table(*final(m)).dom() == Set::<u64>::empty(),
{
    m.clear();
}

/// Timeout reports collected per view, in arrival order.
pub struct TimeoutBuckets {
    table: TimeoutTable,
}

impl TimeoutBuckets {
    /// The timeouts per view.
    pub closed spec fn view_map(&self) -> Map<u64, Seq<Timeout>> {
        timeout_table(self.table).map_values(|v: Vec<Timeout>| v@)
    }

    /// The table holds finitely many views.
    pub closed spec fn wf(&self) -> bool {
        timeout_table(self.table).dom().finite()
    }

    /// An empty collection.
    pub fn new() -> (b: TimeoutBuckets)
        ensures
            b.wf(),
            b.view_map() == Map::<u64, Seq<Timeout>>::empty(),
    {
        let b = TimeoutBuckets { table: new_timeout_table() };
        assert(b.view_map() =~= Map::<u64, Seq<Timeout>>::empty());
        b
    }

    /// Appends `item` to the timeouts of `key`; returns how many `key` now has.
    pub fn push(&mut self, key: u64, item: Timeout) -> (n: usize)
        requires
            old(self).wf(),
        ensures
            final(self).wf(),
            final(self).view_map() == old(self).view_map().insert(key, bucket_items(old(self).view_map(), key).push(item)),
            n == bucket_items(old(self).view_map(), key).len() + 1,
    {
        let ghost before = timeout_table(self.table);
        let mut items = match remove_timeouts(&mut self.table, key) {
            Some(v) => v,
            None => Vec::new(),
        };
        assert(items@ == bucket_items(old(self).view_map(), key));
        items.push(item);
        let n = items.len();
        let ghost pushed = items;
        insert_timeouts(&mut self.table, key, items);
        assert(timeout_table(self.table) =~= before.insert(key, pushed));
        assert(self.view_map() =~= old(self).view_map().insert(key, pushed@));
        n
    }

    /// Forgets every timeout.
    pub fn clear(&mut self)
        ensures
            final(self).wf(),
            final(self).view_map() == Map::<u64, Seq<Timeout>>::empty(),
    {
        clear_timeout_table(&mut self.table);
        assert(self.view_map() =~= Map::<u64, Seq<Timeout>>::empty());
    }
}

// ---------------------------------------------------------------------------------------
// Vote collectors per block hash.

/// Vote collectors per block hash.
pub type CollectorTable = dashmap::DashMap<crate::types::hash::Hash, VoteCollector>;

/// The contents of a collector table, keyed by the view of the block hash.
pub uninterp spec fn collector_table(m: CollectorTable) -> Map<Seq<u8>, VoteCollector>;

/// An empty table, from `DashMap::new`.
#[verifier::external_body]
fn new_collector_table() -> (created: CollectorTable)
    ensures
        collector_table(created).dom() == Set::<Seq<u8>>::empty(),
{
    dashmap::DashMap::new()
}

/// `DashMap::remove`: takes the entry of `key` out and returns its value.
#[verifier::external_body]
fn remove_collector(m: &mut CollectorTable, key: &crate::types::hash::Hash) -> (r: Option<VoteCollector>)
    ensures
        collector_table(*final(m)) == collector_table(*old(m)).remove(key@),
        r == (if collector_table(*old(m)).contains_key(key@) {
            Some(collector_table(*old(m))[key@])
        } else {
            None::<VoteCollector>
        }),
{
    m.remove(key).map(|(_, v)| v)
}

/// `DashMap::insert`: stores `value` under `key`, replacing any previous value.
#[verifier::external_body]
fn insert_collector(m: &mut CollectorTable, key: crate::types::hash::Hash, value: VoteCollector)
    ensures
        collector_table(*final(m)) == collector_table(*old(m)).insert(key@, value),
{
    m.insert(key, value);
}

/// A vote collector per block hash.
pub struct CollectorMap {
    table: CollectorTable,
}

impl CollectorMap {
    /// The collector per hash.
    pub closed spec fn view_map(&self) -> Map<Seq<u8>, VoteCollector> {
        collector_table(self.table)
    }

    /// The table holds finitely many hashes.
    pub closed spec fn wf(&self) -> bool {
        collector_table(self.table).dom().finite()
    }

    /// An empty map.
    pub fn new() -> (m: CollectorMap)
        ensures
            m.wf(),
            m.view_map() == Map::<Seq<u8>, VoteCollector>::empty(),
    {
        let m = CollectorMap { table: new_collector_table() };
        assert(m.view_map() =~= Map::<Seq<u8>, VoteCollector>::empty());
        m
    }

    /// Removes and returns the collector of `key`, if any.
    pub fn take(&mut self, key: &crate::types::hash::Hash) -> (r: Option<VoteCollector>)
        requires
            old(self).wf(),
        ensures
            final(self).wf(),
            r is Some <==> old(self).view_map().contains_key(key@),
            r is Some ==> r->Some_0 == old(self).view_map()[key@],
            final(self).view_map() == old(self).view_map().remove(key@),
    {
        remove_collector(&mut self.table, key)
    }

    /// Stores `value` under `key`, replacing any previous collector.
    pub fn put(&mut self, key: crate::types::hash::Hash, value: VoteCollector)
        requires
            old(self).wf(),
        ensures
            final(self).wf(),
            final(self).view_map() == old(self).view_map().insert(key@, value),
    {
        insert_collector(&mut self.table, key, value);
    }
}

// ---------------------------------------------------------------------------------------
// Timeout collectors per view.

/// Timeout collectors per view.
pub type TimeoutCollectorTable = dashmap::DashMap<u64, TimeoutCollector>;

/// The contents of a timeout-collector table.
pub uninterp spec fn timeout_collector_table(m: TimeoutCollectorTable) -> Map<u64, TimeoutCollector>;

/// An empty table, from `DashMap::new`.
#[verifier::external_body]
fn new_timeout_collector_table() -> (created: TimeoutCollectorTable)
    ensures
        timeout_collector_table(created).dom() == Set::<u64>::empty(),
{
    dashmap::DashMap::new()
}

/// `DashMap::remove`: takes the entry of `key` out and returns its value.
#[verifier::external_body]
fn remove_timeout_collector(m: &mut TimeoutCollectorTable, key: u64) -> (r: Option<TimeoutCollector>)
    ensures
        timeout_collector_table(*final(m)) == timeout_collector_table(*old(m)).remove(key),
        r == (if timeout_collector_table(*old(m)).contains_key(key) {
            Some(timeout_collector_table(*old(m))[key])
        } else {
            None::<TimeoutCollector>
        }),
{
    m.remove(&key).map(|(_, v)| v)
}

/// `DashMap::insert`: stores `value` under `key`, replacing any previous value.
#[verifier::external_body]
fn insert_timeout_collector(m: &mut TimeoutCollectorTable, key: u64, value: TimeoutCollector)
    ensures
        timeout_collector_table(*final(m)) == timeout_collector_table(*old(m)).insert(key, value),
{
    m.insert(key, value);
}

/// A timeout collector per view.
pub struct TimeoutCollectorMap {
    table: TimeoutCollectorTable,
}

impl TimeoutCollectorMap {
    /// The collector per view.
    pub closed spec fn view_map(&self) -> Map<u64, TimeoutCollector> {
        timeout_collector_table(self.table)
    }

    /// The table holds finitely many views.
    pub closed spec fn wf(&self) -> bool {
        timeout_collector_table(self.table).dom().finite()
    }

    /// An empty map.
    pub fn new() -> (m: TimeoutCollectorMap)
        ensures
            m.wf(),
            m.view_map() == Map::<u64, TimeoutCollector>::empty(),
    {
        let m = TimeoutCollectorMap { table: new_timeout_collector_table() };
        assert(m.view_map() =~= Map::<u64, TimeoutCollector>::empty());
        m
    }

    /// Removes and returns the collector of `key`, if any.
    pub fn take(&mut self, key: u64) -> (r: Option<TimeoutCollector>)
        requires
            old(self).wf(),
        ensures
            final(self).wf(),
            r is Some <==> old(self).view_map().contains_key(key),
            r is Some ==> r->Some_0 == old(self).view_map()[key],
            final(self).view_map() == old(self).view_map().remove(key),
    {
        remove_timeout_collector(&mut self.table, key)
    }

    /// Stores `value` under `key`, replacing any previous collector.
    pub fn put(&mut self, key: u64, value: TimeoutCollector)
        requires
            old(self).wf(),
        ensures
            final(self).wf(),
            final(self).view_map() == old(self).view_map().insert(key, value),
    {
        insert_timeout_collector(&mut self.table, key, value);
    }
}

// ---------------------------------------------------------------------------------------
// Blocks per hash.

/// Chained blocks per block hash.
pub type BlockTable = dashmap::DashMap<crate::types::hash::Hash, ChainedBlock>;

/// The contents of a block table, keyed by the view of the block hash.
pub uninterp spec fn block_table(m: BlockTable) -> Map<Seq<u8>, ChainedBlock>;

/// An empty table, from `DashMap::new`.
#[verifier::external_body]
fn new_block_table() -> (created: BlockTable)
    ensures
        block_table(created).dom() == Set::<Seq<u8>>::empty(),
{
    dashmap::DashMap::new()
}

/// `DashMap::insert`: stores `value` under `key`, replacing any previous value.
#[verifier::external_body]
fn insert_block(m: &mut BlockTable, key: crate::types::hash::Hash, value: ChainedBlock)
    ensures
        block_table(*final(m)) == block_table(*old(m)).insert(key@, value),
{
    m.insert(key, value);
}

/// The chained blocks a node has accepted, by hash.
pub struct BlockTree {
    table: BlockTable,
}

impl BlockTree {
    /// The block per hash.
    pub closed spec fn view_map(&self) -> Map<Seq<u8>, ChainedBlock> {
        block_table(self.table)
    }

    /// The table holds finitely many hashes.
    pub closed spec fn wf(&self) -> bool {
        block_table(self.table).dom().finite()
    }

    /// An empty tree.
    pub fn new() -> (t: BlockTree)
        ensures
            t.wf(),
            t.view_map() == Map::<Seq<u8>, ChainedBlock>::empty(),
    {
        let t = BlockTree { table: new_block_table() };
        assert(t.view_map() =~= Map::<Seq<u8>, ChainedBlock>::empty());
        t
    }

    /// Stores `value` under `key`, replacing any previous block.
    pub fn put(&mut self, key: crate::types::hash::Hash, value: ChainedBlock)
        requires
            old(self).wf(),
        ensures
            final(self).wf(),
            final(self).view_map() == old(self).view_map().insert(key@, value),
    {
        insert_block(&mut self.table, key, value);
    }
}

// ---------------------------------------------------------------------------------------
// Pipeline stages per view.

/// Pipeline stages per view.
pub type StageTable = dashmap::DashMap<u64, PipelineStage>;

/// The contents of a stage table.
pub uninterp spec fn stage_table(m: StageTable) -> Map<u64, PipelineStage>;

/// An empty table, from `DashMap::new`.
#[verifier::external_body]
pub(crate) fn new_stage_table() -> (created: StageTable)
    ensures
        stage_table(created).dom() == Set::<u64>::empty(),
{
    dashmap::DashMap::new()
}

/// `DashMap::remove`: takes the entry of `key` out and returns its value.
#[verifier::external_body]
pub(crate) fn remove_stage(m: &mut StageTable, key: u64) -> (r: Option<PipelineStage>)
    ensures
        stage_table(*final(m)) == stage_table(*old(m)).remove(key),
        r == (if stage_table(*old(m)).contains_key(key) { Some(stage_table(*old(m))[key]) } else { None::<PipelineStage> }),
{
    m.remove(&key).map(|(_, v)| v)
}

/// `DashMap::insert`: stores `value` under `key`, replacing any previous value.
#[verifier::external_body]
pub(crate) fn insert_stage(m: &mut StageTable, key: u64, value: PipelineStage)
    ensures
        stage_table(*final(m)) == stage_table(*old(m)).insert(key, value),
{
    m.insert(key, value);
}

/// `DashMap::len`: the number of entries.
#[verifier::external_body]
pub(crate) fn stage_count(m: &StageTable) -> (n: usize)
    ensures
        n == stage_table(*m).len(),
{
    m.len()
}

/// The keys of the table, from `DashMap::iter`, each once, in the table's own order.
#[verifier::external_body]
pub(crate) fn stage_keys(m: &StageTable) -> (keys: Vec<u64>)
    ensures
        keys@.to_set() == stage_table(*m).dom(),
        keys@.no_duplicates(),
{
    m.iter().map(|entry| *entry.key()).collect()
}

} // verus!
