use vstd::prelude::*;
use crate::error::HotStuffError;
use crate::types::block::Block;
use crate::types::bytes::append_bytes;
use crate::types::hash::sha256;

verus! {

/// The state hash of a mock state machine that executed blocks with the given hashes: the
/// SHA-256 digest of the hashes laid end to end.
pub open spec fn mock_state_hash(executed: Seq<Seq<u8>>) -> Seq<u8> {
    sha256(executed.flatten())
}

/// A state machine for tests that only remembers which blocks it executed.
pub struct MockStateMachine {
    executed_blocks: Vec<crate::types::hash::Hash>,
}

impl MockStateMachine {
    /// The hashes of the executed blocks, in execution order.
    pub closed spec fn executed(&self) -> Seq<Seq<u8>> {
        self.executed_blocks@.map_values(|h: crate::types::hash::Hash| h@)
    }

    /// A state machine that executed nothing.
    pub fn new() -> (m: MockStateMachine)
        ensures
            m.executed() == Seq::<Seq<u8>>::empty(),
    {
        let m = MockStateMachine { executed_blocks: Vec::new() };
        assert(m.executed() =~= Seq::<Seq<u8>>::empty());
        m
    }

    /// Executes `block` by remembering its hash.
    pub fn execute_block(&mut self, block: &Block) -> (r: Result<(), HotStuffError>)
        ensures
            r is Ok,
            final(self).executed() == old(self).executed().push(block.hash@),
    {
        self.executed_blocks.push(block.hash);
        assert(self.executed() =~= old(self).executed().push(block.hash@));
        Ok(())
    }

    /// The state hash: the digest of the executed blocks' hashes laid end to end.
    pub fn get_state_hash(&self) -> (h: crate::types::hash::Hash)
        ensures
            h@ == mock_state_hash(self.executed()),
    {
        let mut data: Vec<u8> = Vec::new();
        let mut i: usize = 0;
        while i < self.executed_blocks.len()
            invariant
                i <= self.executed_blocks@.len(),
                data@ == self.executed().subrange(0, i as int).flatten(),
            decreases self.executed_blocks@.len() - i,
        {
            let ghost prefix = self.executed().subrange(0, i as int);
            append_bytes(&mut data, self.executed_blocks[i].as_bytes());
            proof {
                assert(self.executed().subrange(0, i + 1) =~= prefix.push(self.executed_blocks@[i as int]@));
                prefix.lemma_flatten_push(self.executed_blocks@[i as int]@);
            }
            i = i + 1;
        }
        assert(self.executed().subrange(0, self.executed().len() as int) =~= self.executed());
        crate::types::hash::Hash::from_bytes(data.as_slice())
    }
}

/// Kinds of Byzantine behavior to inject in tests.
#[derive(Debug, Clone, Copy, PartialEq, Eq, Structural)]
pub enum ByzantineBehaviorType {
    Equivocation,
    DelayedMessages,
    InvalidSignatures,
    DropMessages,
    CorruptedMessages,
    ForceViewChange,
}

/// Statistics of one node.
#[derive(Debug, Clone, Copy)]
pub struct NodeStats {
    pub node_id: u64,
    pub current_height: u64,
    pub current_view: u64,
    pub is_synchronous: bool,
    pub pending_transactions: usize,
    pub pipeline_stages: usize,
}

/// Statistics of the whole system.
#[derive(Debug, Clone)]
pub struct SystemStats {
    pub node_stats: Vec<NodeStats>,
    pub total_transactions: usize,
    pub total_blocks: u64,
    pub synchronous_nodes: usize,
    pub total_nodes: usize,
}

/// The pending transactions of the first `n` nodes, summed.
pub open spec fn sum_pending(s: Seq<NodeStats>, n: int) -> int
    decreases n,
{
    if n <= 0 { 0 } else { sum_pending(s, n - 1) + s[n - 1].pending_transactions }
}

/// The heights of the first `n` nodes, summed.
pub open spec fn sum_heights(s: Seq<NodeStats>, n: int) -> int
    decreases n,
{
    if n <= 0 { 0 } else { sum_heights(s, n - 1) + s[n - 1].current_height }
}

/// The number of synchronous nodes among the first `n`.
pub open spec fn count_synchronous(s: Seq<NodeStats>, n: int) -> int
    decreases n,
{
    if n <= 0 { 0 } else { count_synchronous(s, n - 1) + if s[n - 1].is_synchronous { 1int } else { 0int } }
}

proof fn lemma_sums_monotone(s: Seq<NodeStats>, i: int, j: int)
    requires
        0 <= i <= j <= s.len(),
    ensures
        sum_pending(s, i) <= sum_pending(s, j),
        sum_heights(s, i) <= sum_heights(s, j),
        count_synchronous(s, i) <= count_synchronous(s, j),
        count_synchronous(s, j) <= j,
    decreases j,
{
    if j > 0 {
        if i < j {
            lemma_sums_monotone(s, i, j - 1);
        } else {
            lemma_sums_monotone(s, j - 1, j - 1);
        }
    }
}

impl SystemStats {
    /// Sums the per-node statistics: pending transactions, committed heights and synchronous
    /// nodes, over `total_nodes` nodes.
    pub fn from_node_stats(node_stats: Vec<NodeStats>, total_nodes: usize) -> (s: SystemStats)
        requires
            sum_pending(node_stats@, node_stats@.len() as int) <= usize::MAX,
            sum_heights(node_stats@, node_stats@.len() as int) <= u64::MAX,
        ensures
            s.node_stats@ == node_stats@,
            s.total_transactions == sum_pending(node_stats@, node_stats@.len() as int),
            s.total_blocks == sum_heights(node_stats@, node_stats@.len() as int),
            s.synchronous_nodes == count_synchronous(node_stats@, node_stats@.len() as int),
            s.total_nodes == total_nodes,
    {
        let mut total_transactions: usize = 0;
        let mut total_blocks: u64 = 0;
        let mut synchronous_nodes: usize = 0;
        let mut i: usize = 0;
        let n = node_stats.len();
        while i < n
            invariant
                n == node_stats@.len(),
                i <= n,
                sum_pending(node_stats@, n as int) <= usize::MAX,
                sum_heights(node_stats@, n as int) <= u64::MAX,
                total_transactions == sum_pending(node_stats@, i as int),
                total_blocks == sum_heights(node_stats@, i as int),
                synchronous_nodes == count_synchronous(node_stats@, i as int),
            decreases n - i,
        {
            proof {
                lemma_sums_monotone(node_stats@, i + 1, n as int);
                lemma_sums_monotone(node_stats@, 0, i + 1);
            }
            total_transactions = total_transactions + node_stats[i].pending_transactions;
            total_blocks = total_blocks + node_stats[i].current_height;
            if node_stats[i].is_synchronous {
                synchronous_nodes = synchronous_nodes + 1;
            }
            i = i + 1;
        }
        SystemStats { node_stats, total_transactions, total_blocks, synchronous_nodes, total_nodes }
    }
}

} // verus!
