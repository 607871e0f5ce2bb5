use vstd::prelude::*;
use crate::types::bytes::{append_bytes, append_u64_be, be_bytes};
use crate::types::hash::sha256;
use crate::types::timestamp::Timestamp;
use crate::types::transaction::{clone_transactions, Transaction, TransactionView};

verus! {

/// The mathematical value of a block.
pub struct BlockView {
    pub parent_hash: Seq<u8>,
    pub transactions: Seq<TransactionView>,
    pub height: u64,
    pub proposer_id: u64,
    pub timestamp: u64,
    pub hash: Seq<u8>,
}

/// A block of transactions, linked to its parent by hash.
#[derive(Debug)]
pub struct Block {
    pub parent_hash: crate::types::hash::Hash,
    pub transactions: Vec<Transaction>,
    pub height: u64,
    pub proposer_id: u64,
    pub timestamp: Timestamp,
    pub hash: crate::types::hash::Hash,
}

impl View for Block {
    type V = BlockView;

    open spec fn view(&self) -> BlockView {
        BlockView {
            parent_hash: self.parent_hash@,
            transactions: self.transactions@.map_values(|t: Transaction| t@),
            height: self.height,
            proposer_id: self.proposer_id,
            timestamp: self.timestamp.0,
            hash: self.hash@,
        }
    }
}

/// The concatenated payloads of a list of transactions.
pub open spec fn payloads(txs: Seq<TransactionView>) -> Seq<u8>
    decreases txs.len(),
{
    if txs.len() == 0 {
        Seq::empty()
    } else {
        payloads(txs.drop_last()) + txs.last().data
    }
}

/// The bytes a block hash is computed over: parent hash, big-endian height, proposer and
/// timestamp, then every transaction payload in order.
pub open spec fn block_preimage(
    parent_hash: Seq<u8>,
    height: u64,
    proposer_id: u64,
    timestamp: u64,
    txs: Seq<TransactionView>,
) -> Seq<u8> {
    parent_hash + be_bytes(height) + be_bytes(proposer_id) + be_bytes(timestamp) + payloads(txs)
}

/// Whether a block's hash is the digest of its own contents.
pub open spec fn block_hash_consistent(b: BlockView) -> bool {
    b.hash == sha256(block_preimage(b.parent_hash, b.height, b.proposer_id, b.timestamp, b.transactions))
}

impl Block {
    /// Builds a block stamped with the current time; its hash covers every field but itself.
    pub fn new(
        parent_hash: crate::types::hash::Hash,
        transactions: Vec<Transaction>,
        height: u64,
        proposer_id: u64,
    ) -> (b: Block)
        ensures
            b@.parent_hash == parent_hash@,
            b@.transactions == transactions@.map_values(|t: Transaction| t@),
            b@.height == height,
            b@.proposer_id == proposer_id,
            block_hash_consistent(b@),
    {
        let timestamp = Timestamp::now();
        let mut data: Vec<u8> = Vec::new();
        append_bytes(&mut data, parent_hash.as_bytes());
        append_u64_be(&mut data, height);
        append_u64_be(&mut data, proposer_id);
        append_u64_be(&mut data, timestamp.as_u64());
        let ghost prefix = data@;
        let ghost txv = transactions@.map_values(|t: Transaction| t@);
        let mut i: usize = 0;
        while i < transactions.len()
            invariant
                i <= transactions@.len(),
                txv == transactions@.map_values(|t: Transaction| t@),
                data@ == prefix + payloads(txv.subrange(0, i as int)),
            decreases transactions@.len() - i,
        {
            append_bytes(&mut data, transactions[i].data.as_slice());
            proof {
                assert(txv.subrange(0, i + 1).drop_last() =~= txv.subrange(0, i as int));
            }
            i = i + 1;
        }
        assert(txv.subrange(0, transactions@.len() as int) =~= txv);
        let hash = crate::types::hash::Hash::from_bytes(data.as_slice());
        Block { parent_hash, transactions, height, proposer_id, timestamp, hash }
    }

    /// The hash of the block.
    pub fn hash(&self) -> (h: crate::types::hash::Hash)
        ensures
            h@ == self@.hash,
    {
        self.hash
    }
}

impl Clone for Block {
    fn clone(&self) -> (b: Block)
        ensures
            b@ == self@,
    {
        Block {
            parent_hash: self.parent_hash,
            transactions: clone_transactions(&self.transactions),
            height: self.height,
            proposer_id: self.proposer_id,
            timestamp: self.timestamp,
            hash: self.hash,
        }
    }
}

} // verus!
