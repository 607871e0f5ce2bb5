use vstd::prelude::*;
use crate::types::block::{Block, BlockView};
use crate::types::timestamp::Timestamp;

verus! {

/// A block proposed by a leader, stamped with the time of the proposal.
#[derive(Debug)]
pub struct Proposal {
    pub block: Block,
    pub timestamp: Timestamp,
}

impl Proposal {
    /// Wraps a block into a proposal stamped with the current time.
    pub fn new(block: Block) -> (p: Proposal)
        ensures
            p.block@ == block@,
    {
        Proposal { block, timestamp: Timestamp::now() }
    }

    /// The mathematical value of the proposed block.
    pub open spec fn block_view(&self) -> BlockView {
        self.block@
    }
}

impl Clone for Proposal {
    fn clone(&self) -> (p: Proposal)
        ensures
            p.block@ == self.block@,
            p.timestamp == self.timestamp,
    {
        Proposal { block: self.block.clone(), timestamp: self.timestamp }
    }
}

} // verus!
