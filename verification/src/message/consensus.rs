use vstd::prelude::*;
use crate::types::quorum_cert::{QuorumCert, QuorumCertView};
use crate::types::signature::{Signature, SignatureView};

verus! {

/// A leader's proposal of a block, named by its hash.
#[derive(Debug)]
pub struct ConsensusProposal {
    pub block_hash: crate::types::hash::Hash,
    pub view: u64,
    pub node_id: u64,
    pub qc: Option<QuorumCert>,
}

/// A node's vote for a block in a view.
#[derive(Debug)]
pub struct Vote {
    pub block_hash: crate::types::hash::Hash,
    pub view: u64,
    pub node_id: u64,
    pub signature: Signature,
}

/// A node's report that a view timed out.
#[derive(Debug)]
pub struct Timeout {
    pub view: u64,
    pub node_id: u64,
    pub high_qc: Option<QuorumCert>,
    pub signature: Signature,
}

/// A node's announcement that it entered a new view.
#[derive(Debug)]
pub struct NewView {
    pub view: u64,
    pub node_id: u64,
    pub high_qc: Option<QuorumCert>,
}

/// A node's fast-path commit vote for a block.
#[derive(Debug)]
pub struct FastCommit {
    pub block_hash: crate::types::hash::Hash,
    pub view: u64,
    pub node_id: u64,
    pub signature: Signature,
}

/// The consensus messages exchanged between nodes.
#[derive(Debug)]
pub enum ConsensusMsg {
    Proposal(ConsensusProposal),
    Vote(Vote),
    Timeout(Timeout),
    NewView(NewView),
    FastCommit(FastCommit),
}

/// The view of an optional certificate.
pub open spec fn opt_qc_view(qc: Option<QuorumCert>) -> Option<QuorumCertView> {
    match qc {
        Some(q) => Some(q@),
        None => None,
    }
}

/// Copies an optional certificate.
pub fn clone_opt_qc(qc: &Option<QuorumCert>) -> (r: Option<QuorumCert>)
    ensures
        opt_qc_view(r) == opt_qc_view(*qc),
{
    match qc {
        Some(q) => Some(q.clone()),
        None => None,
    }
}

/// The signatures carried by a list of votes, in order.
pub open spec fn vote_signatures(votes: Seq<Vote>) -> Seq<SignatureView> {
    votes.map_values(|v: Vote| v.signature@)
}

/// Collects copies of the signatures of a list of votes.
pub fn collect_vote_signatures(votes: &Vec<Vote>) -> (sigs: Vec<Signature>)
    ensures
        sigs@.map_values(|s: Signature| s@) == vote_signatures(votes@),
{
    let mut sigs: Vec<Signature> = Vec::new();
    let mut i: usize = 0;
    while i < votes.len()
        invariant
            i <= votes@.len(),
            sigs@.len() == i,
            forall|j: int| 0 <= j < i ==> #[trigger] sigs@[j]@ == votes@[j].signature@,
        decreases votes@.len() - i,
    {
        sigs.push(votes[i].signature.clone());
        i = i + 1;
    }
    assert(sigs@.map_values(|s: Signature| s@) =~= vote_signatures(votes@));
    sigs
}

} // verus!
