use vstd::prelude::*;
use std::collections::HashMap;
use crate::error::HotStuffError;
use crate::message::consensus::{clone_opt_qc, opt_qc_view};
use crate::protocol::maps::{BlockTree, CollectorMap, TimeoutCollectorMap};
use crate::protocol::hotstuff2::{fault_bound, node_ids, opt_hash_view};
use crate::storage::block_store::BlockStore;
use crate::timer::clock::{elapsed_nanos, instant_now};
use crate::types::block::{Block, BlockView};
use crate::types::bytes::copy_bytes;
use crate::types::hash::zero_hash;
use crate::types::proposal::Proposal;
use crate::types::quorum_cert::{QuorumCert, QuorumCertView};
use crate::types::signature::{Signature, SignatureView};
use crate::types::transaction::Transaction;

verus! {

broadcast use {vstd::std_specs::hash::group_hash_axioms, vstd::seq_lib::group_seq_properties};

/// The two phases of a HotStuff-2 view.
#[derive(Debug, Clone, Copy, PartialEq, Eq, Structural)]
pub enum Phase {
    /// The leader proposes and replicas vote.
    Propose,
    /// A certificate is formed and the block can be committed.
    Commit,
}

/// A view: its number, leader, start time and time limit in milliseconds.
#[derive(Debug, Clone, Copy)]
pub struct HotStuffView {
    pub number: u64,
    pub leader: u64,
    pub start_time: std::time::Instant,
    /// The time limit of the view, in milliseconds.
    pub timeout_duration: u64,
}

impl HotStuffView {
    /// A view starting now.
    pub fn new(number: u64, leader: u64, timeout: u64) -> (v: HotStuffView)
        ensures
            v.number == number,
            v.leader == leader,
            v.timeout_duration == timeout,
    {
        HotStuffView { number, leader, start_time: instant_now(), timeout_duration: timeout }
    }

    /// Whether the view has run out of time once `elapsed` nanoseconds have passed since it started.
    pub fn expired_after(&self, elapsed: u128) -> (b: bool)
        ensures
            b == (elapsed > self.timeout_duration as u128 * 1_000_000),
    {
        elapsed > self.timeout_duration as u128 * 1_000_000
    }

    /// Whether the view has run out of time, by the clock.
    pub fn is_expired(&self) -> (b: bool) {
        self.expired_after(elapsed_nanos(&self.start_time))
    }
}

/// A block together with the certificate that justifies it and the view it was proposed in.
#[derive(Debug)]
pub struct ChainedBlock {
    pub block: Block,
    pub qc: Option<QuorumCert>,
    pub view: u64,
}

impl ChainedBlock {
    /// Chains a block to its justifying certificate.
    pub fn new(block: Block, qc: Option<QuorumCert>, view: u64) -> (c: ChainedBlock)
        ensures
            c.block@ == block@,
            opt_qc_view(c.qc) == opt_qc_view(qc),
            c.view == view,
    {
        ChainedBlock { block, qc, view }
    }
}

/// The mathematical value of a HotStuff-2 state.
pub struct HotStuffStateView {
    pub view: u64,
    pub phase: Phase,
    pub locked_qc: Option<QuorumCertView>,
    pub prep_qc: Option<QuorumCertView>,
    pub high_qc: Option<QuorumCertView>,
    pub b_lock: Option<Seq<u8>>,
    pub b_exec: Option<Seq<u8>>,
    pub b_leaf: Option<Seq<u8>>,
    pub last_voted_view: u64,
    pub committed_height: u64,
    pub executed_height: u64,
}

/// The HotStuff-2 protocol variables.
#[derive(Debug)]
pub struct HotStuffState {
    pub view: u64,
    pub phase: Phase,
    pub locked_qc: Option<QuorumCert>,
    pub prep_qc: Option<QuorumCert>,
    pub high_qc: Option<QuorumCert>,
    pub b_lock: Option<crate::types::hash::Hash>,
    pub b_exec: Option<crate::types::hash::Hash>,
    pub b_leaf: Option<crate::types::hash::Hash>,
    pub last_voted_view: u64,
    pub committed_height: u64,
    pub executed_height: u64,
}

impl View for HotStuffState {
    type V = HotStuffStateView;

    open spec fn view(&self) -> HotStuffStateView {
        HotStuffStateView {
            view: self.view,
            phase: self.phase,
            locked_qc: opt_qc_view(self.locked_qc),
            prep_qc: opt_qc_view(self.prep_qc),
            high_qc: opt_qc_view(self.high_qc),
            b_lock: opt_hash_view(self.b_lock),
            b_exec: opt_hash_view(self.b_exec),
            b_leaf: opt_hash_view(self.b_leaf),
            last_voted_view: self.last_voted_view,
            committed_height: self.committed_height,
            executed_height: self.executed_height,
        }
    }
}

/// The state of a node that has seen nothing yet.
pub open spec fn initial_hotstuff_state() -> HotStuffStateView {
    HotStuffStateView {
        view: 0,
        phase: Phase::Propose,
        locked_qc: None,
        prep_qc: None,
        high_qc: None,
        b_lock: None,
        b_exec: None,
        b_leaf: None,
        last_voted_view: 0,
        committed_height: 0,
        executed_height: 0,
    }
}

impl Default for HotStuffState {
    fn default() -> (s: HotStuffState)
        ensures
            s@ == initial_hotstuff_state(),
    {
        HotStuffState {
            view: 0,
            phase: Phase::Propose,
            locked_qc: None,
            prep_qc: None,
            high_qc: None,
            b_lock: None,
            b_exec: None,
            b_leaf: None,
            last_voted_view: 0,
            committed_height: 0,
            executed_height: 0,
        }
    }
}

/// A vote for a block, sent to the leader.
#[derive(Debug)]
pub struct EngineVote {
    pub block_hash: crate::types::hash::Hash,
    pub height: u64,
    pub sender_id: u64,
    pub signature: Vec<u8>,
}

/// The mathematical value of a timeout report.
pub struct EngineTimeoutView {
    pub height: u64,
    pub sender_id: u64,
    pub high_qc: QuorumCertView,
    pub signature: Seq<u8>,
}

/// A report that a view timed out, carrying the sender's high certificate.
#[derive(Debug)]
pub struct EngineTimeout {
    pub height: u64,
    pub sender_id: u64,
    pub high_qc: QuorumCert,
    pub signature: Vec<u8>,
}

impl View for EngineTimeout {
    type V = EngineTimeoutView;

    open spec fn view(&self) -> EngineTimeoutView {
        EngineTimeoutView {
            height: self.height,
            sender_id: self.sender_id,
            high_qc: self.high_qc@,
            signature: self.signature@,
        }
    }
}

impl Clone for EngineTimeout {
    fn clone(&self) -> (t: EngineTimeout)
        ensures
            t@ == self@,
    {
        EngineTimeout {
            height: self.height,
            sender_id: self.sender_id,
            high_qc: self.high_qc.clone(),
            signature: copy_bytes(self.signature.as_slice()),
        }
    }
}

/// A new leader's announcement of the view it leads.
#[derive(Debug, Clone, Copy)]
pub struct EngineNewView {
    pub new_view_for_height: u64,
    pub new_view_for_round: u64,
    pub sender_id: u64,
}

/// Whether `sigs` lists the votes of `votes` once each, in some order: one signature per
/// sender, carrying that sender's vote signature.
pub open spec fn lists_votes(sigs: Seq<SignatureView>, votes: Map<u64, EngineVote>) -> bool {
    &&& sigs.len() == votes.len()
    &&& forall|i: int| 0 <= i < sigs.len() ==> {
        &&& #[trigger] votes.contains_key(sigs[i].signer)
        &&& sigs[i].data == votes[sigs[i].signer].signature@
    }
    &&& forall|k: u64| #[trigger] votes.contains_key(k) ==> exists|i: int| 0 <= i < sigs.len() && #[trigger] sigs[i].signer == k
}

/// Collects the votes for one block, one per sender, and forms a certificate at the threshold.
#[derive(Debug)]
pub struct VoteCollector {
    votes: HashMap<u64, EngineVote>,
    threshold: usize,
    block_hash: crate::types::hash::Hash,
    view: u64,
}

impl VoteCollector {
    /// The accepted votes, by sender.
    pub closed spec fn votes(&self) -> Map<u64, EngineVote> {
        self.votes@
    }

    /// The number of distinct voters that forms a certificate.
    pub closed spec fn threshold(&self) -> nat {
        self.threshold as nat
    }

    /// The block the votes are for.
    pub closed spec fn block_hash(&self) -> Seq<u8> {
        self.block_hash@
    }

    /// The view the certificate is formed in.
    pub closed spec fn view(&self) -> u64 {
        self.view
    }

    /// Every vote is stored under its own sender.
    pub closed spec fn wf(&self) -> bool {
        forall|k: u64| #[trigger] self.votes@.contains_key(k) ==> self.votes@[k].sender_id == k
    }

    /// A collector holds finitely many votes, each under its own sender.
    pub proof fn lemma_votes(&self)
        requires
            self.wf(),
        ensures
            self.votes().dom().finite(),
            forall|k: u64| #[trigger] self.votes().contains_key(k) ==> self.votes()[k].sender_id == k,
    {
    }

    /// An empty collector.
    pub fn new(threshold: usize, block_hash: crate::types::hash::Hash, view: u64) -> (c: VoteCollector)
        ensures
            c.wf(),
            c.votes() == Map::<u64, EngineVote>::empty(),
            c.threshold() == threshold,
            c.block_hash() == block_hash@,
            c.view() == view,
    {
        VoteCollector { votes: HashMap::new(), threshold, block_hash, view }
    }

    /// The signatures of the accepted votes, one per sender, in the order the map hands them
    /// out.
    fn signatures(&self) -> (sigs: Vec<Signature>)
        requires
            self.wf(),
        ensures
            lists_votes(sigs@.map_values(|s: Signature| s@), self.votes()),
    {
        let m = &self.votes;
        let mut sigs: Vec<Signature> = Vec::new();
        let ghost mut seen: Seq<EngineVote> = Seq::empty();
        let vals = m.values();
        for v in it: vals
            invariant
                forall|k: u64| #[trigger] m@.contains_key(k) ==> m@[k].sender_id == k,
                sigs@.len() == it.index(),
                seen.len() == it.index(),
                it.seq().len() == m@.len(),
                it.seq().unref().to_set() == m@.values(),
                it.seq().unref().take(it.index()) == seen,
                forall|j: int| 0 <= j < it.index() ==> #[trigger] sigs@[j]@ == (SignatureView {
                    signer: seen[j].sender_id,
                    data: seen[j].signature@,
                }),
                forall|j: int| 0 <= j < it.index() ==> #[trigger] m@.contains_key(sigs@[j]@.signer)
                    && m@[sigs@[j]@.signer].signature@ == sigs@[j]@.data,
            ensures
                sigs@.len() == m@.len(),
                seen.len() == m@.len(),
                seen.to_set() == m@.values(),
                forall|j: int| 0 <= j < sigs@.len() ==> #[trigger] sigs@[j]@ == (SignatureView {
                    signer: seen[j].sender_id,
                    data: seen[j].signature@,
                }),
                forall|j: int| 0 <= j < sigs@.len() ==> #[trigger] m@.contains_key(sigs@[j]@.signer)
                    && m@[sigs@[j]@.signer].signature@ == sigs@[j]@.data,
        {
            proof {
                let x = *v;
                assert(it.seq().unref().contains(x));
                assert(m@.values().contains(x));
                let k = choose|k: u64| #[trigger] m@.contains_key(k) && m@[k] == x;
                assert(k == x.sender_id);
            }
            sigs.push(Signature::new(v.sender_id, copy_bytes(v.signature.as_slice())));
            proof {
                seen = seen.push(*v);
                assert(it.seq().unref().take(it.index() + 1) =~= seen);
            }
        }
        proof {
            let views = sigs@.map_values(|s: Signature| s@);
            assert forall|k: u64| #[trigger] m@.contains_key(k) implies exists|i: int| 0 <= i < views.len() && #[trigger] views[i].signer == k by {
                assert(m@.values().contains(m@[k]));
                assert(seen.to_set().contains(m@[k]));
                let j = choose|j: int| 0 <= j < seen.len() && seen[j] == m@[k];
                assert(views[j].signer == k);
            }
        }
        sigs
    }

    /// Adds a vote unless its sender already voted; returns the certificate made of all
    /// accepted votes once they reach the threshold.
    pub fn add_vote(&mut self, vote: EngineVote) -> (r: Option<QuorumCert>)
        requires
            old(self).wf(),
        ensures
            final(self).wf(),
            final(self).threshold() == old(self).threshold(),
            final(self).block_hash() == old(self).block_hash(),
            final(self).view() == old(self).view(),
            old(self).votes().contains_key(vote.sender_id) ==> r is None && final(self).votes() == old(self).votes(),
            !old(self).votes().contains_key(vote.sender_id) ==> {
                &&& final(self).votes() == old(self).votes().insert(vote.sender_id, vote)
                &&& (r is Some <==> final(self).votes().len() >= final(self).threshold())
            },
            r is Some ==> {
                &&& r->Some_0@.block_hash == old(self).block_hash()
                &&& r->Some_0@.height == old(self).view()
                &&& lists_votes(r->Some_0@.signatures, final(self).votes())
                &&& r->Some_0@.threshold_signature is None
            },
    {
        if self.votes.contains_key(&vote.sender_id) {
            return None;
        }
        let sender = vote.sender_id;
        self.votes.insert(sender, vote);
        if self.votes.len() >= self.threshold {
            let signatures = self.signatures();
            Some(QuorumCert::new(self.block_hash, self.view, signatures))
        } else {
            None
        }
    }
}

/// Whether `out` lists the timeouts of `timeouts` once each, in some order.
pub open spec fn lists_timeouts(out: Seq<EngineTimeoutView>, timeouts: Map<u64, EngineTimeout>) -> bool {
    &&& out.len() == timeouts.len()
    &&& forall|i: int| 0 <= i < out.len() ==> {
        &&& #[trigger] timeouts.contains_key(out[i].sender_id)
        &&& out[i] == timeouts[out[i].sender_id]@
    }
    &&& forall|k: u64| #[trigger] timeouts.contains_key(k) ==> exists|i: int| 0 <= i < out.len() && #[trigger] out[i].sender_id == k
}

/// The views of a list of timeouts.
pub open spec fn timeout_views(timeouts: Seq<EngineTimeout>) -> Seq<EngineTimeoutView> {
    timeouts.map_values(|t: EngineTimeout| t@)
}

/// Collects the timeouts for one view, one per sender.
#[derive(Debug)]
pub struct TimeoutCollector {
    timeouts: HashMap<u64, EngineTimeout>,
    threshold: usize,
    view: u64,
}

impl TimeoutCollector {
    /// The accepted timeouts, by sender.
    pub closed spec fn timeouts(&self) -> Map<u64, EngineTimeout> {
        self.timeouts@
    }

    /// The number of distinct senders that triggers a view change.
    pub closed spec fn threshold(&self) -> nat {
        self.threshold as nat
    }

    /// The view the timeouts are for.
    pub closed spec fn view(&self) -> u64 {
        self.view
    }

    /// Every timeout is stored under its own sender.
    pub closed spec fn wf(&self) -> bool {
        forall|k: u64| #[trigger] self.timeouts@.contains_key(k) ==> self.timeouts@[k].sender_id == k
    }

    /// An empty collector.
    pub fn new(threshold: usize, view: u64) -> (c: TimeoutCollector)
        ensures
            c.wf(),
            c.timeouts() == Map::<u64, EngineTimeout>::empty(),
            c.threshold() == threshold,
            c.view() == view,
    {
        TimeoutCollector { timeouts: HashMap::new(), threshold, view }
    }

    /// Copies of the accepted timeouts, one per sender, in the order the map hands them out.
    fn collected(&self) -> (out: Vec<EngineTimeout>)
        requires
            self.wf(),
        ensures
            lists_timeouts(timeout_views(out@), self.timeouts()),
    {
        let m = &self.timeouts;
        let mut out: Vec<EngineTimeout> = Vec::new();
        let ghost mut seen: Seq<EngineTimeout> = Seq::empty();
        let vals = m.values();
        for t in it: vals
            invariant
                forall|k: u64| #[trigger] m@.contains_key(k) ==> m@[k].sender_id == k,
                out@.len() == it.index(),
                seen.len() == it.index(),
                it.seq().len() == m@.len(),
                it.seq().unref().to_set() == m@.values(),
                it.seq().unref().take(it.index()) == seen,
                forall|j: int| 0 <= j < it.index() ==> #[trigger] out@[j]@ == seen[j]@,
                forall|j: int| 0 <= j < it.index() ==> #[trigger] m@.contains_key(out@[j]@.sender_id)
                    && m@[out@[j]@.sender_id]@ == out@[j]@,
            ensures
                out@.len() == m@.len(),
                seen.len() == m@.len(),
                seen.to_set() == m@.values(),
                forall|j: int| 0 <= j < out@.len() ==> #[trigger] out@[j]@ == seen[j]@,
                forall|j: int| 0 <= j < out@.len() ==> #[trigger] m@.contains_key(out@[j]@.sender_id)
                    && m@[out@[j]@.sender_id]@ == out@[j]@,
        {
            proof {
                let x = *t;
                assert(it.seq().unref().contains(x));
                assert(m@.values().contains(x));
                let k = choose|k: u64| #[trigger] m@.contains_key(k) && m@[k] == x;
                assert(k == x.sender_id);
            }
            out.push(t.clone());
            proof {
                seen = seen.push(*t);
                assert(it.seq().unref().take(it.index() + 1) =~= seen);
            }
        }
        proof {
            let views = timeout_views(out@);
            assert forall|k: u64| #[trigger] m@.contains_key(k) implies exists|i: int| 0 <= i < views.len() && #[trigger] views[i].sender_id == k by {
                assert(m@.values().contains(m@[k]));
                assert(seen.to_set().contains(m@[k]));
                let j = choose|j: int| 0 <= j < seen.len() && seen[j] == m@[k];
                assert(views[j].sender_id == k);
            }
        }
        out
    }

    /// Adds a timeout unless its sender already reported one; returns all accepted timeouts
    /// once they reach the threshold.
    pub fn add_timeout(&mut self, timeout: EngineTimeout) -> (r: Option<Vec<EngineTimeout>>)
        requires
            old(self).wf(),
        ensures
            final(self).wf(),
            final(self).threshold() == old(self).threshold(),
            final(self).view() == old(self).view(),
            old(self).timeouts().contains_key(timeout.sender_id) ==> r is None && final(self).timeouts() == old(self).timeouts(),
            !old(self).timeouts().contains_key(timeout.sender_id) ==> {
                &&& final(self).timeouts() == old(self).timeouts().insert(timeout.sender_id, timeout)
                &&& (r is Some <==> final(self).timeouts().len() >= final(self).threshold())
            },
            r is Some ==> lists_timeouts(timeout_views(r->Some_0@), final(self).timeouts()),
    {
        if self.timeouts.contains_key(&timeout.sender_id) {
            return None;
        }
        let sender = timeout.sender_id;
        self.timeouts.insert(sender, timeout);
        if self.timeouts.len() >= self.threshold {
            Some(self.collected())
        } else {
            None
        }
    }
}

/// Tracks whether the protocol made progress recently enough to call the network synchronous.
#[derive(Debug)]
pub struct SynchronyDetector {
    last_progress: std::time::Instant,
    /// The window, in milliseconds, within which progress must be seen.
    sync_window: u64,
    is_synchronous: bool,
}

impl SynchronyDetector {
    /// Whether the network is currently considered synchronous.
    pub closed spec fn synchronous(&self) -> bool {
        self.is_synchronous
    }

    /// The progress window, in milliseconds.
    pub closed spec fn window(&self) -> u64 {
        self.sync_window
    }

    /// The moment progress was last recorded.
    pub closed spec fn last_progress(&self) -> std::time::Instant {
        self.last_progress
    }

    /// A detector that considers the network synchronous, with a five-second window.
    pub fn new() -> (d: SynchronyDetector)
        ensures
            d.synchronous(),
            d.window() == 5000,
    {
        SynchronyDetector { last_progress: instant_now(), sync_window: 5000, is_synchronous: true }
    }

    /// Records progress now: the network is considered synchronous again.
    pub fn record_progress(&mut self)
        ensures
            final(self).synchronous(),
            final(self).window() == old(self).window(),
    {
        self.last_progress = instant_now();
        self.is_synchronous = true;
    }

    /// Updates the verdict given the nanoseconds elapsed since the last progress: synchrony is
    /// lost once the window is exceeded, and only progress restores it.
    pub fn observe(&mut self, elapsed: u128) -> (b: bool)
        ensures
            final(self).window() == old(self).window(),
            final(self).last_progress() == old(self).last_progress(),
            final(self).synchronous() == (old(self).synchronous() && !(elapsed > old(self).window() as u128 * 1_000_000)),
            b == final(self).synchronous(),
    {
        if elapsed > self.sync_window as u128 * 1_000_000 {
            self.is_synchronous = false;
        }
        self.is_synchronous
    }

    /// Whether the network is considered synchronous, by the clock.
    pub fn is_synchronous(&mut self) -> (b: bool)
        ensures
            final(self).window() == old(self).window(),
            final(self).last_progress() == old(self).last_progress(),
            b == final(self).synchronous(),
            b ==> old(self).synchronous(),
    {
        let elapsed = elapsed_nanos(&self.last_progress);
        self.observe(elapsed)
    }
}

/// The mathematical value of a chained block.
pub struct ChainedBlockView {
    pub block: BlockView,
    pub qc: Option<QuorumCertView>,
    pub view: u64,
}

/// The view of a chained block.
pub open spec fn chained_view(c: ChainedBlock) -> ChainedBlockView {
    ChainedBlockView { block: c.block@, qc: opt_qc_view(c.qc), view: c.view }
}

/// The mathematical value of a vote collector.
pub struct VoteCollectorView {
    pub votes: Map<u64, EngineVote>,
    pub threshold: nat,
    pub block_hash: Seq<u8>,
    pub view: u64,
}

/// The view of a vote collector.
pub open spec fn vote_collector_view(c: VoteCollector) -> VoteCollectorView {
    VoteCollectorView { votes: c.votes(), threshold: c.threshold(), block_hash: c.block_hash(), view: c.view() }
}

/// A collector after it is offered `vote`: the vote is kept unless its sender already voted.
pub open spec fn with_vote(c: VoteCollectorView, vote: EngineVote) -> VoteCollectorView {
    if c.votes.contains_key(vote.sender_id) {
        c
    } else {
        VoteCollectorView { votes: c.votes.insert(vote.sender_id, vote), ..c }
    }
}

/// The mathematical value of a timeout collector.
pub struct TimeoutCollectorView {
    pub timeouts: Map<u64, EngineTimeout>,
    pub threshold: nat,
    pub view: u64,
}

/// The view of a timeout collector.
pub open spec fn timeout_collector_view(c: TimeoutCollector) -> TimeoutCollectorView {
    TimeoutCollectorView { timeouts: c.timeouts(), threshold: c.threshold(), view: c.view() }
}

/// A collector after it is offered `timeout`: it is kept unless its sender already reported.
pub open spec fn with_timeout(c: TimeoutCollectorView, timeout: EngineTimeout) -> TimeoutCollectorView {
    if c.timeouts.contains_key(timeout.sender_id) {
        c
    } else {
        TimeoutCollectorView { timeouts: c.timeouts.insert(timeout.sender_id, timeout), ..c }
    }
}

/// The mathematical value of an engine.
pub struct EngineView {
    pub node: u64,
    pub nodes: u64,
    pub faults: u64,
    pub view_number: u64,
    pub leader: u64,
    pub view_timeout: u64,
    pub state: HotStuffStateView,
    pub vote_collectors: Map<Seq<u8>, VoteCollectorView>,
    pub timeout_collectors: Map<u64, TimeoutCollectorView>,
    pub block_tree: Map<Seq<u8>, ChainedBlockView>,
    pub optimistic: bool,
    pub synchronous: bool,
}

/// The HotStuff-2 voting rule: never vote twice in a view, and when the block does not extend
/// the high certificate, only vote in views past the locked certificate's height; otherwise
/// follow the safety engine's verdict `safe`.
pub open spec fn proposal_safe(s: HotStuffStateView, view: u64, parent_hash: Seq<u8>, safe: bool) -> bool {
    if s.last_voted_view >= view {
        false
    } else if s.high_qc is Some && parent_hash != s.high_qc->Some_0.block_hash && s.locked_qc is Some
        && view <= s.locked_qc->Some_0.height {
        false
    } else {
        safe
    }
}

/// Whether a new certificate commits the locked block: it directly follows the locked one.
pub open spec fn commits_locked(s: HotStuffStateView, qc: QuorumCertView) -> bool {
    s.locked_qc is Some && qc.height == s.locked_qc->Some_0.height + 1
}

/// The consensus state once a new certificate has been seen: the high certificate rises to
/// it when it is higher (or there is none); nothing else changes.
pub open spec fn raised_high(s: HotStuffStateView, qc: QuorumCertView) -> HotStuffStateView {
    HotStuffStateView {
        high_qc: if s.high_qc is None || qc.height > s.high_qc->Some_0.height { Some(qc) } else { s.high_qc },
        ..s
    }
}

/// The state after a certificate is processed: the high certificate rises to it when it is
/// higher, the locked block is committed when the two are consecutive, and the lock moves to it.
pub open spec fn after_qc(s: HotStuffStateView, qc: QuorumCertView) -> HotStuffStateView {
    HotStuffStateView {
        high_qc: if s.high_qc is None || qc.height > s.high_qc->Some_0.height { Some(qc) } else { s.high_qc },
        committed_height: if commits_locked(s, qc) { s.locked_qc->Some_0.height } else { s.committed_height },
        b_exec: if commits_locked(s, qc) { Some(s.locked_qc->Some_0.block_hash) } else { s.b_exec },
        locked_qc: Some(qc),
        b_lock: Some(qc.block_hash),
        ..s
    }
}

/// The round-robin leader of `view` among nodes `0..nodes`.
pub open spec fn engine_leader(nodes: u64, view: u64) -> u64 {
    (view % nodes) as u64
}

/// When a leader proposes after forming a certificate.
#[derive(Debug, Clone, Copy, PartialEq, Eq, Structural)]
pub enum ProposeTiming {
    /// Right away (fast path during synchrony).
    Immediately,
    /// After a short pause.
    AfterDelay,
}

/// What follows from a newly formed certificate.
#[derive(Debug, Clone, Copy)]
pub struct QcOutcome {
    /// The block to commit, when the certificate completes two consecutive ones.
    pub commit: Option<crate::types::hash::Hash>,
    /// When to propose next, when this node leads.
    pub propose: Option<ProposeTiming>,
}

/// A certificate a leader has just formed, with the locked block it commits, if any. The
/// block must be fetched and executed before the certificate is processed.
#[derive(Debug)]
pub struct FormedQc {
    pub qc: QuorumCert,
    /// The locked block to execute, when the certificate completes two consecutive ones.
    pub commit: Option<crate::types::hash::Hash>,
}

/// A vote the node must sign and send to the leader.
#[derive(Debug, Clone, Copy)]
pub struct VoteRequest {
    pub block_hash: crate::types::hash::Hash,
    pub height: u64,
    pub leader: u64,
}

/// The decision core of the complete HotStuff-2 engine.
pub struct HotStuff2EngineCore {
    node_id: u64,
    num_nodes: u64,
    f: u64,
    hotstuff_state: HotStuffState,
    current_view: HotStuffView,
    leader_schedule: Vec<u64>,
    vote_collectors: CollectorMap,
    timeout_collectors: TimeoutCollectorMap,
    optimistic_enabled: bool,
    synchrony_detector: SynchronyDetector,
    block_tree: BlockTree,
}

impl View for HotStuff2EngineCore {
    type V = EngineView;

    closed spec fn view(&self) -> EngineView {
        EngineView {
            node: self.node_id,
            nodes: self.num_nodes,
            faults: self.f,
            view_number: self.current_view.number,
            leader: self.current_view.leader,
            view_timeout: self.current_view.timeout_duration,
            state: self.hotstuff_state@,
            vote_collectors: self.vote_collectors.view_map().map_values(|c: VoteCollector| vote_collector_view(c)),
            timeout_collectors: self.timeout_collectors.view_map().map_values(|c: TimeoutCollector| timeout_collector_view(c)),
            block_tree: self.block_tree.view_map().map_values(|c: ChainedBlock| chained_view(c)),
            optimistic: self.optimistic_enabled,
            synchronous: self.synchrony_detector.synchronous(),
        }
    }
}

impl HotStuff2EngineCore {
    /// The internal consistency of the engine.
    pub closed spec fn wf(&self) -> bool {
        &&& 1 <= self.num_nodes <= usize::MAX
        &&& self.f == fault_bound(self.num_nodes)
        &&& self.leader_schedule@ == node_ids(self.num_nodes as nat)
        &&& self.current_view.leader == engine_leader(self.num_nodes, self.current_view.number)
        &&& self.vote_collectors.wf()
        &&& self.timeout_collectors.wf()
        &&& self.block_tree.wf()
        &&& forall|k: Seq<u8>| #[trigger] self.vote_collectors.view_map().contains_key(k) ==>
            self.vote_collectors.view_map()[k].wf()
        &&& forall|k: u64| #[trigger] self.timeout_collectors.view_map().contains_key(k) ==>
            self.timeout_collectors.view_map()[k].wf()
    }

    /// An engine for node `node_id` among `num_nodes`, in view 0 led by node 0, whose views
    /// last `view_change_timeout` milliseconds.
    pub fn new(node_id: u64, num_nodes: u64, optimistic_enabled: bool, view_change_timeout: u64) -> (e: HotStuff2EngineCore)
        requires
            1 <= num_nodes <= usize::MAX,
        ensures
            e.wf(),
            e@ == (EngineView {
                node: node_id,
                nodes: num_nodes,
                faults: fault_bound(num_nodes),
                view_number: 0,
                leader: 0,
                view_timeout: view_change_timeout,
                state: initial_hotstuff_state(),
                vote_collectors: Map::empty(),
                timeout_collectors: Map::empty(),
                block_tree: Map::empty(),
                optimistic: optimistic_enabled,
                synchronous: true,
            }),
    {
        let f = (num_nodes - 1) / 3;
        let mut leader_schedule: Vec<u64> = Vec::new();
        let mut i: u64 = 0;
        while i < num_nodes
            invariant
                i <= num_nodes,
                leader_schedule@ == node_ids(i as nat),
            decreases num_nodes - i,
        {
            leader_schedule.push(i);
            i = i + 1;
            assert(leader_schedule@ =~= node_ids(i as nat));
        }
        let first_leader = leader_schedule[0];
        let e = HotStuff2EngineCore {
            node_id,
            num_nodes,
            f,
            hotstuff_state: HotStuffState::default(),
            current_view: HotStuffView::new(0, first_leader, view_change_timeout),
            leader_schedule,
            vote_collectors: CollectorMap::new(),
            timeout_collectors: TimeoutCollectorMap::new(),
            optimistic_enabled,
            synchrony_detector: SynchronyDetector::new(),
            block_tree: BlockTree::new(),
        };
        proof {
            assert(e.vote_collectors.view_map().map_values(|c: VoteCollector| vote_collector_view(c)) =~= Map::empty());
            assert(e.timeout_collectors.view_map().map_values(|c: TimeoutCollector| timeout_collector_view(c)) =~= Map::empty());
            assert(e.block_tree.view_map().map_values(|c: ChainedBlock| chained_view(c)) =~= Map::empty());
        }
        e
    }

    /// The current leader is the round-robin leader of the current view.
    pub proof fn lemma_leader_is_round_robin(&self)
        requires
            self.wf(),
        ensures
            self@.leader == engine_leader(self@.nodes, self@.view_number),
            self@.leader < self@.nodes,
    {
    }

    /// The current view.
    pub fn current_view(&self) -> (v: HotStuffView)
        ensures
            v.number == self@.view_number,
            v.leader == self@.leader,
            v.timeout_duration == self@.view_timeout,
    {
        self.current_view
    }

    /// The height of the last committed block.
    pub fn committed_height(&self) -> (h: u64)
        ensures
            h == self@.state.committed_height,
    {
        self.hotstuff_state.committed_height
    }

    /// Whether this node leads the current view.
    pub fn is_leader(&self) -> (b: bool)
        ensures
            b == (self@.leader == self@.node),
    {
        self.current_view.leader == self.node_id
    }

    /// The protocol variables.
    pub fn state(&self) -> (s: &HotStuffState)
        ensures
            s@ == self@.state,
    {
        &self.hotstuff_state
    }

    /// Whether the current view has run out of time, by the clock.
    pub fn view_expired(&self) -> (b: bool) {
        self.current_view.is_expired()
    }

    /// The HotStuff-2 voting rule for a chained block, given the safety engine's verdict.
    pub fn verify_proposal_safety(&self, block: &ChainedBlock, safe_to_vote: bool) -> (ok: bool)
        ensures
            ok == proposal_safe(self@.state, block.view, block.block@.parent_hash, safe_to_vote),
    {
        if self.hotstuff_state.last_voted_view >= block.view {
            return false;
        }
        match &self.hotstuff_state.high_qc {
            Some(high_qc) => {
                if block.block.parent_hash != high_qc.block_hash {
                    match &self.hotstuff_state.locked_qc {
                        Some(locked_qc) => {
                            if block.view <= locked_qc.height {
                                return false;
                            }
                        },
                        None => {},
                    }
                }
            },
            None => {},
        }
        safe_to_vote
    }

    /// Handles a proposal: accepts it from the current leader when the voting rule allows,
    /// stores the block, records the vote and asks for the vote to be sent to the leader.
    pub fn on_proposal<B: BlockStore>(&mut self, store: &mut B, proposal: &Proposal, safe_to_vote: bool) -> (r: Result<Option<VoteRequest>, HotStuffError>)
        requires
            old(self).wf(),
            old(store).store_wf(),
        ensures
            final(self).wf(),
            final(store).store_wf(),
            !(proposal.block@.proposer_id == old(self)@.leader
                && proposal_safe(old(self)@.state, old(self)@.view_number, proposal.block@.parent_hash, safe_to_vote)) ==> {
                &&& r matches Ok(None)
                &&& final(self)@ == old(self)@
                &&& *final(store) == *old(store)
            },
            r is Err ==> final(self)@ == old(self)@,
            r matches Ok(Some(req)) ==> {
                &&& proposal.block@.proposer_id == old(self)@.leader
                &&& proposal_safe(old(self)@.state, old(self)@.view_number, proposal.block@.parent_hash, safe_to_vote)
                &&& req.block_hash@ == proposal.block@.hash
                &&& req.height == proposal.block@.height
                &&& req.leader == old(self)@.leader
                &&& final(self)@ == (EngineView {
                    block_tree: old(self)@.block_tree.insert(
                        proposal.block@.hash,
                        ChainedBlockView { block: proposal.block@, qc: None, view: old(self)@.view_number },
                    ),
                    state: HotStuffStateView {
                        last_voted_view: old(self)@.view_number,
                        b_leaf: Some(proposal.block@.hash),
                        ..old(self)@.state
                    },
                    ..old(self)@
                })
            },
            (proposal.block@.proposer_id == old(self)@.leader
                && proposal_safe(old(self)@.state, old(self)@.view_number, proposal.block@.parent_hash, safe_to_vote))
                ==> !(r matches Ok(None)),
            old(store).always_accepts() && proposal.block@.proposer_id == old(self)@.leader
                && proposal_safe(old(self)@.state, old(self)@.view_number, proposal.block@.parent_hash, safe_to_vote)
                ==> r matches Ok(Some(_)),
            r matches Ok(Some(_)) ==> final(store).blocks() == old(store).blocks().insert(
                proposal.block@.hash,
                proposal.block@,
            ),
    {
        if proposal.block.proposer_id != self.current_view.leader {
            return Ok(None);
        }
        let current_view = self.current_view.number;
        let chained = ChainedBlock::new(proposal.block.clone(), None, current_view);
        if !self.verify_proposal_safety(&chained, safe_to_vote) {
            return Ok(None);
        }
        match store.put_block(&proposal.block) {
            Ok(()) => {},
            Err(e) => {
                return Err(e);
            },
        }
        let hash = proposal.block.hash();
        let ghost old_tree = self.block_tree.view_map();
        self.block_tree.put(hash, chained);
        self.hotstuff_state.last_voted_view = current_view;
        self.hotstuff_state.b_leaf = Some(hash);
        proof {
            assert(self.block_tree.view_map().map_values(|c: ChainedBlock| chained_view(c)) =~=
                old_tree.map_values(|c: ChainedBlock| chained_view(c)).insert(
                    proposal.block@.hash,
                    ChainedBlockView { block: proposal.block@, qc: None, view: current_view },
                ));
        }
        Ok(Some(VoteRequest { block_hash: hash, height: proposal.block.height, leader: self.current_view.leader }))
    }

    /// Processes a formed certificate once the block it commits, if any, has been executed
    /// (`execution` reports how that went): raises the high certificate, commits the locked
    /// block when the two are consecutive, moves the lock, records progress and, as leader,
    /// schedules the next proposal. When a commit is due and its execution failed, the error is
    /// handed back and nothing changes.
    pub fn process_qc(&mut self, qc: QuorumCert, execution: Result<(), HotStuffError>) -> (r: Result<QcOutcome, HotStuffError>)
        requires
            old(self).wf(),
        ensures
            final(self).wf(),
            commits_locked(old(self)@.state, qc@) && execution is Err ==> {
                &&& r is Err
                &&& r->Err_0 == execution->Err_0
                &&& final(self)@ == old(self)@
            },
            !(commits_locked(old(self)@.state, qc@) && execution is Err) ==> {
                let out = r->Ok_0;
                &&& r is Ok
                &&& final(self)@ == (EngineView {
                    state: after_qc(old(self)@.state, qc@),
                    synchronous: final(self)@.synchronous,
                    ..old(self)@
                })
                &&& (out.commit is Some <==> commits_locked(old(self)@.state, qc@))
                &&& (out.commit is Some ==> out.commit->Some_0@ == old(self)@.state.locked_qc->Some_0.block_hash)
                &&& (out.propose is Some <==> old(self)@.leader == old(self)@.node)
                &&& (old(self)@.leader != old(self)@.node ==> final(self)@.synchronous)
                &&& (out.propose == Some(ProposeTiming::Immediately) ==> old(self)@.optimistic && final(self)@.synchronous)
                &&& (out.propose == Some(ProposeTiming::AfterDelay) ==> !(old(self)@.optimistic && final(self)@.synchronous))
            },
    {
        let due = match &self.hotstuff_state.locked_qc {
            Some(locked_qc) => qc.height > 0 && qc.height - 1 == locked_qc.height,
            None => false,
        };
        if due {
            match execution {
                Err(e) => {
                    return Err(e);
                },
                Ok(()) => {},
            }
        }
        let ghost q = qc@;
        let should_update_high = match &self.hotstuff_state.high_qc {
            Some(h) => qc.height > h.height,
            None => true,
        };
        if should_update_high {
            self.hotstuff_state.high_qc = Some(qc.clone());
        }
        let mut commit: Option<crate::types::hash::Hash> = None;
        match &self.hotstuff_state.locked_qc {
            Some(locked_qc) => {
                if qc.height > 0 && qc.height - 1 == locked_qc.height {
                    commit = Some(locked_qc.block_hash);
                }
            },
            None => {},
        }
        match commit {
            Some(h) => {
                let locked_height = match &self.hotstuff_state.locked_qc {
                    Some(l) => l.height,
                    None => 0,
                };
                self.hotstuff_state.committed_height = locked_height;
                self.hotstuff_state.b_exec = Some(h);
            },
            None => {},
        }
        let block_hash = qc.block_hash;
        self.hotstuff_state.locked_qc = Some(qc);
        self.hotstuff_state.b_lock = Some(block_hash);
        self.synchrony_detector.record_progress();
        let propose = if self.current_view.leader != self.node_id {
            None
        } else {
            let is_sync = self.synchrony_detector.is_synchronous();
            if self.optimistic_enabled && is_sync {
                Some(ProposeTiming::Immediately)
            } else {
                Some(ProposeTiming::AfterDelay)
            }
        };
        Ok(QcOutcome { commit, propose })
    }

    /// Handles a vote as leader: a vote with a valid signature goes to its block's collector
    /// (created for the current view with threshold `n - f`). A certificate formed from it
    /// raises the high certificate and is handed back, with the locked block it commits, for
    /// `process_qc` once that block is executed. Non-leaders and invalid signatures change
    /// nothing.
    pub fn on_vote(&mut self, vote: EngineVote, signature_valid: bool) -> (r: Option<FormedQc>)
        requires
            old(self).wf(),
        ensures
            final(self).wf(),
            !(old(self)@.leader == old(self)@.node && signature_valid) ==> r is None && final(self)@ == old(self)@,
            old(self)@.leader == old(self)@.node && signature_valid ==> {
                let c0 = if old(self)@.vote_collectors.contains_key(vote.block_hash@) {
                    old(self)@.vote_collectors[vote.block_hash@]
                } else {
                    VoteCollectorView {
                        votes: Map::empty(),
                        threshold: (old(self)@.nodes - old(self)@.faults) as nat,
                        block_hash: vote.block_hash@,
                        view: old(self)@.view_number,
                    }
                };
                let c1 = with_vote(c0, vote);
                let formed = !c0.votes.contains_key(vote.sender_id) && c1.votes.len() >= c1.threshold;
                let qc = r->Some_0.qc@;
                &&& final(self)@.vote_collectors == old(self)@.vote_collectors.insert(vote.block_hash@, c1)
                &&& (r is Some <==> formed)
                &&& !formed ==> final(self)@ == (EngineView { vote_collectors: final(self)@.vote_collectors, ..old(self)@ })
                &&& formed ==> {
                    &&& qc.block_hash == c1.block_hash
                    &&& qc.height == c1.view
                    &&& lists_votes(qc.signatures, c1.votes)
                    &&& qc.threshold_signature is None
                    &&& final(self)@ == (EngineView {
                        vote_collectors: final(self)@.vote_collectors,
                        state: raised_high(old(self)@.state, qc),
                        ..old(self)@
                    })
                    &&& (r->Some_0.commit is Some <==> commits_locked(old(self)@.state, qc))
                    &&& (r->Some_0.commit is Some ==> r->Some_0.commit->Some_0@ == old(self)@.state.locked_qc->Some_0.block_hash)
                }
            },
    {
        if self.current_view.leader != self.node_id {
            return None;
        }
        if !signature_valid {
            return None;
        }
        let threshold = (self.num_nodes - self.f) as usize;
        let block_hash = vote.block_hash;
        let ghost old_map = self.vote_collectors.view_map();
        let mut collector = match self.vote_collectors.take(&block_hash) {
            Some(c) => c,
            None => VoteCollector::new(threshold, block_hash, self.current_view.number),
        };
        let ghost c0 = vote_collector_view(collector);
        let formed = collector.add_vote(vote);
        let ghost c1 = vote_collector_view(collector);
        self.vote_collectors.put(block_hash, collector);
        proof {
            assert(c1 == with_vote(c0, vote));
            assert(self.vote_collectors.view_map().map_values(|c: VoteCollector| vote_collector_view(c)) =~=
                old_map.map_values(|c: VoteCollector| vote_collector_view(c)).insert(block_hash@, c1));
        }
        match formed {
            Some(qc) => {
                let should_update_high = match &self.hotstuff_state.high_qc {
                    Some(h) => qc.height > h.height,
                    None => true,
                };
                if should_update_high {
                    self.hotstuff_state.high_qc = Some(qc.clone());
                }
                let commit = match &self.hotstuff_state.locked_qc {
                    Some(locked_qc) => {
                        if qc.height > 0 && qc.height - 1 == locked_qc.height {
                            Some(locked_qc.block_hash)
                        } else {
                            None
                        }
                    },
                    None => None,
                };
                Some(FormedQc { qc, commit })
            },
            None => None,
        }
    }

    /// Moves to the next view with its round-robin leader; returns the new-view announcement
    /// when this node leads it.
    fn start_view_change(&mut self) -> (r: Option<EngineNewView>)
        requires
            old(self).wf(),
            old(self)@.view_number < u64::MAX,
        ensures
            final(self).wf(),
            final(self)@ == (EngineView {
                view_number: (old(self)@.view_number + 1) as u64,
                leader: engine_leader(old(self)@.nodes, (old(self)@.view_number + 1) as u64),
                ..old(self)@
            }),
            r is Some <==> final(self)@.leader == old(self)@.node,
            r is Some ==> r->Some_0 == (EngineNewView {
                new_view_for_height: final(self)@.view_number,
                new_view_for_round: final(self)@.view_number,
                sender_id: old(self)@.node,
            }),
    {
        let number = self.current_view.number + 1;
        let idx: usize = (number % (self.leader_schedule.len() as u64)) as usize;
        let leader = self.leader_schedule[idx];
        self.current_view = HotStuffView::new(number, leader, self.current_view.timeout_duration);
        if leader == self.node_id {
            Some(EngineNewView { new_view_for_height: number, new_view_for_round: number, sender_id: self.node_id })
        } else {
            None
        }
    }

    /// Handles a timeout for the current or a later view: it goes to that view's collector
    /// (threshold `f + 1`), and once the threshold is reached the node moves to the next view.
    /// Returns the new-view announcement to broadcast when this node leads the new view.
    pub fn on_timeout(&mut self, timeout: EngineTimeout) -> (r: Option<EngineNewView>)
        requires
            old(self).wf(),
            old(self)@.view_number < u64::MAX,
        ensures
            final(self).wf(),
            timeout.height < old(self)@.view_number ==> r is None && final(self)@ == old(self)@,
            timeout.height >= old(self)@.view_number ==> {
                let c0 = if old(self)@.timeout_collectors.contains_key(timeout.height) {
                    old(self)@.timeout_collectors[timeout.height]
                } else {
                    TimeoutCollectorView {
                        timeouts: Map::empty(),
                        threshold: (old(self)@.faults + 1) as nat,
                        view: timeout.height,
                    }
                };
                let c1 = with_timeout(c0, timeout);
                let fired = !c0.timeouts.contains_key(timeout.sender_id) && c1.timeouts.len() >= c1.threshold;
                &&& final(self)@.timeout_collectors == old(self)@.timeout_collectors.insert(timeout.height, c1)
                &&& !fired ==> r is None && final(self)@ == (EngineView {
                    timeout_collectors: final(self)@.timeout_collectors,
                    ..old(self)@
                })
                &&& fired ==> {
                    &&& final(self)@ == (EngineView {
                        timeout_collectors: final(self)@.timeout_collectors,
                        view_number: (old(self)@.view_number + 1) as u64,
                        leader: engine_leader(old(self)@.nodes, (old(self)@.view_number + 1) as u64),
                        ..old(self)@
                    })
                    &&& (r is Some <==> final(self)@.leader == old(self)@.node)
                    &&& (r is Some ==> r->Some_0 == (EngineNewView {
                        new_view_for_height: final(self)@.view_number,
                        new_view_for_round: final(self)@.view_number,
                        sender_id: old(self)@.node,
                    }))
                }
            },
    {
        if timeout.height < self.current_view.number {
            return None;
        }
        let threshold = (self.f + 1) as usize;
        let view = timeout.height;
        let ghost old_map = self.timeout_collectors.view_map();
        let mut collector = match self.timeout_collectors.take(view) {
            Some(c) => c,
            None => TimeoutCollector::new(threshold, view),
        };
        let ghost c0 = timeout_collector_view(collector);
        let fired = collector.add_timeout(timeout);
        let ghost c1 = timeout_collector_view(collector);
        self.timeout_collectors.put(view, collector);
        proof {
            assert(c1 == with_timeout(c0, timeout));
            assert(self.timeout_collectors.view_map().map_values(|c: TimeoutCollector| timeout_collector_view(c)) =~=
                old_map.map_values(|c: TimeoutCollector| timeout_collector_view(c)).insert(view, c1));
        }
        match fired {
            Some(_timeouts) => self.start_view_change(),
            None => None,
        }
    }

    /// Handles a new-view announcement: accepted only for a later view and only from that
    /// view's round-robin leader, in which case the node moves to it.
    pub fn on_new_view(&mut self, new_view: &EngineNewView) -> (accepted: bool)
        requires
            old(self).wf(),
        ensures
            final(self).wf(),
            accepted == (new_view.new_view_for_round > old(self)@.view_number
                && new_view.sender_id == engine_leader(old(self)@.nodes, new_view.new_view_for_round)),
            accepted ==> final(self)@ == (EngineView {
                view_number: new_view.new_view_for_round,
                leader: new_view.sender_id,
                ..old(self)@
            }),
            !accepted ==> final(self)@ == old(self)@,
    {
        if new_view.new_view_for_round <= self.current_view.number {
            return false;
        }
        let idx: usize = (new_view.new_view_for_round % (self.leader_schedule.len() as u64)) as usize;
        let expected_leader = self.leader_schedule[idx];
        if new_view.sender_id != expected_leader {
            return false;
        }
        self.current_view = HotStuffView::new(new_view.new_view_for_round, expected_leader, self.current_view.timeout_duration);
        true
    }

    /// The transactions to include in a new block; none are pooled here.
    fn get_pending_transactions(&self) -> (txs: Vec<Transaction>)
        ensures
            txs@.len() == 0,
    {
        Vec::new()
    }

    /// As leader, creates and stores the next block: it extends the high certificate's block
    /// (or the zero hash) at the height after the committed one. It fails only when the store
    /// refuses the block, so never with a store that always accepts.
    pub fn create_proposal<B: BlockStore>(&self, store: &mut B) -> (r: Result<Proposal, HotStuffError>)
        requires
            old(store).store_wf(),
            self@.state.committed_height < u64::MAX,
        ensures
            final(store).store_wf(),
            old(store).always_accepts() ==> r is Ok,
            r matches Ok(p) ==> final(store).blocks() == old(store).blocks().insert(p.block@.hash, p.block@),
            r matches Ok(p) ==> {
                &&& p.block@.parent_hash == match self@.state.high_qc {
                    Some(qc) => qc.block_hash,
                    None => zero_hash(),
                }
                &&& p.block@.height == self@.state.committed_height + 1
                &&& p.block@.proposer_id == self@.node
                &&& p.block@.transactions.len() == 0
                &&& crate::types::block::block_hash_consistent(p.block@)
            },
    {
        let parent_hash = match &self.hotstuff_state.high_qc {
            Some(qc) => qc.block_hash,
            None => crate::types::hash::Hash::zero(),
        };
        let height = self.hotstuff_state.committed_height + 1;
        let transactions = self.get_pending_transactions();
        let block = Block::new(parent_hash, transactions, height, self.node_id);
        match store.put_block(&block) {
            Ok(()) => {},
            Err(e) => {
                return Err(e);
            },
        }
        Ok(Proposal::new(block))
    }

    /// The certificate a timeout report carries: the high certificate, or the genesis
    /// certificate for the zero hash at height 0.
    pub fn timeout_certificate(&self) -> (qc: QuorumCert)
        ensures
            self@.state.high_qc is Some ==> qc@ == self@.state.high_qc->Some_0,
            self@.state.high_qc is None ==> {
                &&& qc@.block_hash == zero_hash()
                &&& qc@.height == 0
                &&& qc@.signatures.len() == 0
                &&& qc@.threshold_signature is None
            },
    {
        match &self.hotstuff_state.high_qc {
            Some(qc) => qc.clone(),
            None => QuorumCert::new(crate::types::hash::Hash::zero(), 0, Vec::new()),
        }
    }
}

} // verus!
