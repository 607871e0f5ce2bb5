use hotstuff2::error::HotStuffError;
use hotstuff2::protocol::hotstuff2_complete::{
    EngineNewView, EngineTimeout, EngineVote, HotStuff2EngineCore, HotStuffView, ProposeTiming, SynchronyDetector,
    TimeoutCollector, VoteCollector,
};
use hotstuff2::storage::block_store::{BlockStore, MemoryBlockStore};
use hotstuff2::types::block::Block;
use hotstuff2::types::proposal::Proposal;
use hotstuff2::types::quorum_cert::QuorumCert;

fn h(data: &[u8]) -> hotstuff2::types::hash::Hash {
    hotstuff2::types::hash::Hash::from_bytes(data)
}

fn engine_vote(block: &[u8], sender: u64) -> EngineVote {
    EngineVote { block_hash: h(block), height: 1, sender_id: sender, signature: vec![sender as u8] }
}

fn engine_timeout(height: u64, sender: u64) -> EngineTimeout {
    EngineTimeout { height, sender_id: sender, high_qc: QuorumCert::new(h(b"hq"), 0, vec![]), signature: vec![] }
}

#[test]
fn engine_starts_led_by_node_zero() {
    let engine = HotStuff2EngineCore::new(0, 4, true, 1000);
    assert!(engine.is_leader());
    assert_eq!(engine.committed_height(), 0);
    assert_eq!(engine.current_view().number, 0);
    assert_eq!(engine.current_view().timeout_duration, 1000);
    let other = HotStuff2EngineCore::new(2, 4, true, 1000);
    assert!(!other.is_leader());
}

#[test]
fn new_view_must_come_from_the_round_robin_leader() {
    let mut engine = HotStuff2EngineCore::new(1, 4, true, 1000);
    assert!(!engine.on_new_view(&EngineNewView { new_view_for_height: 1, new_view_for_round: 1, sender_id: 2 }));
    assert!(engine.on_new_view(&EngineNewView { new_view_for_height: 1, new_view_for_round: 1, sender_id: 1 }));
    assert_eq!(engine.current_view().number, 1);
    assert!(engine.is_leader());
    assert!(!engine.on_new_view(&EngineNewView { new_view_for_height: 1, new_view_for_round: 1, sender_id: 1 }));
}

#[test]
fn proposals_get_one_vote_per_view() {
    let mut engine = HotStuff2EngineCore::new(1, 4, true, 1000);
    let mut store = MemoryBlockStore::new();
    let block = Block::new(hotstuff2::types::hash::Hash::zero(), vec![], 1, 0);
    let proposal = Proposal::new(block);
    assert!(engine.on_proposal(&mut store, &proposal, true).unwrap().is_none());

    engine.on_new_view(&EngineNewView { new_view_for_height: 1, new_view_for_round: 1, sender_id: 1 });
    let wrong_leader = Proposal::new(Block::new(hotstuff2::types::hash::Hash::zero(), vec![], 1, 3));
    assert!(engine.on_proposal(&mut store, &wrong_leader, true).unwrap().is_none());
    let block = Block::new(hotstuff2::types::hash::Hash::zero(), vec![], 1, 1);
    let hash = block.hash;
    let proposal = Proposal::new(block);
    assert!(engine.on_proposal(&mut store, &proposal, false).unwrap().is_none());
    let request = engine.on_proposal(&mut store, &proposal, true).unwrap().expect("vote requested");
    assert_eq!(request.block_hash, hash);
    assert_eq!(request.height, 1);
    assert_eq!(request.leader, 1);
    assert!(store.has_block(&hash).unwrap());
    assert_eq!(engine.state().last_voted_view, 1);
    assert!(engine.on_proposal(&mut store, &proposal, true).unwrap().is_none());
}

#[test]
fn leader_forms_certificate_from_n_minus_f_votes() {
    let mut engine = HotStuff2EngineCore::new(0, 4, true, 1000);
    assert!(engine.on_vote(engine_vote(b"blk", 1), false).is_none());
    assert!(engine.on_vote(engine_vote(b"blk", 1), true).is_none());
    assert!(engine.on_vote(engine_vote(b"blk", 1), true).is_none());
    assert!(engine.on_vote(engine_vote(b"blk", 2), true).is_none());
    let formed = engine.on_vote(engine_vote(b"blk", 3), true).expect("certificate formed");
    assert!(formed.commit.is_none());
    assert_eq!(engine.state().high_qc.as_ref().expect("high certificate").block_hash, h(b"blk"));
    assert!(engine.state().b_lock.is_none());
    let outcome = engine.process_qc(formed.qc, Ok(())).unwrap();
    assert!(outcome.commit.is_none());
    assert_eq!(outcome.propose, Some(ProposeTiming::Immediately));
    let high = engine.state().high_qc.as_ref().expect("high certificate");
    assert_eq!(high.block_hash, h(b"blk"));
    assert_eq!(high.signer_count(), 3);
    assert_eq!(engine.state().b_lock, Some(h(b"blk")));
    assert_eq!(engine.timeout_certificate().block_hash, h(b"blk"));

    let follower = HotStuff2EngineCore::new(2, 4, true, 1000);
    let mut follower = follower;
    assert!(follower.on_vote(engine_vote(b"blk", 1), true).is_none());
}

#[test]
fn vote_collector_ignores_repeated_senders() {
    let mut collector = VoteCollector::new(3, h(b"v"), 4);
    assert!(collector.add_vote(engine_vote(b"v", 1)).is_none());
    assert!(collector.add_vote(engine_vote(b"v", 1)).is_none());
    assert!(collector.add_vote(engine_vote(b"v", 2)).is_none());
    let qc = collector.add_vote(engine_vote(b"v", 3)).expect("threshold reached");
    assert_eq!(qc.signer_count(), 3);
    assert_eq!(qc.block_hash, h(b"v"));
    assert!(qc.verify(h(b"v"), 3));
    let mut signers: Vec<u64> = qc.signatures.iter().map(|s| s.signer).collect();
    signers.sort();
    assert_eq!(signers, vec![1, 2, 3]);
}

#[test]
fn timeout_collector_fires_at_threshold() {
    let mut collector = TimeoutCollector::new(2, 5);
    assert!(collector.add_timeout(engine_timeout(5, 1)).is_none());
    assert!(collector.add_timeout(engine_timeout(5, 1)).is_none());
    let all = collector.add_timeout(engine_timeout(5, 2)).expect("threshold reached");
    assert_eq!(all.len(), 2);
    let mut senders: Vec<u64> = all.iter().map(|t| t.sender_id).collect();
    senders.sort();
    assert_eq!(senders, vec![1, 2]);
}

#[test]
fn engine_timeouts_change_view() {
    let mut engine = HotStuff2EngineCore::new(1, 4, true, 1000);
    assert!(engine.on_timeout(engine_timeout(0, 2)).is_none());
    let new_view = engine.on_timeout(engine_timeout(0, 3)).expect("node 1 leads view 1");
    assert_eq!(new_view.new_view_for_round, 1);
    assert_eq!(new_view.new_view_for_height, 1);
    assert_eq!(new_view.sender_id, 1);
    assert_eq!(engine.current_view().number, 1);
    assert!(engine.on_timeout(engine_timeout(0, 0)).is_none());
    assert_eq!(engine.current_view().number, 1);
}

#[test]
fn leader_proposes_on_top_of_high_certificate() {
    let engine = HotStuff2EngineCore::new(0, 4, true, 1000);
    let mut store = MemoryBlockStore::new();
    let proposal = engine.create_proposal(&mut store).unwrap();
    assert_eq!(proposal.block.height, 1);
    assert_eq!(proposal.block.parent_hash, hotstuff2::types::hash::Hash::zero());
    assert_eq!(proposal.block.proposer_id, 0);
    assert!(proposal.block.transactions.is_empty());
    assert!(store.has_block(&proposal.block.hash).unwrap());
    let cert = engine.timeout_certificate();
    assert_eq!(cert.block_hash, hotstuff2::types::hash::Hash::zero());
    assert_eq!(cert.height, 0);
}

#[test]
fn synchrony_is_lost_after_the_window() {
    let mut detector = SynchronyDetector::new();
    assert!(detector.observe(5_000_000_000));
    assert!(!detector.observe(5_000_000_001));
    assert!(!detector.observe(0));
    detector.record_progress();
    assert!(detector.is_synchronous());
}

#[test]
fn views_expire_after_their_timeout() {
    let view = HotStuffView::new(3, 3, 200);
    assert!(!view.expired_after(200_000_000));
    assert!(view.expired_after(200_000_001));
    assert!(!view.is_expired());
}

#[test]
fn consecutive_certificates_commit_the_locked_block() {
    let mut engine = HotStuff2EngineCore::new(0, 1, false, 1000);
    let first = engine.on_vote(engine_vote(b"a", 0), true).expect("single-node quorum");
    assert!(first.commit.is_none());
    let first = engine.process_qc(first.qc, Ok(())).unwrap();
    assert!(first.commit.is_none());
    assert_eq!(first.propose, Some(ProposeTiming::AfterDelay));
    assert_eq!(engine.state().locked_qc.as_ref().unwrap().height, 0);

    assert!(engine.on_new_view(&EngineNewView { new_view_for_height: 1, new_view_for_round: 1, sender_id: 0 }));
    let second = engine.on_vote(engine_vote(b"b", 0), true).expect("single-node quorum");
    assert_eq!(second.commit, Some(h(b"a")));
    let second = engine.process_qc(second.qc, Ok(())).unwrap();
    assert_eq!(second.commit, Some(h(b"a")));
    assert_eq!(engine.committed_height(), 0);
    assert_eq!(engine.state().b_exec, Some(h(b"a")));

    assert!(engine.on_new_view(&EngineNewView { new_view_for_height: 2, new_view_for_round: 2, sender_id: 0 }));
    let third = engine.on_vote(engine_vote(b"c", 0), true).expect("single-node quorum");
    assert_eq!(third.commit, Some(h(b"b")));
    let third = engine.process_qc(third.qc, Ok(())).unwrap();
    assert_eq!(third.commit, Some(h(b"b")));
    assert_eq!(engine.committed_height(), 1);
    assert_eq!(engine.state().b_lock, Some(h(b"c")));
}

#[test]
fn failed_execution_leaves_the_lock_in_place() {
    let mut engine = HotStuff2EngineCore::new(0, 1, false, 1000);
    let first = engine.on_vote(engine_vote(b"a", 0), true).unwrap();
    engine.process_qc(first.qc, Ok(())).unwrap();
    assert!(engine.on_new_view(&EngineNewView { new_view_for_height: 1, new_view_for_round: 1, sender_id: 0 }));
    let second = engine.on_vote(engine_vote(b"b", 0), true).unwrap();
    assert_eq!(second.commit, Some(h(b"a")));
    assert_eq!(engine.state().high_qc.as_ref().unwrap().block_hash, h(b"b"));
    let err = engine
        .process_qc(second.qc, Err(HotStuffError::storage("Block not found")))
        .unwrap_err();
    assert_eq!(err.describe(), "Block not found");
    assert_eq!(engine.state().b_lock, Some(h(b"a")));
    assert!(engine.state().b_exec.is_none());
    assert_eq!(engine.state().high_qc.as_ref().unwrap().block_hash, h(b"b"));
}
