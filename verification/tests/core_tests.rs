use hotstuff2::message::consensus::{ConsensusProposal, FastCommit, NewView, Timeout, Vote};
use hotstuff2::protocol::hotstuff2::{HotStuff2Core, LeaderElection, Phase, Pipeline};
use hotstuff2::types::signature::Signature;

fn h(data: &[u8]) -> hotstuff2::types::hash::Hash {
    hotstuff2::types::hash::Hash::from_bytes(data)
}

fn vote(block: &[u8], view: u64, node: u64) -> Vote {
    Vote { block_hash: h(block), view, node_id: node, signature: Signature::new(node, vec![node as u8]) }
}

fn timeout(view: u64, node: u64) -> Timeout {
    Timeout { view, node_id: node, high_qc: None, signature: Signature::new(node, vec![]) }
}

#[test]
fn quorum_threshold_matches_fault_bound() {
    for (num_nodes, expected_f) in [(4u64, 1u64), (7, 2), (10, 3)] {
        let core = HotStuff2Core::new(0, num_nodes, true, 3);
        assert_eq!(core.quorum_threshold() as u64, 2 * expected_f + 1);
        assert_eq!(core.chain_state().committed_height, 0);
    }
}

#[test]
fn new_core_starts_in_view_zero_led_by_node_zero() {
    let core = HotStuff2Core::new(2, 4, true, 3);
    let view = core.current_view();
    assert_eq!(view.number, 0);
    assert_eq!(view.leader, 0);
    assert_eq!(view.phase, Phase::Propose);
    assert_eq!(core.node_id(), 2);
    assert_eq!(core.pipeline_len(), 0);
    assert!(core.fast_path_enabled());
    assert_eq!(core.confidence_tenths(), 0);
}

#[test]
fn leaders_rotate_round_robin() {
    let core = HotStuff2Core::new(0, 4, true, 3);
    for round in 0..12u64 {
        assert_eq!(core.leader_of(round), round % 4);
    }
}

#[test]
fn leader_election_rotates_by_epoch() {
    let nodes = [10u64, 20, 30];
    let mut election = LeaderElection::new(0, &nodes);
    assert_eq!(election.get_leader(0), 10);
    assert_eq!(election.get_leader(4), 20);
    election.next_epoch(&nodes);
    assert_eq!(election.get_leader(0), 20);
    assert_eq!(election.get_leader(2), 10);
    let election = LeaderElection::new(5, &nodes);
    assert_eq!(election.get_leader(0), 30);
}

#[test]
fn invalid_proposals_are_ignored() {
    let mut core = HotStuff2Core::new(0, 4, true, 3);
    let zero_view = ConsensusProposal { block_hash: h(b"b"), view: 0, node_id: 1, qc: None };
    assert!(!core.verify_proposal(&zero_view));
    assert!(core.on_proposal(&zero_view, true).is_none());
    let zero_hash = ConsensusProposal { block_hash: hotstuff2::types::hash::Hash::zero(), view: 3, node_id: 1, qc: None };
    assert!(core.on_proposal(&zero_hash, true).is_none());
    assert_eq!(core.current_view().number, 0);
}

#[test]
fn valid_proposal_moves_view_and_asks_for_a_vote() {
    let mut core = HotStuff2Core::new(0, 4, true, 3);
    let proposal = ConsensusProposal { block_hash: h(b"block"), view: 1, node_id: 1, qc: None };
    let intent = core.on_proposal(&proposal, true).expect("a vote is due");
    assert_eq!(intent.view, 1);
    assert_eq!(intent.block_hash, h(b"block"));
    assert_eq!(intent.phase, Phase::Propose);
    assert_eq!(core.current_view().number, 1);
    assert_eq!(core.current_view().leader, 1);
    assert!(core.record_vote_sent(&intent).is_none());
    assert_eq!(core.pipeline_len(), 1);
}

#[test]
fn stale_proposal_fails_the_safety_rule() {
    let mut core = HotStuff2Core::new(0, 4, true, 3);
    let mut saved = hotstuff2::protocol::hotstuff2::ChainState::default();
    saved.last_voted_round = 5;
    core.restore(saved, 2);
    assert_eq!(core.current_view().number, 2);
    assert_eq!(core.current_view().leader, 0);
    let stale = ConsensusProposal { block_hash: h(b"old"), view: 3, node_id: 3, qc: None };
    assert!(!core.safety_check(&stale));
    assert!(core.on_proposal(&stale, true).is_none());
    assert_eq!(core.current_view().number, 3);
    let fresh = ConsensusProposal { block_hash: h(b"new"), view: 6, node_id: 2, qc: None };
    assert!(core.on_proposal(&fresh, true).is_some());
}

#[test]
fn quorum_of_votes_forms_a_certificate() {
    let mut core = HotStuff2Core::new(0, 4, true, 3);
    assert!(core.on_vote(vote(b"x", 1, 0)).is_none());
    assert!(core.on_vote(vote(b"y", 1, 1)).is_none());
    assert!(core.on_vote(vote(b"x", 1, 2)).is_none());
    let qc = core.on_vote(vote(b"x", 1, 3)).expect("three votes for x");
    assert_eq!(qc.block_hash, h(b"x"));
    assert_eq!(qc.height, 0);
    assert_eq!(qc.signer_count(), 3);
    assert!(!qc.uses_threshold_signature());
    assert!(qc.verify(h(b"x"), 3));
    assert!(!qc.verify(h(b"x"), 4));
    assert!(!qc.verify(h(b"y"), 1));
    let high = core.chain_state().high_qc.as_ref().expect("high certificate set");
    assert_eq!(high.block_hash, h(b"x"));
}

#[test]
fn timeouts_from_a_quorum_change_view() {
    let mut core = HotStuff2Core::new(1, 4, true, 3);
    assert_eq!(core.on_timeout(timeout(0, 0)), None);
    assert_eq!(core.on_timeout(timeout(0, 2)), None);
    assert_eq!(core.current_view().number, 0);
    assert_eq!(core.on_timeout(timeout(0, 3)), Some(1));
    assert_eq!(core.current_view().number, 1);
    assert_eq!(core.current_view().leader, 1);
}

#[test]
fn view_change_for_another_leader_returns_none() {
    let mut core = HotStuff2Core::new(0, 4, true, 3);
    core.on_timeout(timeout(4, 1));
    core.on_timeout(timeout(4, 2));
    assert_eq!(core.on_timeout(timeout(4, 3)), None);
    assert_eq!(core.current_view().number, 5);
    assert_eq!(core.current_view().leader, 1);
}

#[test]
fn new_view_only_moves_forward() {
    let mut core = HotStuff2Core::new(0, 4, true, 3);
    core.on_new_view(&NewView { view: 6, node_id: 2, high_qc: None });
    assert_eq!(core.current_view().number, 6);
    assert_eq!(core.current_view().leader, 2);
    core.on_new_view(&NewView { view: 3, node_id: 3, high_qc: None });
    assert_eq!(core.current_view().number, 6);
    core.update_view(2);
    assert_eq!(core.current_view().number, 6);
}

#[test]
fn fast_commits_reach_their_quorum() {
    let mut core = HotStuff2Core::new(0, 4, true, 2);
    let fc = |node: u64| FastCommit { block_hash: h(b"fast"), view: 1, node_id: node, signature: Signature::new(node, vec![]) };
    assert!(core.on_fast_commit(fc(1)).is_none());
    assert_eq!(core.on_fast_commit(fc(2)), Some(h(b"fast")));
}

#[test]
fn adaptive_mode_needs_a_run_of_fast_commits() {
    let mut core = HotStuff2Core::new(0, 4, true, 2);
    assert!(!core.should_use_optimistic_path(true));
    let block = hotstuff2::types::block::Block::new(hotstuff2::types::hash::Hash::zero(), vec![], 1, 0);
    for _ in 0..6 {
        core.apply_fast_commit(h(b"fast"), &block, h(b"state"));
    }
    assert_eq!(core.confidence_tenths(), 6);
    assert!(core.should_use_optimistic_path(true));
    assert!(!core.should_use_optimistic_path(false));
    assert_eq!(core.chain_state().committed_height, 1);
    assert_eq!(core.chain_state().b_exec, Some(h(b"fast")));

    let disabled = HotStuff2Core::new(0, 4, false, 2);
    assert!(!disabled.should_use_optimistic_path(true));
}

#[test]
fn proposals_are_named_after_their_view() {
    let core = HotStuff2Core::new(0, 4, true, 3);
    assert_eq!(core.next_proposal_view(), 1);
    let proposal = core.make_proposal(5);
    assert_eq!(proposal.block_hash, h(b"block_5"));
    assert_eq!(proposal.view, 5);
    assert_eq!(proposal.node_id, 0);
    assert!(proposal.qc.is_none());
    let proposal = core.make_proposal(1234);
    assert_eq!(proposal.block_hash, h(b"block_1234"));
}

#[test]
fn pipeline_touch_and_retain() {
    let mut pipeline = Pipeline::new();
    pipeline.touch(3);
    pipeline.touch(7);
    pipeline.touch(3);
    assert_eq!(pipeline.len(), 2);
    pipeline.retain_range(0, 5, None);
    assert_eq!(pipeline.len(), 1);
    pipeline.touch(9);
    pipeline.retain_range(4, 100, None);
    assert_eq!(pipeline.len(), 1);
    pipeline.retain_range(0, 100, Some(0));
    assert_eq!(pipeline.len(), 0);
}

#[test]
fn recover_to_view_drops_later_stages() {
    let mut core = HotStuff2Core::new(0, 4, true, 3);
    let p = ConsensusProposal { block_hash: h(b"b9"), view: 9, node_id: 1, qc: None };
    let intent = core.on_proposal(&p, false).unwrap();
    core.record_vote_sent(&intent);
    assert_eq!(core.pipeline_len(), 1);
    core.recover_to_view(4);
    assert_eq!(core.current_view().number, 9);
    assert_eq!(core.pipeline_len(), 0);
    core.recover_to_view(10);
    assert_eq!(core.current_view().number, 10);
    assert_eq!(core.current_view().leader, 2);
}

#[test]
fn keep_stage_checks_range_and_age() {
    let stage = hotstuff2::protocol::hotstuff2::PipelineStage::new(4, 4);
    assert!(hotstuff2::protocol::hotstuff2::keep_stage(&stage, 0, 10, None, 1_000_000));
    assert!(!hotstuff2::protocol::hotstuff2::keep_stage(&stage, 5, 10, None, 0));
    assert!(!hotstuff2::protocol::hotstuff2::keep_stage(&stage, 0, 3, None, 0));
    assert!(hotstuff2::protocol::hotstuff2::keep_stage(&stage, 4, 4, Some(10), 9));
    assert!(!hotstuff2::protocol::hotstuff2::keep_stage(&stage, 4, 4, Some(10), 10));
    assert!(!hotstuff2::protocol::hotstuff2::keep_stage(&stage, 0, 10, Some(0), 0));
}

#[test]
fn retain_aged_uses_the_given_ages() {
    let mut pipeline = Pipeline::new();
    pipeline.touch(1);
    pipeline.touch(2);
    pipeline.touch(3);
    let ages = vec![(1u64, 50u128), (2, 5), (3, 500), (2, 70)];
    pipeline.retain_aged(0, 100, Some(60), &ages);
    assert_eq!(pipeline.len(), 1);
    let mut pipeline = Pipeline::new();
    pipeline.touch(1);
    pipeline.touch(2);
    pipeline.retain_aged(0, 100, Some(60), &vec![(1u64, 10u128)]);
    assert_eq!(pipeline.len(), 1);
    let mut pipeline = Pipeline::new();
    pipeline.touch(1);
    pipeline.touch(2);
    pipeline.retain_aged(2, 100, None, &vec![]);
    assert_eq!(pipeline.len(), 1);
}

#[test]
fn stage_ages_keeps_the_pipeline() {
    let mut pipeline = Pipeline::new();
    pipeline.touch(1);
    pipeline.touch(5);
    let ages = pipeline.stage_ages();
    assert_eq!(ages.len(), 2);
    assert_eq!(pipeline.len(), 2);
    let mut views: Vec<u64> = ages.iter().map(|(v, _)| *v).collect();
    views.sort();
    assert_eq!(views, vec![1, 5]);
}

#[test]
fn clear_stale_pipeline_keeps_recent_views() {
    let mut core = HotStuff2Core::new(0, 4, true, 3);
    for view in [2u64, 8, 9] {
        let p = ConsensusProposal { block_hash: h(b"blk"), view, node_id: view % 4, qc: None };
        let intent = core.on_proposal(&p, false).unwrap();
        core.record_vote_sent(&intent);
    }
    assert_eq!(core.pipeline_len(), 3);
    core.clear_stale_pipeline(60_000_000_000);
    assert_eq!(core.pipeline_len(), 2);
    core.clear_stale_pipeline(0);
    assert_eq!(core.pipeline_len(), 0);
}

#[test]
fn second_proposal_in_a_view_gets_no_vote() {
    let mut core = HotStuff2Core::new(0, 4, true, 3);
    let first = ConsensusProposal { block_hash: h(b"first"), view: 2, node_id: 2, qc: None };
    assert!(core.on_proposal(&first, true).is_some());
    assert_eq!(core.chain_state().last_voted_round, 2);
    let second = ConsensusProposal { block_hash: h(b"second"), view: 2, node_id: 2, qc: None };
    assert!(core.on_proposal(&second, true).is_none());
    let again = ConsensusProposal { block_hash: h(b"first"), view: 2, node_id: 2, qc: None };
    assert!(core.on_proposal(&again, true).is_none());
    let next = ConsensusProposal { block_hash: h(b"third"), view: 3, node_id: 3, qc: None };
    assert!(core.on_proposal(&next, true).is_some());
    assert_eq!(core.chain_state().last_voted_round, 3);
}

#[test]
fn repeated_votes_of_one_node_form_no_certificate() {
    let mut core = HotStuff2Core::new(0, 4, true, 3);
    assert!(core.on_vote(vote(b"x", 1, 0)).is_none());
    assert!(core.on_vote(vote(b"x", 1, 0)).is_none());
    assert!(core.on_vote(vote(b"x", 1, 0)).is_none());
    assert!(core.chain_state().high_qc.is_none());
    assert!(core.on_vote(vote(b"x", 1, 1)).is_none());
    let qc = core.on_vote(vote(b"x", 1, 2)).expect("three distinct voters");
    assert_eq!(qc.signer_count(), 3);
}

#[test]
fn repeated_fast_commits_of_one_node_do_not_commit() {
    let mut core = HotStuff2Core::new(0, 4, true, 2);
    let fc = |node: u64| FastCommit { block_hash: h(b"fast"), view: 1, node_id: node, signature: Signature::new(node, vec![]) };
    assert!(core.on_fast_commit(fc(1)).is_none());
    assert!(core.on_fast_commit(fc(1)).is_none());
    assert!(core.on_fast_commit(fc(1)).is_none());
    assert_eq!(core.on_fast_commit(fc(3)), Some(h(b"fast")));
}

#[test]
fn prune_stale_stages_uses_the_given_ages() {
    let mut core = HotStuff2Core::new(0, 4, true, 3);
    for view in [2u64, 8, 9] {
        let p = ConsensusProposal { block_hash: h(b"blk"), view, node_id: view % 4, qc: None };
        let intent = core.on_proposal(&p, false).unwrap();
        core.record_vote_sent(&intent);
    }
    let measured = core.pipeline_stage_ages();
    assert_eq!(measured.len(), 3);
    assert_eq!(core.pipeline_len(), 3);
    core.prune_stale_stages(50, &vec![(2u64, 0u128), (8, 10), (9, 100)]);
    assert_eq!(core.pipeline_len(), 1);
    assert_eq!(core.current_view().number, 9);
}
