use hotstuff2::error::ErrorKind;
use hotstuff2::message::consensus::{ConsensusProposal, Timeout};
use hotstuff2::protocol::hotstuff2::{ChainState, HotStuff2Core};
use hotstuff2::protocol::recovery::{
    collect_recent_hashes, node_health, plan_recovery, RecoveryConfig, RecoveryManager, RecoveryPlan,
};
use hotstuff2::types::quorum_cert::QuorumCert;
use hotstuff2::types::signature::Signature;

fn h(data: &[u8]) -> hotstuff2::types::hash::Hash {
    hotstuff2::types::hash::Hash::from_bytes(data)
}

#[test]
fn checkpoint_without_snapshot_is_refused() {
    let core = HotStuff2Core::new(0, 4, true, 3);
    let mut manager = RecoveryManager::new();
    let err = manager.create_checkpoint(&core, None).unwrap_err();
    assert_eq!(err.error_kind(), ErrorKind::Storage);
    assert_eq!(err.describe(), "Failed to create state snapshot");
    assert_eq!(manager.checkpoints().len(), 0);
}

#[test]
fn recovery_without_checkpoint_is_refused() {
    let mut core = HotStuff2Core::new(0, 4, true, 3);
    let mut manager = RecoveryManager::new();
    let err = manager.recover_from_checkpoint(&mut core).unwrap_err();
    assert_eq!(err.error_kind(), ErrorKind::Storage);
    assert_eq!(err.describe(), "No checkpoints available for recovery");
    assert_eq!(manager.get_recovery_stats().total_recoveries, 0);
}

#[test]
fn checkpoint_then_recover_restores_state() {
    let mut core = HotStuff2Core::new(0, 4, true, 3);
    let mut saved = ChainState::default();
    saved.committed_height = 12;
    saved.high_qc = Some(QuorumCert::new(h(b"tip"), 11, vec![Signature::new(1, vec![1])]));
    core.restore(saved, 7);

    let mut manager = RecoveryManager::new();
    manager.create_checkpoint(&core, Some(vec![1, 2, 3])).unwrap();
    let checkpoint = &manager.checkpoints()[0];
    assert_eq!(checkpoint.height, 12);
    assert_eq!(checkpoint.view, 7);
    assert_eq!(checkpoint.state_snapshot, vec![1, 2, 3]);
    assert_eq!(checkpoint.block_hashes.len(), 10);
    assert!(checkpoint.block_hashes.iter().all(|x| *x == h(b"tip")));

    core.restore(ChainState::default(), 40);
    assert_eq!(core.chain_state().committed_height, 0);

    let snapshot = manager.recover_from_checkpoint(&mut core).unwrap();
    assert_eq!(snapshot, vec![1, 2, 3]);
    assert_eq!(core.chain_state().committed_height, 12);
    assert_eq!(core.current_view().number, 7);
    let stats = manager.get_recovery_stats();
    assert_eq!(stats.total_recoveries, 1);
    assert_eq!(stats.checkpoint_recoveries, 1);
    assert_eq!(stats.view_change_recoveries, 0);
    assert!(stats.last_recovery_time.is_some());
    assert!(stats.last_recovery_duration.is_some());
}

#[test]
fn at_most_ten_checkpoints_are_kept() {
    let mut core = HotStuff2Core::new(0, 4, true, 3);
    let mut manager = RecoveryManager::new();
    for view in 0..15u64 {
        core.restore(ChainState::default(), view);
        manager.create_checkpoint(&core, Some(vec![view as u8])).unwrap();
    }
    let checkpoints = manager.checkpoints();
    assert_eq!(checkpoints.len(), 10);
    assert_eq!(checkpoints[0].view, 5);
    assert_eq!(checkpoints[9].view, 14);
    let snapshot = manager.recover_from_checkpoint(&mut core).unwrap();
    assert_eq!(snapshot, vec![14]);
}

#[test]
fn recent_hashes_cover_the_last_ten_heights_up_to_the_certificate() {
    let qc = Some(QuorumCert::new(h(b"q"), 11, vec![]));
    assert_eq!(collect_recent_hashes(&qc, 12).len(), 10);
    assert_eq!(collect_recent_hashes(&qc, 3).len(), 4);
    assert_eq!(collect_recent_hashes(&qc, 30).len(), 0);
    assert_eq!(collect_recent_hashes(&qc, 11).len(), 11);
    assert_eq!(collect_recent_hashes(&None, 11).len(), 0);
    let top = Some(QuorumCert::new(h(b"q"), u64::MAX, vec![]));
    assert_eq!(collect_recent_hashes(&top, u64::MAX).len(), 11);
}

#[test]
fn view_change_recovery_moves_forward_only() {
    let mut core = HotStuff2Core::new(0, 4, true, 3);
    let mut manager = RecoveryManager::new();
    manager.recover_from_view_change(&mut core, 5).unwrap();
    assert_eq!(core.current_view().number, 5);
    assert_eq!(core.current_view().leader, 1);
    manager.recover_from_view_change(&mut core, 2).unwrap();
    assert_eq!(core.current_view().number, 5);
    let stats = manager.get_recovery_stats();
    assert_eq!(stats.total_recoveries, 2);
    assert_eq!(stats.view_change_recoveries, 2);
}

#[test]
fn byzantine_fault_triggers_next_view() {
    let mut core = HotStuff2Core::new(0, 4, true, 3);
    let mut manager = RecoveryManager::new();
    manager.handle_byzantine_fault(&mut core, 3, "equivocation").unwrap();
    assert_eq!(core.current_view().number, 1);
    assert_eq!(core.current_view().leader, 1);
}

#[test]
fn partition_recovery_forgets_timeouts() {
    let mut core = HotStuff2Core::new(0, 4, true, 3);
    let t = |node: u64| Timeout { view: 2, node_id: node, high_qc: None, signature: Signature::new(node, vec![]) };
    core.on_timeout(t(1));
    core.on_timeout(t(2));
    let mut manager = RecoveryManager::new();
    manager.handle_network_partition_recovery(&mut core).unwrap();
    assert_eq!(core.current_view().number, 1);
    assert_eq!(core.on_timeout(t(3)), None);
    assert_eq!(core.current_view().number, 1);
}

#[test]
fn health_verdicts() {
    assert!(node_health(0, 0, true));
    assert!(!node_health(100, 0, true));
    assert!(node_health(99, 29_999_999_999, true));
    assert!(!node_health(99, 30_000_000_000, true));
    assert!(!node_health(1, 1, false));
}

#[test]
fn health_check_reports_the_node() {
    let mut core = HotStuff2Core::new(0, 4, true, 3);
    let p = ConsensusProposal { block_hash: h(b"b"), view: 3, node_id: 3, qc: None };
    let intent = core.on_proposal(&p, false).unwrap();
    core.record_vote_sent(&intent);
    let manager = RecoveryManager::new();
    let health = manager.health_check(&core, false, true, 17).unwrap();
    assert!(health.is_healthy);
    assert_eq!(health.current_view, 3);
    assert_eq!(health.current_height, 0);
    assert!(!health.is_synchronous);
    assert_eq!(health.pipeline_stages, 1);
    assert_eq!(health.pending_transactions, 17);
    assert!(!health.has_lock);
    let idle = manager.health_check(&core, true, false, 0).unwrap();
    assert!(!idle.is_healthy);
    assert!(!manager.is_node_healthy(&core, false));
}

#[test]
fn recovery_plans() {
    let core = HotStuff2Core::new(0, 4, true, 3);
    let manager = RecoveryManager::new();
    let mut health = manager.health_check(&core, false, true, 0).unwrap();
    assert_eq!(plan_recovery(&health, 40_000_000_000), RecoveryPlan { clear_stale: false, view_change: false, partition_recovery: false });
    health.is_healthy = false;
    health.pipeline_stages = 51;
    assert_eq!(plan_recovery(&health, 40_000_000_000), RecoveryPlan { clear_stale: true, view_change: true, partition_recovery: false });
    health.pipeline_stages = 50;
    health.recovery_stats.total_recoveries = 1;
    assert_eq!(plan_recovery(&health, 30_000_000_000), RecoveryPlan { clear_stale: false, view_change: false, partition_recovery: true });
    health.is_synchronous = true;
    assert_eq!(plan_recovery(&health, 0), RecoveryPlan { clear_stale: false, view_change: false, partition_recovery: false });
}

#[test]
fn applying_a_plan_moves_views_in_order() {
    let mut core = HotStuff2Core::new(0, 4, true, 3);
    let mut manager = RecoveryManager::new();
    let plan = RecoveryPlan { clear_stale: true, view_change: true, partition_recovery: true };
    manager.apply_recovery_plan(&mut core, plan).unwrap();
    assert_eq!(core.current_view().number, 2);
    assert_eq!(core.current_view().leader, 2);
    assert_eq!(manager.get_recovery_stats().view_change_recoveries, 2);
}

#[test]
fn auto_recovery_on_an_idle_node() {
    let mut core = HotStuff2Core::new(0, 4, true, 3);
    let mut manager = RecoveryManager::new();
    manager.recover_from_view_change(&mut core, 1).unwrap();
    let plan = manager.auto_recovery(&mut core, false, false, 0).unwrap();
    assert!(!plan.clear_stale);
    assert!(!plan.view_change);
    assert!(plan.partition_recovery);
    assert_eq!(core.current_view().number, 2);
}

#[test]
fn recovery_config_defaults() {
    let config = RecoveryConfig::default();
    assert_eq!(config.checkpoint_interval, 30_000);
    assert_eq!(config.max_checkpoints, 10);
    assert!(config.auto_recovery_enabled);
    assert_eq!(config.health_check_interval, 10_000);
    assert_eq!(config.view_timeout, 30_000);
}
