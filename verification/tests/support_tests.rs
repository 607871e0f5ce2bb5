use hotstuff2::protocol::benchmarks::{committed_counts, latency_estimates_ms, BenchmarkConfig};
use hotstuff2::protocol::comprehensive_tests::{MockStateMachine, NodeStats, SystemStats};
use hotstuff2::testing::stress_test::{
    NetworkPartitionController, PartitionAction, PartitionEventType, PartitionScenario, TransactionGenerator,
};
use hotstuff2::error::ErrorKind;
use hotstuff2::timer::timeout_manager::{TimeoutKey, TimerAction, TimerEvent, TimerRegistry};
use hotstuff2::types::block::Block;

#[test]
fn test_transaction_generator() {
    let mut gen = TransactionGenerator::new(0, 100, 12345);
    let transactions = gen.generate_batch(10);

    assert_eq!(transactions.len(), 10);
    assert_eq!(gen.generated_count, 10);

    for (i, tx) in transactions.iter().enumerate() {
        assert_eq!(tx.id, format!("tx_0_{}", i));
        assert_eq!(tx.data.len(), 256);
    }
}

#[test]
fn generated_names_continue_across_batches() {
    let mut gen = TransactionGenerator::new(7, 100, 1);
    gen.generate_batch(3);
    let next = gen.generate_batch(2);
    assert_eq!(next[0].id, "tx_7_3");
    assert_eq!(next[1].id, "tx_7_4");
    assert_eq!(gen.generated_count, 5);
}

#[test]
fn test_network_partition_controller() {
    let mut controller = NetworkPartitionController::new();

    let scenario = PartitionScenario::NodeIsolation { duration: 100, isolated_nodes: vec![0, 1] };

    let action = controller.start_partition(scenario).unwrap();
    assert_eq!(action, PartitionAction::SleepThenHeal { duration: 100 });
    controller.heal_all_partitions().unwrap();

    assert_eq!(controller.partition_history.len(), 2);
    assert_eq!(controller.partition_history[0].event_type, PartitionEventType::NodeIsolated);
    assert_eq!(controller.partition_history[0].affected_nodes, vec![0, 1]);
    assert_eq!(controller.partition_history[1].event_type, PartitionEventType::PartitionHealed);
}

#[test]
fn binary_partition_records_the_first_group() {
    let mut controller = NetworkPartitionController::new();
    let action = controller
        .start_partition(PartitionScenario::BinaryPartition { duration: 30, group_size: 3 })
        .unwrap();
    assert_eq!(action, PartitionAction::SleepThenHeal { duration: 30 });
    assert_eq!(controller.partition_history[0].affected_nodes, vec![0, 1, 2]);
    let gradual = controller
        .start_partition(PartitionScenario::GradualHealing { total_duration: 50, heal_interval: 10 })
        .unwrap();
    assert_eq!(gradual, PartitionAction::GradualHealing { total_duration: 50, heal_interval: 10 });
    assert_eq!(controller.partition_history.len(), 1);
}

#[test]
fn mock_state_machine_hashes_executed_blocks() {
    let mut machine = MockStateMachine::new();
    let empty = machine.get_state_hash();
    assert_eq!(empty, hotstuff2::types::hash::Hash::from_bytes(&[]));
    let b1 = Block::new(hotstuff2::types::hash::Hash::zero(), vec![], 1, 0);
    let b2 = Block::new(b1.hash, vec![], 2, 0);
    machine.execute_block(&b1).unwrap();
    machine.execute_block(&b2).unwrap();
    let mut data = Vec::new();
    data.extend_from_slice(b1.hash.as_bytes());
    data.extend_from_slice(b2.hash.as_bytes());
    assert_eq!(machine.get_state_hash(), hotstuff2::types::hash::Hash::from_bytes(&data));
}

#[test]
fn system_stats_sum_node_stats() {
    let node = |id: u64, height: u64, sync: bool, pending: usize| NodeStats {
        node_id: id,
        current_height: height,
        current_view: height,
        is_synchronous: sync,
        pending_transactions: pending,
        pipeline_stages: 0,
    };
    let stats = SystemStats::from_node_stats(vec![node(0, 3, true, 5), node(1, 4, false, 6), node(2, 5, true, 0)], 4);
    assert_eq!(stats.total_transactions, 11);
    assert_eq!(stats.total_blocks, 12);
    assert_eq!(stats.synchronous_nodes, 2);
    assert_eq!(stats.total_nodes, 4);
    assert_eq!(stats.node_stats.len(), 3);
}

#[test]
fn benchmark_config_defaults() {
    let config = BenchmarkConfig::default();
    assert_eq!(config.num_nodes, 4);
    assert_eq!(config.num_transactions, 1000);
    assert_eq!(config.transaction_size, 1000);
    assert_eq!(config.batch_size, 100);
    assert_eq!(config.duration_secs, 30);
    assert_eq!(config.network_latency_ms, 50);
    assert_eq!(config.network_variance_ms, 10);
    assert_eq!(config.byzantine_nodes, 0);
    assert!(config.enable_optimistic);
}

#[test]
fn timer_registry_decides_starts_and_cancels() {
    let mut registry = TimerRegistry::new();
    let key = TimeoutKey { height: 3, round: 1 };
    let other = TimeoutKey { height: 3, round: 2 };
    assert_eq!(registry.step(TimerEvent::Start(key)).unwrap(), TimerAction::Arm(key));
    let err = registry.step(TimerEvent::Start(key)).unwrap_err();
    assert_eq!(err.error_kind(), ErrorKind::Timer);
    assert_eq!(err.describe(), "Timeout already exists for this key");
    assert_eq!(registry.step(TimerEvent::Start(other)).unwrap(), TimerAction::Arm(other));
    assert_eq!(registry.len(), 2);
    assert_eq!(registry.step(TimerEvent::Cancel(key)).unwrap(), TimerAction::Disarm(key));
    let err = registry.step(TimerEvent::Cancel(key)).unwrap_err();
    assert_eq!(err.describe(), "No timeout found for this key");
    assert_eq!(registry.step(TimerEvent::Expired(other)).unwrap(), TimerAction::Nothing);
    assert_eq!(registry.len(), 0);
    assert_eq!(registry.step(TimerEvent::Expired(other)).unwrap(), TimerAction::Nothing);
    assert_eq!(registry.step(TimerEvent::Start(key)).unwrap(), TimerAction::Arm(key));
}

#[test]
fn benchmark_counts_full_batches() {
    assert_eq!(committed_counts(250, 100), (2, 200));
    assert_eq!(committed_counts(50, 100), (1, 100));
    assert_eq!(committed_counts(0, 10), (1, 10));
    assert_eq!(committed_counts(1000, 100), (10, 1000));
    assert_eq!(latency_estimates_ms(true), (50, 80, 120, 30));
    assert_eq!(latency_estimates_ms(false), (100, 150, 200, 60));
}
