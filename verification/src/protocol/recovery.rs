use vstd::prelude::*;
use vstd::prelude::View as _;
use crate::error::{ErrorKind, HotStuffError};
use crate::protocol::hotstuff2::{
    cut_by_ages, scheduled_leader, stale_floor, ChainState, ChainStateView, HotStuff2Core, ReplicaView,
};
use crate::timer::clock::{elapsed_nanos, instant_now};
use crate::types::bytes::copy_bytes;
use crate::types::quorum_cert::QuorumCertView;

verus! {

/// Nanoseconds in one second.
pub const NANOS_PER_SEC: u128 = 1_000_000_000;

/// A saved copy of a replica's state, to recover from.
pub struct Checkpoint {
    pub height: u64,
    pub view: u64,
    pub chain_state: ChainState,
    /// The state machine's snapshot, as the state machine encoded it.
    pub state_snapshot: Vec<u8>,
    pub timestamp: std::time::Instant,
    pub block_hashes: Vec<crate::types::hash::Hash>,
}

/// The mathematical value of a checkpoint.
pub struct CheckpointView {
    pub height: u64,
    pub view: u64,
    pub chain: ChainStateView,
    pub snapshot: Seq<u8>,
    pub block_hashes: Seq<Seq<u8>>,
}

impl vstd::prelude::View for Checkpoint {
    type V = CheckpointView;

    open spec fn view(&self) -> CheckpointView {
        CheckpointView {
            height: self.height,
            view: self.view,
            chain: self.chain_state@,
            snapshot: self.state_snapshot@,
            block_hashes: self.block_hashes@.map_values(|h: crate::types::hash::Hash| h@),
        }
    }
}

/// Counters of the recoveries performed.
#[derive(Debug, Clone, Copy)]
pub struct RecoveryStats {
    pub total_recoveries: u64,
    pub view_change_recoveries: u64,
    pub state_recoveries: u64,
    pub checkpoint_recoveries: u64,
    /// When the last recovery started.
    pub last_recovery_time: Option<std::time::Instant>,
    /// How long the last recovery took, in nanoseconds.
    pub last_recovery_duration: Option<u128>,
}

impl Default for RecoveryStats {
    fn default() -> (s: RecoveryStats)
        ensures
            s.total_recoveries == 0,
            s.view_change_recoveries == 0,
            s.state_recoveries == 0,
            s.checkpoint_recoveries == 0,
            s.last_recovery_time is None,
            s.last_recovery_duration is None,
    {
        RecoveryStats {
            total_recoveries: 0,
            view_change_recoveries: 0,
            state_recoveries: 0,
            checkpoint_recoveries: 0,
            last_recovery_time: None,
            last_recovery_duration: None,
        }
    }
}

/// The kinds of recovery.
#[derive(Debug, Clone, Copy, PartialEq, Eq, Structural)]
pub enum RecoveryType {
    ViewChange,
    StateCorruption,
    NetworkPartition,
    ByzantineFault,
    CheckpointRestore,
}

/// The health of a consensus node.
#[derive(Debug, Clone, Copy)]
pub struct HealthStatus {
    pub is_healthy: bool,
    pub current_height: u64,
    pub current_view: u64,
    pub is_synchronous: bool,
    pub pipeline_stages: usize,
    pub pending_transactions: usize,
    pub recovery_stats: RecoveryStats,
    pub has_lock: bool,
    pub last_activity: std::time::Instant,
}

/// Settings of the recovery system; durations are in milliseconds.
#[derive(Debug, Clone, Copy)]
pub struct RecoveryConfig {
    pub checkpoint_interval: u64,
    pub max_checkpoints: usize,
    pub auto_recovery_enabled: bool,
    pub health_check_interval: u64,
    pub view_timeout: u64,
}

impl Default for RecoveryConfig {
    fn default() -> (c: RecoveryConfig)
        ensures
            c.checkpoint_interval == 30_000,
            c.max_checkpoints == 10,
            c.auto_recovery_enabled,
            c.health_check_interval == 10_000,
            c.view_timeout == 30_000,
    {
        RecoveryConfig {
            checkpoint_interval: 30_000,
            max_checkpoints: 10,
            auto_recovery_enabled: true,
            health_check_interval: 10_000,
            view_timeout: 30_000,
        }
    }
}

/// The first height whose block a checkpoint at `height` remembers: ten below it, or 0.
pub open spec fn recent_start(height: u64) -> int {
    if height >= 10 { height - 10 } else { 0 }
}

/// The hashes a checkpoint taken at committed `height` records: one copy of the high
/// certificate's block hash for each height `h` in `recent_start(height)..=height` with
/// `h` at most the certificate's height; none without a high certificate.
pub open spec fn recent_block_hashes(high_qc: Option<QuorumCertView>, height: u64) -> Seq<Seq<u8>> {
    match high_qc {
        None => Seq::empty(),
        Some(qc) => {
            let last: int = if qc.height < height { qc.height as int } else { height as int };
            let n: int = if last >= recent_start(height) { last - recent_start(height) + 1 } else { 0 };
            Seq::new(n as nat, |i: int| qc.block_hash)
        },
    }
}

/// The last `max` items of `s`, or all of them when there are fewer.
pub open spec fn keep_last<T>(s: Seq<T>, max: nat) -> Seq<T> {
    if s.len() > max { s.subrange(s.len() - max, s.len() as int) } else { s }
}

/// A node is healthy when its pipeline holds fewer than 100 stages, its view started less
/// than 30 seconds ago and the network shows activity.
pub open spec fn healthy(pipeline_stages: nat, view_age_nanos: u128, network_active: bool) -> bool {
    pipeline_stages < 100 && view_age_nanos < 30 * NANOS_PER_SEC && network_active
}

/// The recovery steps chosen for a health report.
#[derive(Debug, Clone, Copy, PartialEq, Eq, Structural)]
pub struct RecoveryPlan {
    /// Drop stale pipeline stages.
    pub clear_stale: bool,
    /// Move to the next view.
    pub view_change: bool,
    /// Forget timeouts and move to the next view; the synchrony detector must be reset too.
    pub partition_recovery: bool,
}

/// The recovery steps for an unhealthy node: clear the pipeline when it holds more than 50
/// stages, change view when the last activity is more than 30 seconds old, and recover from a
/// partition when the network is not synchronous after earlier recoveries. A healthy node
/// needs none.
pub open spec fn recovery_plan(h: HealthStatus, last_activity_age_nanos: u128) -> RecoveryPlan {
    RecoveryPlan {
        clear_stale: !h.is_healthy && h.pipeline_stages > 50,
        view_change: !h.is_healthy && last_activity_age_nanos > 30 * NANOS_PER_SEC,
        partition_recovery: !h.is_healthy && !h.is_synchronous && h.recovery_stats.total_recoveries > 0,
    }
}

/// The statistics after one more recovery, of a view change or of a checkpoint restore.
pub open spec fn counted(before: RecoveryStats, after: RecoveryStats, view_change: bool) -> bool {
    &&& after.total_recoveries == before.total_recoveries + 1
    &&& after.view_change_recoveries == before.view_change_recoveries + if view_change { 1int } else { 0int }
    &&& after.checkpoint_recoveries == before.checkpoint_recoveries + if view_change { 0int } else { 1int }
    &&& after.state_recoveries == before.state_recoveries
    &&& after.last_recovery_time is Some
    &&& after.last_recovery_duration is Some
}

/// The replica after a view-change recovery towards `target`: the view moves forward with its
/// scheduled leader; the pipeline is left to the caller's clauses.
pub open spec fn moved_to(s: ReplicaView, target: u64, pipeline: Map<u64, crate::protocol::hotstuff2::StageSummary>) -> ReplicaView {
    ReplicaView {
        view_number: if target > s.view_number { target } else { s.view_number },
        leader: if target > s.view_number { scheduled_leader(s.nodes, s.epoch, target) } else { s.leader },
        pipeline,
        ..s
    }
}

/// Whether `after` holds exactly the stages of `before` whose views are at most `target`.
pub open spec fn pipeline_cut(
    before: Map<u64, crate::protocol::hotstuff2::StageSummary>,
    after: Map<u64, crate::protocol::hotstuff2::StageSummary>,
    target: u64,
) -> bool {
    &&& after.dom() == before.dom().filter(|k: u64| k <= target)
    &&& forall|k: u64| #[trigger] after.contains_key(k) ==> after[k] == before[k]
}

/// Whether `after` keeps only stages of `before`, unchanged.
pub open spec fn pipeline_subset(
    before: Map<u64, crate::protocol::hotstuff2::StageSummary>,
    after: Map<u64, crate::protocol::hotstuff2::StageSummary>,
) -> bool {
    forall|k: u64| #[trigger] after.contains_key(k) ==> before.contains_key(k) && after[k] == before[k]
}

/// Whether `node` and `manager` are what carrying out `plan` makes of `node0` and `manager0`:
/// an optional cut of stale stages, then an optional view change, then an optional partition
/// recovery, each view move counted as a view-change recovery. The first move drops the
/// stages of views beyond its target; the second keeps the rest.
pub open spec fn recovered(
    plan: RecoveryPlan,
    node0: ReplicaView,
    node: ReplicaView,
    manager0: RecoveryManagerView,
    manager: RecoveryManagerView,
) -> bool {
    let v1: u64 = if plan.view_change { (node0.view_number + 1) as u64 } else { node0.view_number };
    let v2: u64 = if plan.partition_recovery { (v1 + 1) as u64 } else { v1 };
    let moved = plan.view_change || plan.partition_recovery;
    let cut: u64 = if plan.view_change { v1 } else { v2 };
    let steps: int = (if plan.view_change { 1int } else { 0int }) + (if plan.partition_recovery { 1int } else { 0int });
    &&& node == (ReplicaView {
        view_number: v2,
        leader: if moved { scheduled_leader(node0.nodes, node0.epoch, v2) } else { node0.leader },
        timeouts: if plan.partition_recovery { Map::empty() } else { node0.timeouts },
        pipeline: node.pipeline,
        ..node0
    })
    &&& pipeline_subset(node0.pipeline, node.pipeline)
    &&& moved ==> forall|k: u64| #[trigger] node.pipeline.contains_key(k) ==> k <= cut
    &&& plan.clear_stale ==> forall|k: u64| #[trigger] node.pipeline.contains_key(k)
        ==> k >= node0.view_number - 5
    &&& !plan.clear_stale ==> node.pipeline.dom() == node0.pipeline.dom().filter(|k: u64| moved ==> k <= cut)
    &&& manager.checkpoints == manager0.checkpoints
    &&& manager.max_checkpoints == manager0.max_checkpoints
    &&& manager.stats.total_recoveries == manager0.stats.total_recoveries + steps
    &&& manager.stats.view_change_recoveries == manager0.stats.view_change_recoveries + steps
    &&& manager.stats.checkpoint_recoveries == manager0.stats.checkpoint_recoveries
    &&& manager.stats.state_recoveries == manager0.stats.state_recoveries
    &&& !moved ==> manager.stats == manager0.stats
}

/// Whether the health verdict `b` is the one for some view age, given the pipeline size and
/// network activity.
pub open spec fn health_verdict(b: bool, pipeline_stages: nat, network_active: bool) -> bool {
    &&& b ==> pipeline_stages < 100 && network_active
    &&& !(pipeline_stages < 100 && network_active) ==> !b
}

/// The health verdict for the given pipeline size, view age and network activity.
pub fn node_health(pipeline_stages: usize, view_age_nanos: u128, network_active: bool) -> (b: bool)
    ensures
        b == healthy(pipeline_stages as nat, view_age_nanos, network_active),
{
    let pipeline_ok = pipeline_stages < 100;
    let view_ok = view_age_nanos < 30 * NANOS_PER_SEC;
    pipeline_ok && view_ok && network_active
}

/// The recovery steps for `health`, whose last activity is `last_activity_age_nanos` old.
pub fn plan_recovery(health: &HealthStatus, last_activity_age_nanos: u128) -> (p: RecoveryPlan)
    ensures
        p == recovery_plan(*health, last_activity_age_nanos),
{
    RecoveryPlan {
        clear_stale: !health.is_healthy && health.pipeline_stages > 50,
        view_change: !health.is_healthy && last_activity_age_nanos > 30 * NANOS_PER_SEC,
        partition_recovery: !health.is_healthy && !health.is_synchronous
            && health.recovery_stats.total_recoveries > 0,
    }
}

/// The hashes to record in a checkpoint taken at committed `height`.
pub fn collect_recent_hashes(high_qc: &Option<crate::types::quorum_cert::QuorumCert>, height: u64) -> (v: Vec<crate::types::hash::Hash>)
    ensures
        v@.map_values(|h: crate::types::hash::Hash| h@)
            == recent_block_hashes(crate::message::consensus::opt_qc_view(*high_qc), height),
{
    let mut hashes: Vec<crate::types::hash::Hash> = Vec::new();
    match high_qc {
        None => {
            assert(hashes@.map_values(|h: crate::types::hash::Hash| h@) =~= Seq::<Seq<u8>>::empty());
        },
        Some(qc) => {
            let start: u64 = if height >= 10 { height - 10 } else { 0 };
            let span: u64 = height - start;
            let ghost first: int = start as int;
            let mut i: u64 = 0;
            while i <= span
                invariant
                    span <= 10,
                    start as int + span as int == height as int,
                    start as int == recent_start(height),
                    i <= span + 1,
                    hashes@.len() == if (qc.height as int) < (start as int) {
                        0int
                    } else if (i as int) < qc.height - start + 1 {
                        i as int
                    } else {
                        qc.height - start + 1
                    },
                    forall|j: int| 0 <= j < hashes@.len() ==> #[trigger] hashes@[j]@ == qc@.block_hash,
                decreases span + 1 - i,
            {
                let h: u64 = start + i;
                if qc.height >= h {
                    hashes.push(qc.block_hash);
                }
                i = i + 1;
            }
            let ghost expected = recent_block_hashes(crate::message::consensus::opt_qc_view(*high_qc), height);
            assert(hashes@.map_values(|h: crate::types::hash::Hash| h@) =~= expected);
        },
    }
    hashes
}

/// The mathematical value of a recovery manager.
pub struct RecoveryManagerView {
    pub checkpoints: Seq<CheckpointView>,
    pub max_checkpoints: nat,
    pub stats: RecoveryStats,
}

/// Keeps the latest checkpoints of a replica and recovers it from failures.
pub struct RecoveryManager {
    checkpoints: std::collections::VecDeque<Checkpoint>,
    max_checkpoints: usize,
    recovery_stats: RecoveryStats,
}

impl vstd::prelude::View for RecoveryManager {
    type V = RecoveryManagerView;

    closed spec fn view(&self) -> RecoveryManagerView {
        RecoveryManagerView {
            checkpoints: self.checkpoints@.map_values(|c: Checkpoint| c@),
            max_checkpoints: self.max_checkpoints as nat,
            stats: self.recovery_stats,
        }
    }
}

impl RecoveryManager {
    /// A manager with no checkpoint, keeping at most ten.
    pub fn new() -> (m: RecoveryManager)
        ensures
            m@.checkpoints == Seq::<CheckpointView>::empty(),
            m@.max_checkpoints == 10,
            m@.stats.total_recoveries == 0,
            m@.stats.view_change_recoveries == 0,
            m@.stats.state_recoveries == 0,
            m@.stats.checkpoint_recoveries == 0,
            m@.stats.last_recovery_time is None,
            m@.stats.last_recovery_duration is None,
    {
        let m = RecoveryManager {
            checkpoints: std::collections::VecDeque::new(),
            max_checkpoints: 10,
            recovery_stats: RecoveryStats::default(),
        };
        assert(m@.checkpoints =~= Seq::<CheckpointView>::empty());
        m
    }

    /// The checkpoints kept, oldest first.
    pub fn checkpoints(&self) -> (c: &std::collections::VecDeque<Checkpoint>)
        ensures
            c@.map_values(|x: Checkpoint| x@) == self@.checkpoints,
    {
        &self.checkpoints
    }

    /// Saves the replica's chain state, view and committed height with the state machine's
    /// snapshot, keeping only the latest checkpoints. Without a snapshot, fails with a storage
    /// error and saves nothing.
    pub fn create_checkpoint(&mut self, node: &HotStuff2Core, state_snapshot: Option<Vec<u8>>) -> (r: Result<(), HotStuffError>)
        ensures
            state_snapshot is None <==> r is Err,
            r is Err ==> {
                &&& r->Err_0.kind() == ErrorKind::Storage
                &&& r->Err_0.message() == "Failed to create state snapshot"@
                &&& final(self)@ == old(self)@
            },
            r is Ok ==> final(self)@ == (RecoveryManagerView {
                checkpoints: keep_last(
                    old(self)@.checkpoints.push(CheckpointView {
                        height: node@.chain.committed_height,
                        view: node@.view_number,
                        chain: node@.chain,
                        snapshot: state_snapshot->Some_0@,
                        block_hashes: recent_block_hashes(node@.chain.high_qc, node@.chain.committed_height),
                    }),
                    old(self)@.max_checkpoints,
                ),
                ..old(self)@
            }),
    {
        let chain_state = node.chain_state().clone();
        let current_view = node.current_view().number;
        let current_height = chain_state.committed_height;
        let snapshot = match state_snapshot {
            Some(s) => s,
            None => {
                return Err(HotStuffError::storage("Failed to create state snapshot"));
            },
        };
        let block_hashes = collect_recent_hashes(&chain_state.high_qc, current_height);
        let checkpoint = Checkpoint {
            height: current_height,
            view: current_view,
            chain_state,
            state_snapshot: snapshot,
            timestamp: instant_now(),
            block_hashes,
        };
        let ghost before = self.checkpoints@;
        self.checkpoints.push_back(checkpoint);
        let ghost pushed = self.checkpoints@;
        assert(pushed == before.push(checkpoint));
        while self.checkpoints.len() > self.max_checkpoints
            invariant
                pushed.len() >= 1,
                self.checkpoints@.len() <= pushed.len(),
                self.checkpoints@ == pushed.subrange(pushed.len() - self.checkpoints@.len(), pushed.len() as int),
                self.checkpoints@.len() == pushed.len() || self.checkpoints@.len() >= self.max_checkpoints,
                self.max_checkpoints == old(self).max_checkpoints,
                self.recovery_stats == old(self).recovery_stats,
            decreases self.checkpoints@.len(),
        {
            let ghost cur = self.checkpoints@;
            let _oldest = self.checkpoints.pop_front();
            assert(self.checkpoints@ =~= pushed.subrange(pushed.len() - self.checkpoints@.len(), pushed.len() as int)) by {
                assert forall|j: int| 0 <= j < self.checkpoints@.len() implies self.checkpoints@[j]
                    == pushed[pushed.len() - self.checkpoints@.len() + j] by {
                    assert(self.checkpoints@[j] == cur[j + 1]);
                }
            }
        }
        proof {
            let kept = keep_last(pushed, self.max_checkpoints as nat);
            if pushed.len() > self.max_checkpoints {
                assert(self.checkpoints@ =~= kept);
            } else {
                assert(self.checkpoints@ =~= pushed);
            }
            assert(pushed.map_values(|c: Checkpoint| c@) =~= before.map_values(|c: Checkpoint| c@).push(checkpoint@));
            assert(self.checkpoints@.map_values(|c: Checkpoint| c@)
                =~= keep_last(pushed.map_values(|c: Checkpoint| c@), self.max_checkpoints as nat));
        }
        Ok(())
    }

    /// Counts one more recovery that started at `start`.
    fn record_recovery(&mut self, view_change: bool, start: std::time::Instant)
        requires
            old(self)@.stats.total_recoveries < u64::MAX,
            view_change ==> old(self)@.stats.view_change_recoveries < u64::MAX,
            !view_change ==> old(self)@.stats.checkpoint_recoveries < u64::MAX,
        ensures
            counted(old(self)@.stats, final(self)@.stats, view_change),
            final(self)@.checkpoints == old(self)@.checkpoints,
            final(self)@.max_checkpoints == old(self)@.max_checkpoints,
    {
        let duration = elapsed_nanos(&start);
        self.recovery_stats.total_recoveries = self.recovery_stats.total_recoveries + 1;
        if view_change {
            self.recovery_stats.view_change_recoveries = self.recovery_stats.view_change_recoveries + 1;
        } else {
            self.recovery_stats.checkpoint_recoveries = self.recovery_stats.checkpoint_recoveries + 1;
        }
        self.recovery_stats.last_recovery_time = Some(start);
        self.recovery_stats.last_recovery_duration = Some(duration);
    }

    /// Puts the replica back to the latest checkpoint's chain state and view number, and hands
    /// back that checkpoint's state-machine snapshot for the state machine to restore. Without
    /// a checkpoint, fails with a storage error and changes nothing.
    pub fn recover_from_checkpoint(&mut self, node: &mut HotStuff2Core) -> (r: Result<Vec<u8>, HotStuffError>)
        requires
            old(node).wf(),
            old(self)@.stats.total_recoveries < u64::MAX,
            old(self)@.stats.checkpoint_recoveries < u64::MAX,
        ensures
            final(node).wf(),
            old(self)@.checkpoints.len() == 0 <==> r is Err,
            r is Err ==> {
                &&& r->Err_0.kind() == ErrorKind::Storage
                &&& r->Err_0.message() == "No checkpoints available for recovery"@
                &&& final(self)@ == old(self)@
                &&& final(node)@ == old(node)@
            },
            r is Ok ==> {
                let latest = old(self)@.checkpoints.last();
                &&& r->Ok_0@ == latest.snapshot
                &&& final(node)@ == (ReplicaView { chain: latest.chain, view_number: latest.view, ..old(node)@ })
                &&& final(self)@.checkpoints == old(self)@.checkpoints
                &&& final(self)@.max_checkpoints == old(self)@.max_checkpoints
                &&& counted(old(self)@.stats, final(self)@.stats, false)
            },
    {
        let start = instant_now();
        let n = self.checkpoints.len();
        if n == 0 {
            return Err(HotStuffError::storage("No checkpoints available for recovery"));
        }
        let chain_state = self.checkpoints[n - 1].chain_state.clone();
        let view = self.checkpoints[n - 1].view;
        let snapshot = copy_bytes(self.checkpoints[n - 1].state_snapshot.as_slice());
        assert(self@.checkpoints.last() == self.checkpoints@[n - 1]@);
        node.restore(chain_state, view);
        self.record_recovery(false, start);
        Ok(snapshot)
    }

    /// Moves the replica to `target_view` when it is ahead, with its scheduled leader, and drops
    /// the pipeline stages of later views.
    pub fn recover_from_view_change(&mut self, node: &mut HotStuff2Core, target_view: u64) -> (r: Result<(), HotStuffError>)
        requires
            old(node).wf(),
            old(self)@.stats.total_recoveries < u64::MAX,
            old(self)@.stats.view_change_recoveries < u64::MAX,
        ensures
            r is Ok,
            final(node).wf(),
            final(node)@ == moved_to(old(node)@, target_view, final(node)@.pipeline),
            pipeline_cut(old(node)@.pipeline, final(node)@.pipeline, target_view),
            final(self)@.checkpoints == old(self)@.checkpoints,
            final(self)@.max_checkpoints == old(self)@.max_checkpoints,
            counted(old(self)@.stats, final(self)@.stats, true),
    {
        let start = instant_now();
        node.recover_to_view(target_view);
        self.record_recovery(true, start);
        Ok(())
    }

    /// Answers evidence that `suspected_node` misbehaved by moving to the next view.
    pub fn handle_byzantine_fault(&mut self, node: &mut HotStuff2Core, suspected_node: u64, evidence: &str) -> (r: Result<(), HotStuffError>)
        requires
            old(node).wf(),
            old(node)@.view_number < u64::MAX,
            old(self)@.stats.total_recoveries < u64::MAX,
            old(self)@.stats.view_change_recoveries < u64::MAX,
        ensures
            r is Ok,
            final(node).wf(),
            final(node)@ == moved_to(old(node)@, (old(node)@.view_number + 1) as u64, final(node)@.pipeline),
            pipeline_cut(old(node)@.pipeline, final(node)@.pipeline, (old(node)@.view_number + 1) as u64),
            final(self)@.checkpoints == old(self)@.checkpoints,
            final(self)@.max_checkpoints == old(self)@.max_checkpoints,
            counted(old(self)@.stats, final(self)@.stats, true),
    {
        let current_view = node.current_view().number;
        self.recover_from_view_change(node, current_view + 1)
    }

    /// Recovers from a network partition: forgets the replica's timeouts and moves to the next
    /// view. Resetting the synchrony detector is left to its owner.
    pub fn handle_network_partition_recovery(&mut self, node: &mut HotStuff2Core) -> (r: Result<(), HotStuffError>)
        requires
            old(node).wf(),
            old(node)@.view_number < u64::MAX,
            old(self)@.stats.total_recoveries < u64::MAX,
            old(self)@.stats.view_change_recoveries < u64::MAX,
        ensures
            r is Ok,
            final(node).wf(),
            final(node)@ == moved_to(
                ReplicaView { timeouts: Map::empty(), ..old(node)@ },
                (old(node)@.view_number + 1) as u64,
                final(node)@.pipeline,
            ),
            pipeline_cut(old(node)@.pipeline, final(node)@.pipeline, (old(node)@.view_number + 1) as u64),
            final(self)@.checkpoints == old(self)@.checkpoints,
            final(self)@.max_checkpoints == old(self)@.max_checkpoints,
            counted(old(self)@.stats, final(self)@.stats, true),
    {
        node.clear_timeouts();
        let current_view = node.current_view().number;
        self.recover_from_view_change(node, current_view + 1)
    }

    /// Whether the replica is healthy: fewer than 100 pipeline stages, a view younger than 30
    /// seconds by the clock, and network activity.
    pub fn is_node_healthy(&self, node: &HotStuff2Core, network_active: bool) -> (b: bool)
        requires
            node.wf(),
        ensures
            health_verdict(b, node@.pipeline.len(), network_active),
    {
        let age = node.view_age_nanos();
        node_health(node.pipeline_len(), age, network_active)
    }

    /// A health report of the replica, given what the synchrony detector and the transaction
    /// pool report.
    pub fn health_check(
        &self,
        node: &HotStuff2Core,
        is_synchronous: bool,
        network_active: bool,
        pending_transactions: usize,
    ) -> (r: Result<HealthStatus, HotStuffError>)
        requires
            node.wf(),
        ensures
            r is Ok,
            health_verdict(r->Ok_0.is_healthy, node@.pipeline.len(), network_active),
            r->Ok_0.current_height == node@.chain.committed_height,
            r->Ok_0.current_view == node@.view_number,
            r->Ok_0.is_synchronous == is_synchronous,
            r->Ok_0.pipeline_stages == node@.pipeline.len(),
            r->Ok_0.pending_transactions == pending_transactions,
            r->Ok_0.recovery_stats == self@.stats,
            r->Ok_0.has_lock == node@.chain.locked_qc is Some,
    {
        let is_healthy = self.is_node_healthy(node, network_active);
        let view = node.current_view();
        let health = HealthStatus {
            is_healthy,
            current_height: node.chain_state().committed_height,
            current_view: view.number,
            is_synchronous,
            pipeline_stages: node.pipeline_len(),
            pending_transactions,
            recovery_stats: self.recovery_stats,
            has_lock: node.chain_state().locked_qc.is_some(),
            last_activity: view.start_time,
        };
        Ok(health)
    }

    /// The recovery statistics.
    pub fn get_recovery_stats(&self) -> (s: RecoveryStats)
        ensures
            s == self@.stats,
    {
        self.recovery_stats
    }

    /// Drops the pipeline stages more than five views behind the current view and those that
    /// started a minute or more ago.
    pub fn clear_stale_pipeline_stages(&self, node: &mut HotStuff2Core) -> (r: Result<(), HotStuffError>)
        requires
            old(node).wf(),
        ensures
            r is Ok,
            final(node).wf(),
            final(node)@ == (ReplicaView { pipeline: final(node)@.pipeline, ..old(node)@ }),
            pipeline_subset(old(node)@.pipeline, final(node)@.pipeline),
            forall|k: u64| #[trigger] final(node)@.pipeline.contains_key(k) ==> k >= old(node)@.view_number - 5,
            exists|ages: Seq<(u64, u128)>| #[trigger] cut_by_ages(
                old(node)@.pipeline.dom(),
                final(node)@.pipeline.dom(),
                stale_floor(old(node)@.view_number),
                u64::MAX,
                Some((60 * NANOS_PER_SEC) as u128),
                ages,
            ),
    {
        node.clear_stale_pipeline(60 * NANOS_PER_SEC);
        Ok(())
    }

    /// Carries out the steps of `plan` in order: clearing stale stages, changing view, then
    /// recovering from a partition.
    pub fn apply_recovery_plan(&mut self, node: &mut HotStuff2Core, plan: RecoveryPlan) -> (r: Result<(), HotStuffError>)
        requires
            old(node).wf(),
            old(node)@.view_number < u64::MAX - 1,
            old(self)@.stats.total_recoveries < u64::MAX - 1,
            old(self)@.stats.view_change_recoveries < u64::MAX - 1,
        ensures
            r is Ok,
            final(node).wf(),
            recovered(plan, old(node)@, final(node)@, old(self)@, final(self)@),
    {
        let ghost n0 = node@;
        if plan.clear_stale {
            self.clear_stale_pipeline_stages(node)?;
        }
        let ghost n1 = node@;
        let ghost s1 = self@.stats;
        if plan.view_change {
            let current_view = node.current_view().number;
            self.recover_from_view_change(node, current_view + 1)?;
        }
        let ghost n2 = node@;
        let ghost s2 = self@.stats;
        if plan.partition_recovery {
            self.handle_network_partition_recovery(node)?;
        }
        proof {
            let v1: u64 = if plan.view_change { (n0.view_number + 1) as u64 } else { n0.view_number };
            let v2: u64 = if plan.partition_recovery { (v1 + 1) as u64 } else { v1 };
            let moved = plan.view_change || plan.partition_recovery;
            let cut: u64 = if plan.view_change { v1 } else { v2 };
            if !plan.clear_stale {
                assert(n1 == n0);
                if plan.view_change && plan.partition_recovery {
                    assert(node@.pipeline.dom() =~= n0.pipeline.dom().filter(|k: u64| moved ==> k <= cut));
                } else if plan.view_change {
                    assert(node@.pipeline.dom() =~= n0.pipeline.dom().filter(|k: u64| moved ==> k <= cut));
                } else if plan.partition_recovery {
                    assert(node@.pipeline.dom() =~= n0.pipeline.dom().filter(|k: u64| moved ==> k <= cut));
                } else {
                    assert(node@.pipeline.dom() =~= n0.pipeline.dom().filter(|k: u64| moved ==> k <= cut));
                }
            }
            if plan.view_change {
                assert forall|k: u64| #[trigger] n2.pipeline.contains_key(k) implies n1.pipeline.contains_key(k)
                    && n2.pipeline[k] == n1.pipeline[k] by {
                    assert(n2.pipeline.dom().contains(k));
                }
            }
            if plan.partition_recovery {
                assert forall|k: u64| #[trigger] node@.pipeline.contains_key(k) implies n2.pipeline.contains_key(k)
                    && node@.pipeline[k] == n2.pipeline[k] by {
                    assert(node@.pipeline.dom().contains(k));
                }
            }
        }
        Ok(())
    }

    /// Checks the replica's health and, when it is unhealthy, carries out the recovery steps
    /// that the report calls for; returns those steps.
    pub fn auto_recovery(
        &mut self,
        node: &mut HotStuff2Core,
        is_synchronous: bool,
        network_active: bool,
        pending_transactions: usize,
    ) -> (r: Result<RecoveryPlan, HotStuffError>)
        requires
            old(node).wf(),
            old(node)@.view_number < u64::MAX - 1,
            old(self)@.stats.total_recoveries < u64::MAX - 1,
            old(self)@.stats.view_change_recoveries < u64::MAX - 1,
        ensures
            r is Ok,
            final(node).wf(),
            r->Ok_0.clear_stale ==> old(node)@.pipeline.len() > 50,
            r->Ok_0.partition_recovery ==> !is_synchronous && old(self)@.stats.total_recoveries > 0,
            old(node)@.pipeline.len() >= 100 ==> r->Ok_0.clear_stale,
            !network_active && !is_synchronous && old(self)@.stats.total_recoveries > 0
                ==> r->Ok_0.partition_recovery,
            recovered(r->Ok_0, old(node)@, final(node)@, old(self)@, final(self)@),
    {
        let health = self.health_check(node, is_synchronous, network_active, pending_transactions)?;
        let age = elapsed_nanos(&health.last_activity);
        let plan = plan_recovery(&health, age);
        self.apply_recovery_plan(node, plan)?;
        Ok(plan)
    }
}

} // verus!
