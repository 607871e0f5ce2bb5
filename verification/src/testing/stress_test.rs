use vstd::prelude::*;
use crate::error::HotStuffError;
use crate::timer::clock::instant_now;
use crate::types::bytes::decimal;
use crate::types::transaction::Transaction;

verus! {

broadcast use vstd::std_specs::hash::group_hash_axioms;

/// The per-thread random generator of the `rand` crate.
#[verifier::external_type_specification]
#[verifier::external_body]
pub struct ExThreadRng(rand::rngs::ThreadRng);

/// The calling thread's random generator, from `rand::rng`.
#[verifier::external_body]
pub(crate) fn thread_rng() -> (r: rand::rngs::ThreadRng) {
    rand::rng()
}

/// A uniformly random byte drawn with `Rng::random`; nothing is promised of its value.
#[verifier::external_body]
pub(crate) fn random_byte(rng: &mut rand::rngs::ThreadRng) -> (b: u8) {
    rand::Rng::random(rng)
}

/// The characters of `n` written in decimal.
pub open spec fn decimal_chars(n: nat) -> Seq<char> {
    decimal(n).map_values(|b: u8| b as char)
}

/// The identifier of the `count`-th transaction generated for `node`: `tx_<node>_<count>`.
pub open spec fn tx_name(node: nat, count: nat) -> Seq<char> {
    seq!['t', 'x', '_'] + decimal_chars(node) + seq!['_'] + decimal_chars(count)
}

/// The identifier `tx_<node>_<count>`, written with `format!`, which prints integers in decimal.
#[verifier::external_body]
fn transaction_id(node: usize, count: u64) -> (s: String)
    ensures
        s@ == tx_name(node as nat, count as nat),
{
    format!("tx_{}_{}", node, count)
}

/// A generator of load-test transactions for one node.
pub struct TransactionGenerator {
    node_id: usize,
    _target_tps: u64,
    transaction_size: usize,
    pub generated_count: u64,
}

impl TransactionGenerator {
    /// The node the transactions are generated for.
    pub closed spec fn node(&self) -> nat {
        self.node_id as nat
    }

    /// The number of transactions generated so far.
    pub closed spec fn generated(&self) -> u64 {
        self.generated_count
    }

    /// The payload size of each generated transaction.
    pub closed spec fn payload_size(&self) -> nat {
        self.transaction_size as nat
    }

    /// A generator for `node_id` with 256-byte payloads; the seed is not used.
    pub fn new(node_id: usize, target_tps: u64, _seed: u64) -> (g: TransactionGenerator)
        ensures
            g.node() == node_id,
            g.payload_size() == 256,
            g.generated() == 0,
    {
        TransactionGenerator { node_id, _target_tps: target_tps, transaction_size: 256, generated_count: 0 }
    }

    /// Generates `batch_size` transactions with random payloads, named `tx_<node>_<n>` with `n`
    /// counting on from the transactions generated before.
    pub fn generate_batch(&mut self, batch_size: usize) -> (txs: Vec<Transaction>)
        requires
            old(self).generated() + batch_size <= u64::MAX,
        ensures
            txs@.len() == batch_size,
            final(self).generated() == old(self).generated() + batch_size,
            final(self).node() == old(self).node(),
            final(self).payload_size() == old(self).payload_size(),
            forall|i: int| 0 <= i < batch_size ==> {
                &&& (#[trigger] txs@[i])@.id == tx_name(old(self).node(), (old(self).generated() + i) as nat)
                &&& txs@[i]@.data.len() == old(self).payload_size()
            },
    {
        let mut transactions: Vec<Transaction> = Vec::new();
        let mut rng = thread_rng();
        let mut k: usize = 0;
        while k < batch_size
            invariant
                k <= batch_size,
                transactions@.len() == k,
                self.generated_count == old(self).generated_count + k,
                old(self).generated_count + batch_size <= u64::MAX,
                self.node_id == old(self).node_id,
                self.transaction_size == old(self).transaction_size,
                forall|i: int| 0 <= i < k ==> {
                    &&& (#[trigger] transactions@[i])@.id == tx_name(old(self).node(), (old(self).generated_count + i) as nat)
                    &&& transactions@[i]@.data.len() == old(self).payload_size()
                },
            decreases batch_size - k,
        {
            let mut tx_data: Vec<u8> = Vec::new();
            let mut j: usize = 0;
            while j < self.transaction_size
                invariant
                    j <= self.transaction_size,
                    tx_data@.len() == j,
                decreases self.transaction_size - j,
            {
                tx_data.push(random_byte(&mut rng));
                j = j + 1;
            }
            let id = transaction_id(self.node_id, self.generated_count);
            let transaction = Transaction::new(id, tx_data);
            transactions.push(transaction);
            self.generated_count = self.generated_count + 1;
            k = k + 1;
        }
        transactions
    }
}

/// How a network partition is laid out; durations are in milliseconds.
#[derive(Debug, Clone)]
pub enum PartitionScenario {
    /// Split the network into two groups.
    BinaryPartition { duration: u64, group_size: usize },
    /// Isolate the given nodes.
    NodeIsolation { duration: u64, isolated_nodes: Vec<usize> },
    /// Create several small partitions.
    MultiPartition { duration: u64, partition_sizes: Vec<usize> },
    /// Heal the network gradually.
    GradualHealing { total_duration: u64, heal_interval: u64 },
}

/// The kinds of partition event.
#[derive(Debug, Clone, Copy, PartialEq, Eq, Structural)]
pub enum PartitionEventType {
    PartitionCreated,
    PartitionHealed,
    NodeIsolated,
    NodeReconnected,
}

/// A recorded change of the partition layout.
#[derive(Debug)]
pub struct PartitionEvent {
    pub timestamp: std::time::Instant,
    pub event_type: PartitionEventType,
    pub affected_nodes: Vec<usize>,
}

/// The kind of an event and the nodes it affected.
pub open spec fn event_view(e: PartitionEvent) -> (PartitionEventType, Seq<usize>) {
    (e.event_type, e.affected_nodes@)
}

/// What the caller must do once a partition scenario has started; durations in milliseconds.
#[derive(Debug, Clone, Copy, PartialEq, Eq, Structural)]
pub enum PartitionAction {
    /// Wait for `duration`, then heal every partition.
    SleepThenHeal { duration: u64 },
    /// Keep waiting `heal_interval` at a time until `total_duration` has passed.
    GradualHealing { total_duration: u64, heal_interval: u64 },
}

/// The nodes `0..n`.
pub open spec fn first_nodes(n: nat) -> Seq<usize> {
    Seq::new(n, |i: int| i as usize)
}

/// Records network partitions for tests and which nodes each partition blocks.
pub struct NetworkPartitionController {
    active_partitions: std::collections::HashMap<usize, Vec<usize>>,
    pub partition_history: Vec<PartitionEvent>,
}

impl NetworkPartitionController {
    /// The active partitions: for each node, the nodes it is blocked from.
    pub closed spec fn active(&self) -> Map<usize, Seq<usize>> {
        self.active_partitions@.map_values(|v: Vec<usize>| v@)
    }

    /// The recorded events, oldest first.
    pub closed spec fn history(&self) -> Seq<(PartitionEventType, Seq<usize>)> {
        self.partition_history@.map_values(|e: PartitionEvent| event_view(e))
    }

    /// A controller with no partition and no history.
    pub fn new() -> (c: NetworkPartitionController)
        ensures
            c.active() == Map::<usize, Seq<usize>>::empty(),
            c.history() == Seq::<(PartitionEventType, Seq<usize>)>::empty(),
    {
        let c = NetworkPartitionController {
            active_partitions: std::collections::HashMap::new(),
            partition_history: Vec::new(),
        };
        assert(c.active() =~= Map::<usize, Seq<usize>>::empty());
        assert(c.history() =~= Seq::<(PartitionEventType, Seq<usize>)>::empty());
        c
    }

    fn record(&mut self, event_type: PartitionEventType, affected_nodes: Vec<usize>)
        ensures
            final(self).history() == old(self).history().push((event_type, affected_nodes@)),
            final(self).active() == old(self).active(),
    {
        let event = PartitionEvent { timestamp: instant_now(), event_type, affected_nodes };
        self.partition_history.push(event);
        assert(self.history() =~= old(self).history().push((event_type, event.affected_nodes@)));
    }

    /// Splits off the nodes `0..group_size` and records it.
    pub fn apply_binary_partition(&mut self, group_size: usize) -> (r: Result<(), HotStuffError>)
        ensures
            r is Ok,
            final(self).history() == old(self).history().push(
                (PartitionEventType::PartitionCreated, first_nodes(group_size as nat)),
            ),
            final(self).active() == old(self).active(),
    {
        let mut nodes: Vec<usize> = Vec::new();
        let mut i: usize = 0;
        while i < group_size
            invariant
                i <= group_size,
                nodes@ == first_nodes(i as nat),
            decreases group_size - i,
        {
            nodes.push(i);
            i = i + 1;
            assert(nodes@ =~= first_nodes(i as nat));
        }
        self.record(PartitionEventType::PartitionCreated, nodes);
        Ok(())
    }

    /// Cuts each of `isolated_nodes` off from the rest and records it.
    pub fn isolate_nodes(&mut self, isolated_nodes: Vec<usize>) -> (r: Result<(), HotStuffError>)
        ensures
            r is Ok,
            final(self).history() == old(self).history().push((PartitionEventType::NodeIsolated, isolated_nodes@)),
            final(self).active() == Map::new(
                |k: usize| old(self).active().contains_key(k) || isolated_nodes@.contains(k),
                |k: usize| if isolated_nodes@.contains(k) { Seq::<usize>::empty() } else { old(self).active()[k] },
            ),
    {
        let mut i: usize = 0;
        while i < isolated_nodes.len()
            invariant
                i <= isolated_nodes@.len(),
                self.active() == Map::new(
                    |k: usize| old(self).active().contains_key(k) || isolated_nodes@.subrange(0, i as int).contains(k),
                    |k: usize| if isolated_nodes@.subrange(0, i as int).contains(k) {
                        Seq::<usize>::empty()
                    } else {
                        old(self).active()[k]
                    },
                ),
                self.partition_history@ == old(self).partition_history@,
            decreases isolated_nodes@.len() - i,
        {
            let ghost before = self.active();
            let node = isolated_nodes[i];
            self.active_partitions.insert(node, Vec::new());
            let ghost seen = isolated_nodes@.subrange(0, i as int);
            let ghost seen2 = isolated_nodes@.subrange(0, i + 1);
            assert(seen2 =~= seen.push(node));
            i = i + 1;
            assert forall|k: usize| seen2.contains(k) <==> (seen.contains(k) || k == node) by {
                if seen2.contains(k) {
                    let j = choose|j: int| 0 <= j < seen2.len() && seen2[j] == k;
                    if j < seen.len() {
                        assert(seen[j] == k);
                    }
                }
                if seen.contains(k) {
                    let j = choose|j: int| 0 <= j < seen.len() && seen[j] == k;
                    assert(seen2[j] == k);
                }
                if k == node {
                    assert(seen2[seen.len() as int] == k);
                }
            }
            assert(self.active() =~= before.insert(node, Seq::<usize>::empty()));
            assert(self.active() =~= Map::new(
                |k: usize| old(self).active().contains_key(k) || seen2.contains(k),
                |k: usize| if seen2.contains(k) { Seq::<usize>::empty() } else { old(self).active()[k] },
            ));
        }
        assert(isolated_nodes@.subrange(0, isolated_nodes@.len() as int) =~= isolated_nodes@);
        self.record(PartitionEventType::NodeIsolated, isolated_nodes);
        Ok(())
    }

    /// Creates partitions of the given sizes; records nothing.
    pub fn apply_multi_partition(&mut self, _partition_sizes: Vec<usize>) -> (r: Result<(), HotStuffError>)
        ensures
            r is Ok,
            final(self).history() == old(self).history(),
            final(self).active() == old(self).active(),
    {
        Ok(())
    }

    /// Removes every partition and records the healing.
    pub fn heal_all_partitions(&mut self) -> (r: Result<(), HotStuffError>)
        ensures
            r is Ok,
            final(self).active() == Map::<usize, Seq<usize>>::empty(),
            final(self).history() == old(self).history().push(
                (PartitionEventType::PartitionHealed, Seq::<usize>::empty()),
            ),
    {
        self.active_partitions.clear();
        assert(self.active() =~= Map::<usize, Seq<usize>>::empty());
        self.record(PartitionEventType::PartitionHealed, Vec::new());
        Ok(())
    }

    /// Starts `scenario` and says what the caller must do next: wait and heal, or heal
    /// gradually.
    pub fn start_partition(&mut self, scenario: PartitionScenario) -> (r: Result<PartitionAction, HotStuffError>)
        ensures
            r is Ok,
            match scenario {
                PartitionScenario::BinaryPartition { duration, group_size } => {
                    &&& r->Ok_0 == (PartitionAction::SleepThenHeal { duration })
                    &&& final(self).history() == old(self).history().push(
                        (PartitionEventType::PartitionCreated, first_nodes(group_size as nat)),
                    )
                    &&& final(self).active() == old(self).active()
                },
                PartitionScenario::NodeIsolation { duration, isolated_nodes } => {
                    &&& r->Ok_0 == (PartitionAction::SleepThenHeal { duration })
                    &&& final(self).history() == old(self).history().push(
                        (PartitionEventType::NodeIsolated, isolated_nodes@),
                    )
                    &&& forall|k: usize| #[trigger] isolated_nodes@.contains(k) ==> {
                        &&& final(self).active().contains_key(k)
                        &&& final(self).active()[k] == Seq::<usize>::empty()
                    }
                },
                PartitionScenario::MultiPartition { duration, .. } => {
                    &&& r->Ok_0 == (PartitionAction::SleepThenHeal { duration })
                    &&& final(self).history() == old(self).history()
                    &&& final(self).active() == old(self).active()
                },
                PartitionScenario::GradualHealing { total_duration, heal_interval } => {
                    &&& r->Ok_0 == (PartitionAction::GradualHealing { total_duration, heal_interval })
                    &&& final(self).history() == old(self).history()
                    &&& final(self).active() == old(self).active()
                },
            },
    {
        match scenario {
            PartitionScenario::BinaryPartition { duration, group_size } => {
                self.apply_binary_partition(group_size)?;
                Ok(PartitionAction::SleepThenHeal { duration })
            },
            PartitionScenario::NodeIsolation { duration, isolated_nodes } => {
                self.isolate_nodes(isolated_nodes)?;
                Ok(PartitionAction::SleepThenHeal { duration })
            },
            PartitionScenario::MultiPartition { duration, partition_sizes } => {
                self.apply_multi_partition(partition_sizes)?;
                Ok(PartitionAction::SleepThenHeal { duration })
            },
            PartitionScenario::GradualHealing { total_duration, heal_interval } => {
                Ok(PartitionAction::GradualHealing { total_duration, heal_interval })
            },
        }
    }
}

/// Latency figures in nanoseconds.
#[derive(Debug, Clone)]
pub struct LatencyStats {
    pub mean: u128,
    pub median: u128,
    pub p95: u128,
    pub p99: u128,
    pub max: u128,
    pub samples: Vec<u128>,
}

impl Default for LatencyStats {
    fn default() -> (s: LatencyStats)
        ensures
            s.mean == 0 && s.median == 0 && s.p95 == 0 && s.p99 == 0 && s.max == 0,
            s.samples@.len() == 0,
    {
        LatencyStats { mean: 0, median: 0, p95: 0, p99: 0, max: 0, samples: Vec::new() }
    }
}

/// Counts of the BLS operations performed during a test.
#[derive(Debug, Clone, Copy)]
pub struct BLSPerformanceReport {
    pub signatures_created: u64,
    pub signatures_verified: u64,
    pub aggregations_performed: u64,
    pub verification_failures: u64,
}

} // verus!
