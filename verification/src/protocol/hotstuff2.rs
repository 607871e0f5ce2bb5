use vstd::prelude::*;
use vstd::prelude::View as _;
use crate::message::consensus::{ConsensusProposal, FastCommit, NewView, Timeout, Vote, vote_signatures, collect_vote_signatures};
use crate::protocol::maps::{
    bucket_items, insert_stage, new_stage_table, remove_stage, stage_count, stage_keys, stage_table,
    FastCommitBuckets, StageTable, TimeoutBuckets, VoteBuckets,
};
use crate::types::bytes::{append_bytes, decimal, decimal_bytes};
use crate::types::hash::sha256;
use crate::timer::clock::instant_now;
use crate::types::block::Block;
use crate::types::hash::zero_hash;
use crate::types::proposal::Proposal;
use crate::types::quorum_cert::{QuorumCert, QuorumCertView};
use crate::types::signature::Signature;
use crate::types::timestamp::Timestamp;
use crate::message::consensus::{clone_opt_qc, opt_qc_view};

verus! {

/// How the protocol adapts to network synchrony.
#[derive(Debug, Clone, Copy, PartialEq, Eq, Structural)]
pub enum ResponsivenessMode {
    /// The network is synchronous: always use the fast two-phase path.
    Synchronous,
    /// The network is asynchronous: always use the standard path.
    Asynchronous,
    /// Switch between the two according to observed network conditions.
    Adaptive,
}

/// The phases of a HotStuff-2 view.
#[derive(Debug, Clone, Copy, PartialEq, Eq, Structural)]
pub enum Phase {
    /// The leader proposes a block and collects votes.
    Propose,
    /// Pre-commit (fast path) or prepare (slow path).
    PreCommit,
    /// Commit decision (slow path only).
    Commit,
    /// Fast commit (optimistic responsiveness).
    FastCommit,
}

/// A certificate that justifies a change of leader.
#[derive(Debug)]
pub struct ViewChangeCert {
    pub new_view: u64,
    pub signatures: Vec<Signature>,
    pub timestamp: std::time::Instant,
    pub justification: Vec<QuorumCert>,
}

/// A view: its number, its leader, when it started and its phase.
#[derive(Debug, Clone, Copy)]
pub struct View {
    pub number: u64,
    pub leader: u64,
    pub start_time: std::time::Instant,
    pub phase: Phase,
}

impl View {
    /// A view that starts now, in the propose phase.
    pub fn new(number: u64, leader: u64) -> (v: View)
        ensures
            v.number == number,
            v.leader == leader,
            v.phase == Phase::Propose,
    {
        View { number, leader, start_time: instant_now(), phase: Phase::Propose }
    }
}

/// A pipeline stage for concurrent processing of consecutive heights.
#[derive(Debug)]
pub struct PipelineStage {
    pub height: u64,
    pub view: u64,
    pub phase: Phase,
    pub proposal: Option<Proposal>,
    pub block: Option<Block>,
    pub votes: Vec<Vote>,
    pub qc: Option<QuorumCert>,
    pub start_time: std::time::Instant,
    pub fast_commit_votes: Vec<FastCommit>,
}

impl PipelineStage {
    /// An empty stage for `height` and `view`, starting now in the propose phase.
    pub fn new(height: u64, view: u64) -> (s: PipelineStage)
        ensures
            s.height == height,
            s.view == view,
            s.phase == Phase::Propose,
            s.proposal is None,
            s.block is None,
            s.votes@.len() == 0,
            s.qc is None,
            s.fast_commit_votes@.len() == 0,
    {
        PipelineStage {
            height,
            view,
            phase: Phase::Propose,
            proposal: None,
            block: None,
            votes: Vec::new(),
            qc: None,
            start_time: instant_now(),
            fast_commit_votes: Vec::new(),
        }
    }
}

/// The mathematical value of a chain state.
pub struct ChainStateView {
    pub locked_qc: Option<QuorumCertView>,
    pub high_qc: Option<QuorumCertView>,
    pub last_voted_round: u64,
    pub committed_height: u64,
    pub b_lock: Option<Seq<u8>>,
    pub b_exec: Option<Seq<u8>>,
    pub last_committed_state: Seq<u8>,
    pub prepare_qc: Option<QuorumCertView>,
    pub pre_commit_qc: Option<QuorumCertView>,
}

/// The view of an optional hash.
pub open spec fn opt_hash_view(h: Option<crate::types::hash::Hash>) -> Option<Seq<u8>> {
    match h {
        Some(x) => Some(x@),
        None => None,
    }
}

/// HotStuff-2 chain state: locks, certificates and progress.
#[derive(Debug)]
pub struct ChainState {
    pub locked_qc: Option<QuorumCert>,
    pub high_qc: Option<QuorumCert>,
    pub last_voted_round: u64,
    pub committed_height: u64,
    pub b_lock: Option<crate::types::hash::Hash>,
    pub b_exec: Option<crate::types::hash::Hash>,
    pub last_committed_state: crate::types::hash::Hash,
    pub prepare_qc: Option<QuorumCert>,
    pub pre_commit_qc: Option<QuorumCert>,
}

impl vstd::prelude::View for ChainState {
    type V = ChainStateView;

    open spec fn view(&self) -> ChainStateView {
        ChainStateView {
            locked_qc: opt_qc_view(self.locked_qc),
            high_qc: opt_qc_view(self.high_qc),
            last_voted_round: self.last_voted_round,
            committed_height: self.committed_height,
            b_lock: opt_hash_view(self.b_lock),
            b_exec: opt_hash_view(self.b_exec),
            last_committed_state: self.last_committed_state@,
            prepare_qc: opt_qc_view(self.prepare_qc),
            pre_commit_qc: opt_qc_view(self.pre_commit_qc),
        }
    }
}

/// The chain state of a node that has seen nothing yet.
pub open spec fn initial_chain_state() -> ChainStateView {
    ChainStateView {
        locked_qc: None,
        high_qc: None,
        last_voted_round: 0,
        committed_height: 0,
        b_lock: None,
        b_exec: None,
        last_committed_state: zero_hash(),
        prepare_qc: None,
        pre_commit_qc: None,
    }
}

impl Default for ChainState {
    fn default() -> (s: ChainState)
        ensures
            s@ == initial_chain_state(),
    {
        ChainState {
            locked_qc: None,
            high_qc: None,
            last_voted_round: 0,
            committed_height: 0,
            b_lock: None,
            b_exec: None,
            last_committed_state: crate::types::hash::Hash::zero(),
            prepare_qc: None,
            pre_commit_qc: None,
        }
    }
}

impl Clone for ChainState {
    fn clone(&self) -> (s: ChainState)
        ensures
            s@ == self@,
    {
        ChainState {
            locked_qc: clone_opt_qc(&self.locked_qc),
            high_qc: clone_opt_qc(&self.high_qc),
            last_voted_round: self.last_voted_round,
            committed_height: self.committed_height,
            b_lock: self.b_lock,
            b_exec: self.b_exec,
            last_committed_state: self.last_committed_state,
            prepare_qc: clone_opt_qc(&self.prepare_qc),
            pre_commit_qc: clone_opt_qc(&self.pre_commit_qc),
        }
    }
}

/// The leader order of an epoch: the node list rotated left by `k` places.
pub open spec fn rotated(nodes: Seq<u64>, k: int) -> Seq<u64> {
    Seq::new(nodes.len(), |i: int| nodes[(i + k) % (nodes.len() as int)])
}

/// The node identifiers `0, 1, ..., n - 1`.
pub open spec fn node_ids(n: nat) -> Seq<u64> {
    Seq::new(n, |i: int| i as u64)
}

/// Deterministic round-robin leader election.
#[derive(Debug)]
pub struct LeaderElection {
    epoch: u64,
    leader_rotation: Vec<u64>,
}

impl LeaderElection {
    /// The current epoch.
    pub closed spec fn epoch(&self) -> u64 {
        self.epoch
    }

    /// The leader order of the current epoch.
    pub closed spec fn rotation(&self) -> Seq<u64> {
        self.leader_rotation@
    }

    fn rotate(nodes: &[u64], epoch: u64) -> (v: Vec<u64>)
        requires
            nodes@.len() > 0,
        ensures
            v@ == rotated(nodes@, (epoch % (nodes@.len() as u64)) as int),
    {
        let n: usize = nodes.len();
        let k: usize = (epoch % (n as u64)) as usize;
        let mut v: Vec<u64> = Vec::new();
        let mut i: usize = 0;
        while i < n
            invariant
                n == nodes@.len(),
                n > 0,
                k < n,
                k == epoch % (n as u64),
                i <= n,
                v@.len() == i,
                forall|j: int| 0 <= j < i ==> #[trigger] v@[j] == nodes@[(j + k) % (n as int)],
            decreases n - i,
        {
            let idx: usize = if k < n - i { i + k } else { i - (n - k) };
            assert(idx == (i + k) % (n as int)) by {
                if (k as int) < (n as int) - (i as int) {
                    vstd::arithmetic::div_mod::lemma_small_mod((i + k) as nat, n as nat);
                } else {
                    vstd::arithmetic::div_mod::lemma_mod_sub_multiples_vanish((i + k) as int, n as int);
                    vstd::arithmetic::div_mod::lemma_small_mod((i + k - n) as nat, n as nat);
                }
            }
            v.push(nodes[idx]);
            i = i + 1;
        }
        assert(v@ =~= rotated(nodes@, k as int));
        v
    }

    /// The election for `epoch` over `nodes`, rotated left by `epoch mod |nodes|`.
    pub fn new(epoch: u64, nodes: &[u64]) -> (le: LeaderElection)
        requires
            nodes@.len() > 0,
        ensures
            le.epoch() == epoch,
            le.rotation() == rotated(nodes@, (epoch % (nodes@.len() as u64)) as int),
    {
        LeaderElection { epoch, leader_rotation: Self::rotate(nodes, epoch) }
    }

    /// The leader of `round`: the rotation's entry at `round mod |rotation|`.
    pub fn get_leader(&self, round: u64) -> (leader: u64)
        requires
            self.rotation().len() > 0,
        ensures
            leader == self.rotation()[(round % (self.rotation().len() as u64)) as int],
    {
        let index: usize = (round % (self.leader_rotation.len() as u64)) as usize;
        self.leader_rotation[index]
    }

    /// Moves to the next epoch over `nodes`.
    pub fn next_epoch(&mut self, nodes: &[u64])
        requires
            nodes@.len() > 0,
            old(self).epoch() < u64::MAX,
        ensures
            final(self).epoch() == old(self).epoch() + 1,
            final(self).rotation() == rotated(nodes@, (final(self).epoch() % (nodes@.len() as u64)) as int),
    {
        self.epoch = self.epoch + 1;
        self.leader_rotation = Self::rotate(nodes, self.epoch);
    }
}

/// A checkpoint of the state machine for recovery.
#[derive(Debug, Clone, Copy)]
pub struct StateCheckpoint {
    pub height: u64,
    pub state_hash: crate::types::hash::Hash,
    pub timestamp: Timestamp,
    pub block_hash: crate::types::hash::Hash,
}

/// The status of the replicated state machine.
#[derive(Debug, Clone, Copy)]
pub struct StateMachineStatus {
    pub height: u64,
    pub state_hash: crate::types::hash::Hash,
    pub is_consistent: bool,
    pub last_checkpoint_height: u64,
}

/// The height, view and phase of a pipeline stage.
pub struct StageSummary {
    pub height: u64,
    pub view: u64,
    pub phase: Phase,
}

/// The summary of a pipeline stage.
pub open spec fn stage_summary(s: PipelineStage) -> StageSummary {
    StageSummary { height: s.height, view: s.view, phase: s.phase }
}

/// The age recorded last for view `k` in a list of (view, age in nanoseconds) pairs.
pub open spec fn last_age(ages: Seq<(u64, u128)>, k: u64) -> Option<u128>
    decreases ages.len(),
{
    if ages.len() == 0 {
        None
    } else if ages.last().0 == k {
        Some(ages.last().1)
    } else {
        last_age(ages.drop_last(), k)
    }
}

/// Whether the stage of view `k` survives a cut to views `lo..=hi` and, when `max_age` is
/// given, to stages whose age is known and below it.
pub open spec fn stage_kept(k: u64, lo: u64, hi: u64, max_age: Option<u128>, age: Option<u128>) -> bool {
    &&& lo <= k <= hi
    &&& match max_age {
        None => true,
        Some(limit) => age is Some && age->Some_0 < limit,
    }
}

/// `after` is what remains of the views `before` when the cut to `lo..=hi` and `max_age` is
/// made with the ages in `ages`, which hold an age for every view of `before`.
pub open spec fn cut_by_ages(
    before: Set<u64>,
    after: Set<u64>,
    lo: u64,
    hi: u64,
    max_age: Option<u128>,
    ages: Seq<(u64, u128)>,
) -> bool {
    &&& forall|k: u64| #[trigger] before.contains(k) ==> last_age(ages, k) is Some
    &&& after == before.filter(|k: u64| stage_kept(k, lo, hi, max_age, last_age(ages, k)))
}

/// The lowest view whose pipeline stage is not stale when `view` is current: five views back,
/// or view 0.
pub open spec fn stale_floor(view: u64) -> u64 {
    if view >= 5 { (view - 5) as u64 } else { 0 }
}

/// Whether a stage survives a cut to views `lo..=hi` and, when `max_age` is given, to stages
/// less than `max_age` nanoseconds old, `elapsed` being the stage's age.
pub fn keep_stage(stage: &PipelineStage, lo: u64, hi: u64, max_age: Option<u128>, elapsed: u128) -> (b: bool)
    ensures
        b == stage_kept(stage.view, lo, hi, max_age, Some(elapsed)),
{
    let in_range = lo <= stage.view && stage.view <= hi;
    let fresh = match max_age {
        Some(limit) => elapsed < limit,
        None => true,
    };
    in_range && fresh
}

/// The age recorded last for view `k` in `ages`.
fn lookup_age(ages: &Vec<(u64, u128)>, k: u64) -> (r: Option<u128>)
    ensures
        r == last_age(ages@, k),
{
    let mut r: Option<u128> = None;
    let mut i: usize = 0;
    while i < ages.len()
        invariant
            i <= ages@.len(),
            r == last_age(ages@.subrange(0, i as int), k),
        decreases ages@.len() - i,
    {
        let ghost prefix = ages@.subrange(0, i + 1);
        assert(prefix.drop_last() =~= ages@.subrange(0, i as int));
        if ages[i].0 == k {
            r = Some(ages[i].1);
        }
        i = i + 1;
    }
    assert(ages@.subrange(0, ages@.len() as int) =~= ages@);
    r
}

proof fn lemma_last_age_push(ages: Seq<(u64, u128)>, x: (u64, u128), k: u64)
    ensures
        last_age(ages.push(x), k) == if x.0 == k { Some(x.1) } else { last_age(ages, k) },
{
    assert(ages.push(x).drop_last() =~= ages);
}

/// Pipeline stages, one per view.
pub struct Pipeline {
    table: StageTable,
}

impl Pipeline {
    /// The stages per view.
    pub closed spec fn view_map(&self) -> Map<u64, StageSummary> {
        stage_table(self.table).map_values(|s: PipelineStage| stage_summary(s))
    }

    /// The internal consistency of the pipeline: finitely many stages, each stored under its
    /// own view.
    pub closed spec fn wf(&self) -> bool {
        &&& stage_table(self.table).dom().finite()
        &&& forall|k: u64| #[trigger] stage_table(self.table).contains_key(k) ==> stage_table(self.table)[k].view == k
    }

    /// An empty pipeline.
    pub fn new() -> (p: Pipeline)
        ensures
            p.wf(),
            p.view_map() == Map::<u64, StageSummary>::empty(),
    {
        let p = Pipeline { table: new_stage_table() };
        assert(p.view_map() =~= Map::<u64, StageSummary>::empty());
        p
    }

    /// The number of stages.
    pub fn len(&self) -> (n: usize)
        requires
            self.wf(),
        ensures
            n == self.view_map().len(),
    {
        assert(self.view_map().dom() =~= stage_table(self.table).dom());
        stage_count(&self.table)
    }

    /// Measures the age of every stage by the clock, in nanoseconds; the pipeline stays as it
    /// is.
    pub fn stage_ages(&mut self) -> (ages: Vec<(u64, u128)>)
        requires
            old(self).wf(),
        ensures
            final(self).wf(),
            final(self).view_map() == old(self).view_map(),
            forall|k: u64| #[trigger] old(self).view_map().contains_key(k) ==> last_age(ages@, k) is Some,
    {
        let ghost before = stage_table(self.table);
        let keys = stage_keys(&self.table);
        let mut ages: Vec<(u64, u128)> = Vec::new();
        let mut i: usize = 0;
        while i < keys.len()
            invariant
                i <= keys@.len(),
                keys@.to_set() == before.dom(),
                stage_table(self.table) == before,
                forall|j: int| 0 <= j < i ==> #[trigger] last_age(ages@, keys@[j]) is Some,
            decreases keys@.len() - i,
        {
            let key = keys[i];
            assert(keys@.to_set().contains(key));
            let age = match remove_stage(&mut self.table, key) {
                Some(stage) => {
                    let a = crate::timer::clock::elapsed_nanos(&stage.start_time);
                    insert_stage(&mut self.table, key, stage);
                    assert(stage_table(self.table) =~= before);
                    a
                },
                None => {
                    assert(false);
                    0
                },
            };
            let ghost old_ages = ages@;
            ages.push((key, age));
            proof {
                assert forall|j: int| 0 <= j < i + 1 implies #[trigger] last_age(ages@, keys@[j]) is Some by {
                    lemma_last_age_push(old_ages, (key, age), keys@[j]);
                }
            }
            i = i + 1;
        }
        proof {
            assert forall|k: u64| #[trigger] old(self).view_map().contains_key(k) implies last_age(ages@, k) is Some by {
                assert(before.contains_key(k));
                assert(keys@.to_set().contains(k));
                let j = choose|j: int| 0 <= j < keys@.len() && keys@[j] == k;
                assert(last_age(ages@, keys@[j]) is Some);
            }
            assert(self.view_map() =~= old(self).view_map());
        }
        ages
    }

    /// Keeps exactly the stages whose view lies in `lo..=hi` and, when `max_age` is given,
    /// whose age last recorded in `ages` is below it; drops the others.
    pub fn retain_aged(&mut self, lo: u64, hi: u64, max_age: Option<u128>, ages: &Vec<(u64, u128)>)
        requires
            old(self).wf(),
        ensures
            final(self).wf(),
            final(self).view_map().dom() == old(self).view_map().dom().filter(
                |k: u64| stage_kept(k, lo, hi, max_age, last_age(ages@, k)),
            ),
            forall|k: u64| #[trigger] final(self).view_map().contains_key(k)
                ==> final(self).view_map()[k] == old(self).view_map()[k],
    {
        let ghost before = stage_table(self.table);
        let keys = stage_keys(&self.table);
        let mut i: usize = 0;
        while i < keys.len()
            invariant
                i <= keys@.len(),
                keys@.to_set() == before.dom(),
                keys@.no_duplicates(),
                before.dom().finite(),
                forall|k: u64| #[trigger] before.contains_key(k) ==> before[k].view == k,
                stage_table(self.table).dom().subset_of(before.dom()),
                forall|k: u64| #[trigger] stage_table(self.table).contains_key(k)
                    ==> stage_table(self.table)[k] == before[k],
                forall|j: int| 0 <= j < i ==> (stage_table(self.table).contains_key(#[trigger] keys@[j])
                    <==> stage_kept(keys@[j], lo, hi, max_age, last_age(ages@, keys@[j]))),
                forall|j: int| i <= j < keys@.len() ==> stage_table(self.table).contains_key(#[trigger] keys@[j]),
            decreases keys@.len() - i,
        {
            let key = keys[i];
            let ghost cur = stage_table(self.table);
            match remove_stage(&mut self.table, key) {
                Some(stage) => {
                    let age = lookup_age(ages, key);
                    let keep = match age {
                        Some(a) => keep_stage(&stage, lo, hi, max_age, a),
                        None => match max_age {
                            Some(_) => false,
                            None => keep_stage(&stage, lo, hi, max_age, 0),
                        },
                    };
                    if keep {
                        insert_stage(&mut self.table, key, stage);
                        assert(stage_table(self.table) =~= cur);
                    }
                },
                None => {
                    assert(false);
                },
            }
            proof {
                assert forall|j: int| 0 <= j < keys@.len() && j != i implies keys@[j] != key by {
                    if j < i {
                        assert(keys@[j] != keys@[i as int]);
                    } else {
                        assert(keys@[i as int] != keys@[j]);
                    }
                }
            }
            i = i + 1;
        }
        proof {
            let after = stage_table(self.table);
            vstd::set_lib::lemma_len_subset(after.dom(), before.dom());
            assert forall|k: u64| #[trigger] after.contains_key(k) implies after[k].view == k by {
                assert(before.contains_key(k));
            }
            assert forall|k: u64| self.view_map().dom().contains(k) == old(self).view_map().dom().filter(
                |k: u64| stage_kept(k, lo, hi, max_age, last_age(ages@, k))).contains(k) by {
                if before.contains_key(k) {
                    assert(keys@.to_set().contains(k));
                    let j = choose|j: int| 0 <= j < keys@.len() && keys@[j] == k;
                    assert(stage_table(self.table).contains_key(keys@[j])
                        <==> stage_kept(keys@[j], lo, hi, max_age, last_age(ages@, keys@[j])));
                }
            }
            assert(self.view_map().dom() =~= old(self).view_map().dom().filter(
                |k: u64| stage_kept(k, lo, hi, max_age, last_age(ages@, k))));
        }
    }

    /// Keeps exactly the stages whose view lies in `lo..=hi` and, when `max_age` is given, whose
    /// age measured by the clock is below it; drops the others.
    pub fn retain_range(&mut self, lo: u64, hi: u64, max_age: Option<u128>)
        requires
            old(self).wf(),
        ensures
            final(self).wf(),
            forall|k: u64| #[trigger] final(self).view_map().contains_key(k) ==> {
                &&& old(self).view_map().contains_key(k)
                &&& final(self).view_map()[k] == old(self).view_map()[k]
                &&& lo <= k <= hi
            },
            max_age is None ==> final(self).view_map().dom() == old(self).view_map().dom().filter(
                |k: u64| lo <= k <= hi,
            ),
            exists|ages: Seq<(u64, u128)>| #[trigger] cut_by_ages(
                old(self).view_map().dom(), final(self).view_map().dom(), lo, hi, max_age, ages),
    {
        let ages = self.stage_ages();
        self.retain_aged(lo, hi, max_age, &ages);
        proof {
            if max_age is None {
                assert(self.view_map().dom() =~= old(self).view_map().dom().filter(|k: u64| lo <= k <= hi));
            }
            assert forall|k: u64| #[trigger] self.view_map().contains_key(k) implies {
                &&& old(self).view_map().contains_key(k)
                &&& self.view_map()[k] == old(self).view_map()[k]
                &&& lo <= k <= hi
            } by {
                assert(self.view_map().dom().contains(k));
            }
            assert(cut_by_ages(old(self).view_map().dom(), self.view_map().dom(), lo, hi, max_age, ages@));
        }
    }

    /// Makes sure a stage exists for `view` (created for height `view` when missing) and puts
    /// it in the propose phase.
    pub fn touch(&mut self, view: u64)
        requires
            old(self).wf(),
        ensures
            final(self).wf(),
            final(self).view_map() == old(self).view_map().insert(
                view,
                if old(self).view_map().contains_key(view) {
                    StageSummary { phase: Phase::Propose, ..old(self).view_map()[view] }
                } else {
                    StageSummary { height: view, view, phase: Phase::Propose }
                },
            ),
    {
        let ghost before = stage_table(self.table);
        let stage = match remove_stage(&mut self.table, view) {
            Some(existing) => {
                let mut s = existing;
                s.phase = Phase::Propose;
                s
            },
            None => PipelineStage::new(view, view),
        };
        let ghost placed = stage;
        insert_stage(&mut self.table, view, stage);
        proof {
            let after = stage_table(self.table);
            assert(after =~= before.insert(view, placed));
            assert forall|k: u64| #[trigger] after.contains_key(k) implies after[k].view == k by {
                if k != view {
                    assert(before.contains_key(k));
                }
            }
            assert(self.view_map() =~= old(self).view_map().insert(view, stage_summary(placed)));
        }
    }
}

/// The number of Byzantine faults tolerated among `n` nodes: `(n - 1) / 3`.
pub open spec fn fault_bound(n: u64) -> u64 {
    ((n - 1) / 3) as u64
}

/// The leader of `round` among nodes `0..nodes` in `epoch`.
pub open spec fn scheduled_leader(nodes: u64, epoch: u64, round: u64) -> u64 {
    rotated(node_ids(nodes as nat), (epoch % nodes) as int)[(round % nodes) as int]
}

/// Whether the fast path is taken. In adaptive mode it needs a synchronous network and a
/// confidence score `min(k / 10, 1)` above one half, `k` being the fast commits in a row,
/// that is `k > 5`.
pub open spec fn optimistic_path(
    enabled: bool,
    mode: ResponsivenessMode,
    synchronous: bool,
    fast_commits_in_a_row: u64,
) -> bool {
    enabled && match mode {
        ResponsivenessMode::Synchronous => true,
        ResponsivenessMode::Asynchronous => false,
        ResponsivenessMode::Adaptive => synchronous && fast_commits_in_a_row > 5,
    }
}

/// Whether a proposal passes the basic validity checks: a non-zero view and block hash.
pub open spec fn proposal_is_valid(view: u64, block_hash: Seq<u8>) -> bool {
    view != 0 && block_hash != zero_hash()
}

/// The preimage of the hash that names the block proposed in `view`: `"block_"` and the view in decimal.
pub open spec fn proposal_name(view: u64) -> Seq<u8> {
    seq![98u8, 108u8, 111u8, 99u8, 107u8, 95u8] + decimal(view as nat)
}

/// The pipeline after a stage for `view` is put in the propose phase.
pub open spec fn touched(m: Map<u64, StageSummary>, view: u64) -> Map<u64, StageSummary> {
    m.insert(
        view,
        if m.contains_key(view) {
            StageSummary { phase: Phase::Propose, ..m[view] }
        } else {
            StageSummary { height: view, view, phase: Phase::Propose }
        },
    )
}

/// The vote a replica has decided to sign and broadcast.
#[derive(Debug, Clone, Copy)]
pub struct VoteIntent {
    pub block_hash: crate::types::hash::Hash,
    pub view: u64,
    pub phase: Phase,
}

/// The mathematical value of a replica's consensus state.
pub struct ReplicaView {
    pub node: u64,
    pub nodes: u64,
    pub faults: u64,
    pub epoch: u64,
    pub view_number: u64,
    pub leader: u64,
    pub phase: Phase,
    pub chain: ChainStateView,
    pub votes: Map<Seq<u8>, Seq<Vote>>,
    pub timeouts: Map<u64, Seq<Timeout>>,
    pub fast_commits: Map<Seq<u8>, Seq<FastCommit>>,
    pub pipeline: Map<u64, StageSummary>,
    pub mode: ResponsivenessMode,
    pub fast_commits_in_a_row: u64,
    pub fast_path: bool,
    pub fast_commit_quorum: nat,
}

/// The replica state after it moves to `new_view`, when that view is ahead of its own.
pub open spec fn advanced(s: ReplicaView, new_view: u64) -> ReplicaView {
    if new_view > s.view_number {
        ReplicaView {
            view_number: new_view,
            leader: scheduled_leader(s.nodes, s.epoch, new_view),
            phase: Phase::Propose,
            ..s
        }
    } else {
        s
    }
}

/// The replica state once it has decided to vote in `view`: the view is its last voted round.
pub open spec fn voted_in(s: ReplicaView, view: u64) -> ReplicaView {
    ReplicaView { chain: ChainStateView { last_voted_round: view, ..s.chain }, ..s }
}

/// Whether some vote in `votes` comes from `node`.
pub open spec fn has_voter(votes: Seq<Vote>, node: u64) -> bool {
    exists|i: int| 0 <= i < votes.len() && #[trigger] votes[i].node_id == node
}

/// Whether some fast commit in `commits` comes from `node`.
pub open spec fn has_fast_committer(commits: Seq<FastCommit>, node: u64) -> bool {
    exists|i: int| 0 <= i < commits.len() && #[trigger] commits[i].node_id == node
}

/// Whether the fast commits come from pairwise distinct nodes.
pub open spec fn distinct_fast_committers(commits: Seq<FastCommit>) -> bool {
    forall|i: int, j: int| 0 <= i < j < commits.len() ==> commits[i].node_id != commits[j].node_id
}

/// Whether the votes come from pairwise distinct nodes.
pub open spec fn distinct_voters(votes: Seq<Vote>) -> bool {
    forall|i: int, j: int| 0 <= i < j < votes.len() ==> votes[i].node_id != votes[j].node_id
}

/// The decision core of a HotStuff-2 replica: it holds the consensus state and turns each
/// incoming message into the next state and the action to perform.
pub struct HotStuff2Core {
    node_id: u64,
    num_nodes: u64,
    f: u64,
    chain_state: ChainState,
    current_view: View,
    pipeline: Pipeline,
    votes: VoteBuckets,
    timeouts: TimeoutBuckets,
    fast_commits: FastCommitBuckets,
    responsiveness_mode: ResponsivenessMode,
    consecutive_fast_commits: u64,
    leader_election: LeaderElection,
    fast_path_enabled: bool,
    fast_commit_quorum: usize,
}

impl vstd::prelude::View for HotStuff2Core {
    type V = ReplicaView;

    closed spec fn view(&self) -> ReplicaView {
        ReplicaView {
            node: self.node_id,
            nodes: self.num_nodes,
            faults: self.f,
            epoch: self.leader_election.epoch(),
            view_number: self.current_view.number,
            leader: self.current_view.leader,
            phase: self.current_view.phase,
            chain: self.chain_state@,
            votes: self.votes.view_map(),
            timeouts: self.timeouts.view_map(),
            fast_commits: self.fast_commits.view_map(),
            pipeline: self.pipeline.view_map(),
            mode: self.responsiveness_mode,
            fast_commits_in_a_row: self.consecutive_fast_commits,
            fast_path: self.fast_path_enabled,
            fast_commit_quorum: self.fast_commit_quorum as nat,
        }
    }
}

impl HotStuff2Core {
    /// The internal consistency of the replica.
    pub closed spec fn wf(&self) -> bool {
        &&& 1 <= self.num_nodes <= usize::MAX
        &&& self.f == fault_bound(self.num_nodes)
        &&& self.leader_election.rotation() == rotated(
            node_ids(self.num_nodes as nat),
            (self.leader_election.epoch() % self.num_nodes) as int,
        )
        &&& self.pipeline.wf()
        &&& self.votes.wf()
        &&& self.timeouts.wf()
        &&& self.fast_commits.wf()
        &&& forall|k: Seq<u8>| #[trigger] self.votes.view_map().contains_key(k)
            ==> distinct_voters(self.votes.view_map()[k])
        &&& forall|k: Seq<u8>| #[trigger] self.fast_commits.view_map().contains_key(k)
            ==> distinct_fast_committers(self.fast_commits.view_map()[k])
    }

    /// A replica with id `node_id` among `num_nodes` nodes, in view 0 led by node 0.
    pub fn new(node_id: u64, num_nodes: u64, fast_path_enabled: bool, fast_commit_quorum: usize) -> (c: HotStuff2Core)
        requires
            1 <= num_nodes <= usize::MAX,
        ensures
            c.wf(),
            c@ == (ReplicaView {
                node: node_id,
                nodes: num_nodes,
                faults: fault_bound(num_nodes),
                epoch: 0,
                view_number: 0,
                leader: 0,
                phase: Phase::Propose,
                chain: initial_chain_state(),
                votes: Map::empty(),
                timeouts: Map::empty(),
                fast_commits: Map::empty(),
                pipeline: Map::empty(),
                mode: ResponsivenessMode::Adaptive,
                fast_commits_in_a_row: 0,
                fast_path: fast_path_enabled,
                fast_commit_quorum: fast_commit_quorum as nat,
            }),
    {
        let f = (num_nodes - 1) / 3;
        let mut nodes: Vec<u64> = Vec::new();
        let mut i: u64 = 0;
        while i < num_nodes
            invariant
                i <= num_nodes,
                nodes@ == node_ids(i as nat),
            decreases num_nodes - i,
        {
            nodes.push(i);
            i = i + 1;
            assert(nodes@ =~= node_ids(i as nat));
        }
        let leader_election = LeaderElection::new(0, nodes.as_slice());
        let initial_leader = leader_election.get_leader(0);
        let c = HotStuff2Core {
            node_id,
            num_nodes,
            f,
            chain_state: ChainState::default(),
            current_view: View::new(0, initial_leader),
            pipeline: Pipeline::new(),
            votes: VoteBuckets::new(),
            timeouts: TimeoutBuckets::new(),
            fast_commits: FastCommitBuckets::new(),
            responsiveness_mode: ResponsivenessMode::Adaptive,
            consecutive_fast_commits: 0,
            leader_election,
            fast_path_enabled,
            fast_commit_quorum,
        };
        c
    }

    /// The votes needed for a quorum certificate: `2f + 1`.
    pub fn quorum_threshold(&self) -> (q: usize)
        requires
            self.wf(),
        ensures
            q == 2 * self@.faults + 1,
    {
        (2 * self.f + 1) as usize
    }

    /// The id of this node.
    pub fn node_id(&self) -> (id: u64)
        ensures
            id == self@.node,
    {
        self.node_id
    }

    /// The current view.
    pub fn current_view(&self) -> (v: View)
        ensures
            v.number == self@.view_number,
            v.leader == self@.leader,
            v.phase == self@.phase,
    {
        self.current_view
    }

    /// The chain state.
    pub fn chain_state(&self) -> (c: &ChainState)
        ensures
            c@ == self@.chain,
    {
        &self.chain_state
    }

    /// The number of pipeline stages.
    pub fn pipeline_len(&self) -> (n: usize)
        requires
            self.wf(),
        ensures
            n == self@.pipeline.len(),
    {
        self.pipeline.len()
    }

    /// Whether the fast path may be used at all.
    pub fn fast_path_enabled(&self) -> (b: bool)
        ensures
            b == self@.fast_path,
    {
        self.fast_path_enabled
    }

    /// The number of blocks committed through the fast path in a row.
    pub fn consecutive_fast_commits(&self) -> (k: u64)
        ensures
            k == self@.fast_commits_in_a_row,
    {
        self.consecutive_fast_commits
    }

    /// The confidence in the fast path in tenths: `min(k, 10)` for `k` fast commits in a row.
    pub fn confidence_tenths(&self) -> (t: u64)
        ensures
            t == if self@.fast_commits_in_a_row < 10 { self@.fast_commits_in_a_row } else { 10 },
    {
        if self.consecutive_fast_commits < 10 {
            self.consecutive_fast_commits
        } else {
            10
        }
    }

    /// The scheduled leader of `round`.
    pub fn leader_of(&self, round: u64) -> (l: u64)
        requires
            self.wf(),
        ensures
            l == scheduled_leader(self@.nodes, self@.epoch, round),
    {
        self.leader_election.get_leader(round)
    }

    /// Basic validity of a proposal: a non-zero view and a non-zero block hash.
    pub fn verify_proposal(&self, proposal: &ConsensusProposal) -> (ok: bool)
        ensures
            ok == proposal_is_valid(proposal.view, proposal.block_hash@),
    {
        if proposal.view == 0 || proposal.block_hash == crate::types::hash::Hash::zero() {
            return false;
        }
        true
    }

    /// The safety rule: only vote for views beyond the last voted round.
    pub fn safety_check(&self, proposal: &ConsensusProposal) -> (ok: bool)
        ensures
            ok == (proposal.view > self@.chain.last_voted_round),
    {
        proposal.view > self.chain_state.last_voted_round
    }

    /// Whether a proposal should take the fast path, given whether the network is synchronous.
    pub fn should_use_optimistic_path(&self, network_synchronous: bool) -> (b: bool)
        ensures
            b == optimistic_path(self@.fast_path, self@.mode, network_synchronous, self@.fast_commits_in_a_row),
    {
        if !self.fast_path_enabled {
            return false;
        }
        match self.responsiveness_mode {
            ResponsivenessMode::Synchronous => true,
            ResponsivenessMode::Asynchronous => false,
            ResponsivenessMode::Adaptive => network_synchronous && self.consecutive_fast_commits > 5,
        }
    }

    /// Moves to `new_view` when it is ahead of the current view, with its scheduled leader.
    pub fn update_view(&mut self, new_view: u64)
        requires
            old(self).wf(),
        ensures
            final(self).wf(),
            final(self)@ == advanced(old(self)@, new_view),
    {
        if new_view > self.current_view.number {
            let leader = self.leader_election.get_leader(new_view);
            self.current_view = View::new(new_view, leader);
        }
    }

    /// Handles a proposal: checks it, moves to its view, applies the safety rule and decides
    /// which vote to cast, recording its view as the last one voted in; `None` when no vote
    /// is due.
    pub fn on_proposal(&mut self, proposal: &ConsensusProposal, network_synchronous: bool) -> (r: Option<VoteIntent>)
        requires
            old(self).wf(),
        ensures
            final(self).wf(),
            !proposal_is_valid(proposal.view, proposal.block_hash@) ==> r is None && final(self)@ == old(self)@,
            r is Some <==> proposal_is_valid(proposal.view, proposal.block_hash@)
                && proposal.view > old(self)@.chain.last_voted_round,
            proposal_is_valid(proposal.view, proposal.block_hash@) && r is None
                ==> final(self)@ == advanced(old(self)@, proposal.view),
            r is Some ==> final(self)@ == voted_in(advanced(old(self)@, proposal.view), proposal.view),
            r is Some ==> {
                &&& r->Some_0.block_hash@ == proposal.block_hash@
                &&& r->Some_0.view == proposal.view
                &&& r->Some_0.phase == if optimistic_path(
                    old(self)@.fast_path,
                    old(self)@.mode,
                    network_synchronous,
                    old(self)@.fast_commits_in_a_row,
                ) {
                    Phase::FastCommit
                } else {
                    Phase::Propose
                }
            },
    {
        if !self.verify_proposal(proposal) {
            return None;
        }
        self.update_view(proposal.view);
        if !self.safety_check(proposal) {
            return None;
        }
        let phase = if self.should_use_optimistic_path(network_synchronous) {
            Phase::FastCommit
        } else {
            Phase::Propose
        };
        self.chain_state.last_voted_round = proposal.view;
        Some(VoteIntent { block_hash: proposal.block_hash, view: proposal.view, phase })
    }

    /// Records that the vote for a proposal was sent: updates the pipeline stage of its view
    /// and, on the fast path, reports the block when enough fast commits are already in.
    pub fn record_vote_sent(&mut self, intent: &VoteIntent) -> (r: Option<crate::types::hash::Hash>)
        requires
            old(self).wf(),
        ensures
            final(self).wf(),
            final(self)@ == (ReplicaView { pipeline: touched(old(self)@.pipeline, intent.view), ..old(self)@ }),
            r is Some <==> intent.phase == Phase::FastCommit
                && old(self)@.fast_commits.contains_key(intent.block_hash@)
                && old(self)@.fast_commits[intent.block_hash@].len() >= old(self)@.fast_commit_quorum,
            r is Some ==> r->Some_0@ == intent.block_hash@,
    {
        self.pipeline.touch(intent.view);
        if intent.phase == Phase::FastCommit {
            self.check_fast_commit_threshold(&intent.block_hash)
        } else {
            None
        }
    }

    fn check_fast_commit_threshold(&mut self, block_hash: &crate::types::hash::Hash) -> (r: Option<crate::types::hash::Hash>)
        requires
            old(self).wf(),
        ensures
            final(self).wf(),
            final(self)@ == old(self)@,
            r is Some <==> old(self)@.fast_commits.contains_key(block_hash@)
                && old(self)@.fast_commits[block_hash@].len() >= old(self)@.fast_commit_quorum,
            r is Some ==> r->Some_0@ == block_hash@,
    {
        match self.fast_commits.count(block_hash) {
            Some(count) => {
                if count >= self.fast_commit_quorum {
                    Some(*block_hash)
                } else {
                    None
                }
            },
            None => None,
        }
    }

    /// Handles a vote: a repeated vote of a node for the same block is ignored; otherwise it is
    /// recorded and, once its block has votes from `2f + 1` distinct nodes, a quorum
    /// certificate is formed from all of them and becomes the high certificate.
    pub fn on_vote(&mut self, vote: Vote) -> (r: Option<QuorumCert>)
        requires
            old(self).wf(),
        ensures
            final(self).wf(),
            has_voter(bucket_items(old(self)@.votes, vote.block_hash@), vote.node_id)
                ==> r is None && final(self)@ == old(self)@,
            !has_voter(bucket_items(old(self)@.votes, vote.block_hash@), vote.node_id) ==> {
                &&& final(self)@.votes == old(self)@.votes.insert(
                    vote.block_hash@,
                    bucket_items(old(self)@.votes, vote.block_hash@).push(vote),
                )
                &&& (r is Some <==> final(self)@.votes[vote.block_hash@].len() >= 2 * old(self)@.faults + 1)
                &&& r is None ==> final(self)@ == (ReplicaView { votes: final(self)@.votes, ..old(self)@ })
            },
            r is Some ==> {
                &&& distinct_voters(final(self)@.votes[vote.block_hash@])
                &&& final(self)@.votes[vote.block_hash@].len() >= 2 * old(self)@.faults + 1
                &&& r->Some_0@.block_hash == vote.block_hash@
                &&& r->Some_0@.height == 0
                &&& r->Some_0@.signatures == vote_signatures(final(self)@.votes[vote.block_hash@])
                &&& r->Some_0@.threshold_signature is None
                &&& final(self)@ == (ReplicaView {
                    votes: final(self)@.votes,
                    chain: ChainStateView { high_qc: Some(r->Some_0@), ..old(self)@.chain },
                    ..old(self)@
                })
            },
    {
        let block_hash = vote.block_hash;
        if self.votes.has_voter(&block_hash, vote.node_id) {
            return None;
        }
        let count = self.votes.push(block_hash, vote);
        let threshold = self.quorum_threshold();
        if count >= threshold {
            let signatures = self.votes.signatures(&block_hash);
            let qc = QuorumCert::new(block_hash, 0, signatures);
            let copy = qc.clone();
            self.chain_state.high_qc = Some(qc);
            Some(copy)
        } else {
            None
        }
    }

    /// Handles a timeout: records it and, once its view has `2f + 1` timeouts, moves to the
    /// next view; returns that view when this node leads it and must propose.
    pub fn on_timeout(&mut self, timeout: Timeout) -> (r: Option<u64>)
        requires
            old(self).wf(),
            timeout.view < u64::MAX,
        ensures
            final(self).wf(),
            final(self)@.timeouts == old(self)@.timeouts.insert(
                timeout.view,
                bucket_items(old(self)@.timeouts, timeout.view).push(timeout),
            ),
            final(self)@.timeouts[timeout.view].len() >= 2 * old(self)@.faults + 1 ==> {
                &&& final(self)@ == (ReplicaView {
                    timeouts: final(self)@.timeouts,
                    ..advanced(old(self)@, (timeout.view + 1) as u64)
                })
                &&& r == if scheduled_leader(old(self)@.nodes, old(self)@.epoch, (timeout.view + 1) as u64)
                    == old(self)@.node {
                    Some((timeout.view + 1) as u64)
                } else {
                    None::<u64>
                }
            },
            final(self)@.timeouts[timeout.view].len() < 2 * old(self)@.faults + 1 ==> {
                &&& final(self)@ == (ReplicaView { timeouts: final(self)@.timeouts, ..old(self)@ })
                &&& r is None
            },
    {
        let view = timeout.view;
        let count = self.timeouts.push(view, timeout);
        let threshold = self.quorum_threshold();
        if count >= threshold {
            self.handle_view_change(view + 1)
        } else {
            None
        }
    }

    fn handle_view_change(&mut self, new_view: u64) -> (r: Option<u64>)
        requires
            old(self).wf(),
        ensures
            final(self).wf(),
            final(self)@ == advanced(old(self)@, new_view),
            r == if scheduled_leader(old(self)@.nodes, old(self)@.epoch, new_view) == old(self)@.node {
                Some(new_view)
            } else {
                None::<u64>
            },
    {
        self.update_view(new_view);
        let leader = self.leader_election.get_leader(new_view);
        if leader == self.node_id {
            Some(new_view)
        } else {
            None
        }
    }

    /// Handles a new-view message by moving to its view when it is ahead.
    pub fn on_new_view(&mut self, new_view: &NewView)
        requires
            old(self).wf(),
        ensures
            final(self).wf(),
            final(self)@ == advanced(old(self)@, new_view.view),
    {
        self.update_view(new_view.view);
    }

    /// Handles a fast-commit vote: a repeated fast commit of a node for the same block is
    /// ignored; otherwise it is recorded, and the block is reported once its fast commits come
    /// from enough distinct nodes.
    pub fn on_fast_commit(&mut self, fast_commit: FastCommit) -> (r: Option<crate::types::hash::Hash>)
        requires
            old(self).wf(),
        ensures
            final(self).wf(),
            has_fast_committer(bucket_items(old(self)@.fast_commits, fast_commit.block_hash@), fast_commit.node_id)
                ==> r is None && final(self)@ == old(self)@,
            !has_fast_committer(bucket_items(old(self)@.fast_commits, fast_commit.block_hash@), fast_commit.node_id)
                ==> {
                &&& final(self)@ == (ReplicaView {
                    fast_commits: old(self)@.fast_commits.insert(
                        fast_commit.block_hash@,
                        bucket_items(old(self)@.fast_commits, fast_commit.block_hash@).push(fast_commit),
                    ),
                    ..old(self)@
                })
                &&& (r is Some <==> final(self)@.fast_commits[fast_commit.block_hash@].len() >= old(self)@.fast_commit_quorum)
            },
            r is Some ==> {
                &&& r->Some_0@ == fast_commit.block_hash@
                &&& distinct_fast_committers(final(self)@.fast_commits[fast_commit.block_hash@])
                &&& final(self)@.fast_commits[fast_commit.block_hash@].len() >= old(self)@.fast_commit_quorum
            },
    {
        let block_hash = fast_commit.block_hash;
        if self.fast_commits.has_committer(&block_hash, fast_commit.node_id) {
            return None;
        }
        self.fast_commits.push(block_hash, fast_commit);
        self.check_fast_commit_threshold(&block_hash)
    }

    /// Records a block committed through the fast path, with the state its execution produced.
    pub fn apply_fast_commit(&mut self, block_hash: crate::types::hash::Hash, block: &Block, new_state: crate::types::hash::Hash)
        requires
            old(self).wf(),
            old(self)@.fast_commits_in_a_row < u64::MAX,
        ensures
            final(self).wf(),
            final(self)@ == (ReplicaView {
                chain: ChainStateView {
                    committed_height: block.height,
                    b_exec: Some(block_hash@),
                    last_committed_state: new_state@,
                    ..old(self)@.chain
                },
                fast_commits_in_a_row: (old(self)@.fast_commits_in_a_row + 1) as u64,
                ..old(self)@
            }),
    {
        self.chain_state.committed_height = block.height;
        self.chain_state.b_exec = Some(block_hash);
        self.chain_state.last_committed_state = new_state;
        self.consecutive_fast_commits = self.consecutive_fast_commits + 1;
    }

    /// Moves to `target` when it is ahead of the current view, with its scheduled leader and a
    /// fresh start time but the same phase, then drops the pipeline stages of views beyond
    /// `target`.
    pub fn recover_to_view(&mut self, target: u64)
        requires
            old(self).wf(),
        ensures
            final(self).wf(),
            final(self)@ == (ReplicaView {
                view_number: if target > old(self)@.view_number { target } else { old(self)@.view_number },
                leader: if target > old(self)@.view_number {
                    scheduled_leader(old(self)@.nodes, old(self)@.epoch, target)
                } else {
                    old(self)@.leader
                },
                pipeline: final(self)@.pipeline,
                ..old(self)@
            }),
            final(self)@.pipeline.dom() == old(self)@.pipeline.dom().filter(|k: u64| k <= target),
            forall|k: u64| #[trigger] final(self)@.pipeline.contains_key(k)
                ==> final(self)@.pipeline[k] == old(self)@.pipeline[k],
    {
        if target > self.current_view.number {
            let leader = self.leader_election.get_leader(target);
            self.current_view.number = target;
            self.current_view.start_time = instant_now();
            self.current_view.leader = leader;
        }
        self.pipeline.retain_range(0, target, None);
        proof {
            assert(self.pipeline.view_map().dom() =~= old(self).pipeline.view_map().dom().filter(|k: u64| k <= target));
        }
    }

    /// Puts back a saved chain state and view number; the leader, phase and start time of the
    /// current view stay as they are.
    pub fn restore(&mut self, chain_state: ChainState, view_number: u64)
        requires
            old(self).wf(),
        ensures
            final(self).wf(),
            final(self)@ == (ReplicaView { chain: chain_state@, view_number, ..old(self)@ }),
    {
        self.chain_state = chain_state;
        self.current_view.number = view_number;
    }

    /// Forgets every recorded timeout.
    pub fn clear_timeouts(&mut self)
        requires
            old(self).wf(),
        ensures
            final(self).wf(),
            final(self)@ == (ReplicaView { timeouts: Map::empty(), ..old(self)@ }),
    {
        self.timeouts.clear();
    }

    /// Drops the pipeline stages more than five views behind the current view, and those
    /// that started `max_age_nanos` or more ago by the clock.
    pub fn clear_stale_pipeline(&mut self, max_age_nanos: u128)
        requires
            old(self).wf(),
        ensures
            final(self).wf(),
            final(self)@ == (ReplicaView { pipeline: final(self)@.pipeline, ..old(self)@ }),
            forall|k: u64| #[trigger] final(self)@.pipeline.contains_key(k) ==> {
                &&& old(self)@.pipeline.contains_key(k)
                &&& final(self)@.pipeline[k] == old(self)@.pipeline[k]
                &&& k >= old(self)@.view_number - 5
            },
            exists|ages: Seq<(u64, u128)>| #[trigger] cut_by_ages(
                old(self)@.pipeline.dom(),
                final(self)@.pipeline.dom(),
                stale_floor(old(self)@.view_number),
                u64::MAX,
                Some(max_age_nanos),
                ages,
            ),
    {
        let ages = self.pipeline_stage_ages();
        self.prune_stale_stages(max_age_nanos, &ages);
        assert(cut_by_ages(old(self)@.pipeline.dom(), self@.pipeline.dom(), stale_floor(old(self)@.view_number),
            u64::MAX, Some(max_age_nanos), ages@));
    }

    /// Measures the age of every pipeline stage by the clock, in nanoseconds, as (view, age)
    /// pairs; the replica stays as it is.
    pub fn pipeline_stage_ages(&mut self) -> (ages: Vec<(u64, u128)>)
        requires
            old(self).wf(),
        ensures
            final(self).wf(),
            final(self)@ == old(self)@,
            forall|k: u64| #[trigger] old(self)@.pipeline.contains_key(k) ==> last_age(ages@, k) is Some,
    {
        self.pipeline.stage_ages()
    }

    /// Drops the pipeline stages more than five views behind the current view, and those whose
    /// age last recorded in `ages` is `max_age_nanos` or more or is missing; the stages kept stay
    /// as they were.
    pub fn prune_stale_stages(&mut self, max_age_nanos: u128, ages: &Vec<(u64, u128)>)
        requires
            old(self).wf(),
        ensures
            final(self).wf(),
            final(self)@ == (ReplicaView { pipeline: final(self)@.pipeline, ..old(self)@ }),
            final(self)@.pipeline.dom() == old(self)@.pipeline.dom().filter(
                |k: u64| stage_kept(k, stale_floor(old(self)@.view_number), u64::MAX, Some(max_age_nanos), last_age(ages@, k)),
            ),
            forall|k: u64| #[trigger] final(self)@.pipeline.contains_key(k)
                ==> final(self)@.pipeline[k] == old(self)@.pipeline[k],
    {
        let lo = self.current_view.number.saturating_sub(5);
        self.pipeline.retain_aged(lo, u64::MAX, Some(max_age_nanos), ages);
    }

    /// How long the current view has been running, in nanoseconds by the clock.
    pub fn view_age_nanos(&self) -> (n: u128) {
        crate::timer::clock::elapsed_nanos(&self.current_view.start_time)
    }

    /// The view a new proposal of this node would be made in: the one after the current view.
    pub fn next_proposal_view(&self) -> (v: u64)
        requires
            self@.view_number < u64::MAX,
        ensures
            v == self@.view_number + 1,
    {
        self.current_view.number + 1
    }

    /// The proposal this node broadcasts as leader of `view`: the block is named by the hash of
    /// `"block_<view>"` and justified by the high certificate.
    pub fn make_proposal(&self, view: u64) -> (p: ConsensusProposal)
        ensures
            p.block_hash@ == sha256(proposal_name(view)),
            p.view == view,
            p.node_id == self@.node,
            opt_qc_view(p.qc) == self@.chain.high_qc,
    {
        let mut name: Vec<u8> = Vec::new();
        name.push(98u8);
        name.push(108u8);
        name.push(111u8);
        name.push(99u8);
        name.push(107u8);
        name.push(95u8);
        let digits = decimal_bytes(view);
        append_bytes(&mut name, digits.as_slice());
        assert(name@ =~= proposal_name(view));
        ConsensusProposal {
            block_hash: crate::types::hash::Hash::from_bytes(name.as_slice()),
            view,
            node_id: self.node_id,
            qc: clone_opt_qc(&self.chain_state.high_qc),
        }
    }
}

} // verus!
