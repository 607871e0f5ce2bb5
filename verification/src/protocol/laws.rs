use vstd::prelude::*;
use crate::crypto::threshold::{chosen_signers, partial_from};
use crate::message::consensus::{FastCommit, Vote};
use crate::protocol::hotstuff2::{
    advanced, distinct_fast_committers, distinct_voters, fault_bound, scheduled_leader,
    voted_in, ReplicaView,
};
use crate::protocol::hotstuff2_complete::{
    after_qc, commits_locked, lists_votes, raised_high, engine_leader, proposal_safe, HotStuff2EngineCore,
    HotStuffStateView, VoteCollector,
};
use crate::protocol::hotstuff2::StageSummary;
use crate::protocol::recovery::{
    healthy, keep_last, moved_to, recent_block_hashes, recovery_plan, CheckpointView, HealthStatus, NANOS_PER_SEC,
};
use crate::storage::mempool::Mempool;
use crate::types::block::{block_preimage, payloads, BlockView};
use crate::types::bytes::be_bytes;
use crate::types::transaction::TransactionView;
use crate::types::hash::sha256;
use crate::types::quorum_cert::{signers, QuorumCertView};
use crate::types::signature::SignatureView;

verus! {

/// With `f = (n - 1) / 3` faults tolerated among `n >= 1` nodes, `n >= 3f + 1`, and `f` is
/// the largest such number: `n < 3(f + 1) + 1`.
pub proof fn law_fault_bound(n: u64)
    requires
        n >= 1,
    ensures
        3 * fault_bound(n) + 1 <= n,
        n < 3 * (fault_bound(n) + 1) + 1,
{
}

/// Any two sets of at least `n - f` of the `n` nodes share at least `f + 1` nodes, so at
/// least one honest node when at most `f` are faulty.
pub proof fn law_quorum_intersection(n: u64, a: Set<u64>, b: Set<u64>)
    requires
        n >= 1,
        a.subset_of(Set::new(|i: u64| i < n)),
        b.subset_of(Set::new(|i: u64| i < n)),
        a.len() >= n - fault_bound(n),
        b.len() >= n - fault_bound(n),
    ensures
        a.intersect(b).len() >= fault_bound(n) + 1,
{
    let all = Set::new(|i: u64| i < n);
    lemma_node_set_len(n);
    vstd::set_lib::lemma_len_subset(a, all);
    vstd::set_lib::lemma_len_subset(b, all);
    assert(a.finite());
    assert(b.finite());
    vstd::set_lib::lemma_set_intersect_union_lens(a, b);
    assert((a + b).subset_of(all));
    vstd::set_lib::lemma_len_subset(a + b, all);
}

/// With the `2f + 1` quorum of the replica core, two quorums share at least `f + 1` nodes when
/// `n = 3f + 1` exactly, that is when `n mod 3 == 1`.
pub proof fn law_two_f_plus_one_quorum_intersection(n: u64, a: Set<u64>, b: Set<u64>)
    requires
        n >= 1,
        n % 3 == 1,
        a.subset_of(Set::new(|i: u64| i < n)),
        b.subset_of(Set::new(|i: u64| i < n)),
        a.len() >= 2 * fault_bound(n) + 1,
        b.len() >= 2 * fault_bound(n) + 1,
    ensures
        a.intersect(b).len() >= fault_bound(n) + 1,
{
    law_quorum_intersection(n, a, b);
}

proof fn lemma_node_set_len(n: u64)
    ensures
        Set::new(|i: u64| i < n).finite(),
        Set::new(|i: u64| i < n).len() == n,
    decreases n,
{
    if n == 0 {
        assert(Set::new(|i: u64| i < n) =~= Set::<u64>::empty());
    } else {
        lemma_node_set_len((n - 1) as u64);
        let prev = Set::new(|i: u64| i < (n - 1) as u64);
        assert(Set::new(|i: u64| i < n) =~= prev.insert((n - 1) as u64));
    }
}

/// The leader of `round` among nodes `0..n` in `epoch` is `(round + epoch) mod n`.
pub proof fn law_round_robin_leader(n: u64, epoch: u64, round: u64)
    requires
        n >= 1,
    ensures
        scheduled_leader(n, epoch, round) == (round as int + epoch as int) % (n as int),
{
    let r = (round % n) as int;
    let k = (epoch % n) as int;
    vstd::arithmetic::div_mod::lemma_add_mod_noop(round as int, epoch as int, n as int);
    assert(0 <= (r + k) % (n as int) < n) by {
        vstd::arithmetic::div_mod::lemma_mod_bound(r + k, n as int);
    }
}

/// Consecutive rounds have different leaders when there are at least two nodes.
pub proof fn law_leaders_rotate(n: u64, epoch: u64, round: u64)
    requires
        n >= 2,
        round < u64::MAX,
    ensures
        scheduled_leader(n, epoch, round) != scheduled_leader(n, epoch, (round + 1) as u64),
{
    law_round_robin_leader(n, epoch, round);
    law_round_robin_leader(n, epoch, (round + 1) as u64);
    let x = round as int + epoch as int;
    let m = n as int;
    vstd::arithmetic::div_mod::lemma_fundamental_div_mod(x, m);
    vstd::arithmetic::div_mod::lemma_fundamental_div_mod(x + 1, m);
    vstd::arithmetic::div_mod::lemma_mod_bound(x, m);
    vstd::arithmetic::div_mod::lemma_mod_bound(x + 1, m);
    if x % m == (x + 1) % m {
        assert(m * (x / m) + x % m + 1 == m * ((x + 1) / m) + (x + 1) % m);
        assert(m * ((x + 1) / m - x / m) == 1) by (nonlinear_arith)
            requires
                m * (x / m) + 1 == m * ((x + 1) / m);
        assert(false) by (nonlinear_arith)
            requires
                m >= 2,
                m * ((x + 1) / m - x / m) == 1;
    }
}

/// Moving to a view never goes back: the view number becomes the larger of the two.
pub proof fn law_view_never_decreases(s: ReplicaView, new_view: u64)
    ensures
        advanced(s, new_view).view_number >= s.view_number,
        advanced(s, new_view).view_number >= new_view || advanced(s, new_view).view_number == s.view_number,
        advanced(s, new_view).view_number == if new_view > s.view_number { new_view } else { s.view_number },
{
}

/// Moving to a later view installs the scheduled leader of that view and starts it in the
/// propose phase; moving to an earlier or equal view changes nothing.
pub proof fn law_advancing_installs_scheduled_leader(s: ReplicaView, new_view: u64)
    ensures
        new_view > s.view_number ==> {
            &&& advanced(s, new_view).leader == scheduled_leader(s.nodes, s.epoch, new_view)
            &&& advanced(s, new_view).phase == crate::protocol::hotstuff2::Phase::Propose
        },
        new_view <= s.view_number ==> advanced(s, new_view) == s,
{
}

/// The engine's leader of view `v` among `n >= 1` nodes is node `v mod n`: the schedule wraps
/// around, so every node leads every `n`-th view and views `v` and `v + n` have the same leader.
pub proof fn law_engine_leader_wraps(n: u64, v: u64)
    requires
        n >= 1,
    ensures
        engine_leader(n, v) == v % n,
        engine_leader(n, v) < n,
        v < u64::MAX - n ==> engine_leader(n, (v + n) as u64) == engine_leader(n, v),
        v < n ==> engine_leader(n, v) == v,
{
    if v < u64::MAX - n {
        vstd::arithmetic::div_mod::lemma_mod_add_multiples_vanish(v as int, n as int);
    }
    if v < n {
        vstd::arithmetic::div_mod::lemma_small_mod(v as nat, n as nat);
    }
}

/// A block's hash input is its header followed by exactly its transactions' data: the parent
/// hash, then eight big-endian bytes each of height, proposer and timestamp, then the data of
/// each transaction in order. So the hash input of a block with one transaction ends with that
/// transaction's data, and two blocks that differ only in their transactions' data have
/// different hash inputs.
pub proof fn law_block_preimage_covers_transactions(
    parent_hash: Seq<u8>,
    height: u64,
    proposer_id: u64,
    timestamp: u64,
    txs: Seq<TransactionView>,
    other: Seq<TransactionView>,
    tx: TransactionView,
)
    ensures
        block_preimage(parent_hash, height, proposer_id, timestamp, txs).len()
            == parent_hash.len() + 24 + payloads(txs).len(),
        block_preimage(parent_hash, height, proposer_id, timestamp, txs).subrange(0, parent_hash.len() as int)
            == parent_hash,
        block_preimage(parent_hash, height, proposer_id, timestamp, txs).subrange(
            parent_hash.len() as int, parent_hash.len() as int + 8) == be_bytes(height),
        block_preimage(parent_hash, height, proposer_id, timestamp, txs).subrange(
            parent_hash.len() as int + 8, parent_hash.len() as int + 16) == be_bytes(proposer_id),
        block_preimage(parent_hash, height, proposer_id, timestamp, txs).subrange(
            parent_hash.len() as int + 16, parent_hash.len() as int + 24) == be_bytes(timestamp),
        block_preimage(parent_hash, height, proposer_id, timestamp, txs).skip(parent_hash.len() as int + 24)
            == payloads(txs),
        block_preimage(parent_hash, height, proposer_id, timestamp, seq![tx]).skip(parent_hash.len() as int + 24)
            == tx.data,
        payloads(txs.push(tx)) == payloads(txs) + tx.data,
        payloads(other) != payloads(txs) ==> block_preimage(parent_hash, height, proposer_id, timestamp, other)
            != block_preimage(parent_hash, height, proposer_id, timestamp, txs),
{
    let p = block_preimage(parent_hash, height, proposer_id, timestamp, txs);
    let h = parent_hash.len() as int;
    assert(be_bytes(height).len() == 8);
    assert(be_bytes(proposer_id).len() == 8);
    assert(be_bytes(timestamp).len() == 8);
    assert(p.subrange(0, h) =~= parent_hash);
    assert(p.subrange(h, h + 8) =~= be_bytes(height));
    assert(p.subrange(h + 8, h + 16) =~= be_bytes(proposer_id));
    assert(p.subrange(h + 16, h + 24) =~= be_bytes(timestamp));
    assert(p.skip(h + 24) =~= payloads(txs));
    let single = seq![tx];
    assert(single.drop_last() =~= Seq::<TransactionView>::empty());
    assert(payloads(Seq::<TransactionView>::empty()) =~= Seq::<u8>::empty());
    assert(single.last() == tx);
    assert(payloads(single) =~= tx.data);
    assert(block_preimage(parent_hash, height, proposer_id, timestamp, single).skip(h + 24) =~= tx.data);
    assert(txs.push(tx).drop_last() =~= txs);
    let q = block_preimage(parent_hash, height, proposer_id, timestamp, other);
    if payloads(other) != payloads(txs) && q == p {
        assert(q.skip(h + 24) =~= payloads(other));
        assert(false);
    }
}

/// A replica whose current view has run for 30 seconds or more, whose pipeline holds 100
/// stages or more, or that sees no network activity is never healthy; one with fewer stages,
/// a younger view and network activity always is.
pub proof fn law_health_thresholds(pipeline_stages: nat, view_age_nanos: u128, network_active: bool)
    ensures
        view_age_nanos >= 30_000_000_000 ==> !healthy(pipeline_stages, view_age_nanos, network_active),
        pipeline_stages >= 100 ==> !healthy(pipeline_stages, view_age_nanos, network_active),
        !network_active ==> !healthy(pipeline_stages, view_age_nanos, network_active),
        pipeline_stages < 100 && view_age_nanos < 30_000_000_000 && network_active
            ==> healthy(pipeline_stages, view_age_nanos, network_active),
{
    assert(30 * NANOS_PER_SEC == 30_000_000_000);
}

/// An unhealthy replica whose last activity is more than 30 seconds old is always moved to the
/// next view; a healthy one is never touched; one active within 30 seconds gets no view change.
pub proof fn law_recovery_plan_thresholds(h: HealthStatus, last_activity_age_nanos: u128)
    ensures
        !h.is_healthy && last_activity_age_nanos > 30_000_000_000 ==> recovery_plan(h, last_activity_age_nanos).view_change,
        last_activity_age_nanos <= 30_000_000_000 ==> !recovery_plan(h, last_activity_age_nanos).view_change,
        h.is_healthy ==> !recovery_plan(h, last_activity_age_nanos).view_change
            && !recovery_plan(h, last_activity_age_nanos).clear_stale
            && !recovery_plan(h, last_activity_age_nanos).partition_recovery,
{
    assert(30 * NANOS_PER_SEC == 30_000_000_000);
}

/// An engine's current leader is always the round-robin leader of its current view.
pub proof fn law_engine_leader_is_round_robin(engine: &HotStuff2EngineCore)
    requires
        engine.wf(),
    ensures
        engine@.leader == engine_leader(engine@.nodes, engine@.view_number),
        engine@.leader < engine@.nodes,
{
    engine.lemma_leader_is_round_robin();
}

/// Processing a certificate never lowers the high certificate.
pub proof fn law_high_qc_never_decreases(s: HotStuffStateView, qc: QuorumCertView)
    ensures
        after_qc(s, qc).high_qc is Some,
        s.high_qc is Some ==> after_qc(s, qc).high_qc->Some_0.height >= s.high_qc->Some_0.height,
        after_qc(s, qc).high_qc->Some_0.height >= qc.height || after_qc(s, qc).high_qc == s.high_qc,
{
}

/// Raising the high certificate when a certificate is formed and processing it later, once
/// its commit has been executed, ends in the same state as processing it at once, and the
/// commit decision is the same at both steps.
pub proof fn law_two_step_certificate_processing(s: HotStuffStateView, qc: QuorumCertView)
    ensures
        after_qc(raised_high(s, qc), qc) == after_qc(s, qc),
        commits_locked(raised_high(s, qc), qc) == commits_locked(s, qc),
{
}

/// The commit rule: a certificate commits exactly the locked block, and only when it directly
/// follows the locked certificate; the lock then moves to the new certificate.
pub proof fn law_commit_rule(s: HotStuffStateView, qc: QuorumCertView)
    ensures
        commits_locked(s, qc) ==> {
            &&& after_qc(s, qc).b_exec == Some(s.locked_qc->Some_0.block_hash)
            &&& after_qc(s, qc).committed_height + 1 == qc.height
        },
        !commits_locked(s, qc) ==> after_qc(s, qc).b_exec == s.b_exec
            && after_qc(s, qc).committed_height == s.committed_height,
        after_qc(s, qc).locked_qc == Some(qc),
        after_qc(s, qc).b_lock == Some(qc.block_hash),
{
}

/// The committed height never decreases while certificates arrive in non-decreasing height:
/// a node whose committed height is at most its locked height keeps that property, and its
/// committed height can only grow.
pub proof fn law_committed_height_never_decreases(s: HotStuffStateView, qc: QuorumCertView)
    requires
        s.locked_qc is Some ==> s.committed_height <= s.locked_qc->Some_0.height
            && qc.height >= s.locked_qc->Some_0.height,
        s.locked_qc is None ==> s.committed_height <= qc.height,
    ensures
        after_qc(s, qc).committed_height >= s.committed_height,
        after_qc(s, qc).committed_height <= after_qc(s, qc).locked_qc->Some_0.height,
{
}

/// A transaction removed from a pool is gone, whatever was added before.
pub proof fn law_mempool_remove_after_add(pool: Map<Seq<u8>, Seq<u8>>, tx: Seq<u8>, removed: Seq<Seq<u8>>)
    requires
        removed.contains(sha256(tx)),
    ensures
        !pool.insert(sha256(tx), tx).remove_keys(removed.to_set()).contains_key(sha256(tx)),
{
}

/// A node never votes twice in a view: once it has voted in `view`, the voting rule rejects
/// every other proposal for that view.
pub proof fn law_one_vote_per_view(s: HotStuffStateView, view: u64, parent_hash: Seq<u8>, safe: bool)
    requires
        s.last_voted_view == view,
    ensures
        !proposal_safe(s, view, parent_hash, safe),
{
}

/// A replica votes at most once per view: once it has voted in `view` (after moving to it),
/// its last voted round is `view`, so no later proposal of that view or of an earlier one
/// passes the voting rule `proposal.view > last voted round`.
pub proof fn law_replica_one_vote_per_view(s: ReplicaView, view: u64, later_view: u64)
    requires
        later_view <= view,
    ensures
        voted_in(advanced(s, view), view).chain.last_voted_round == view,
        !(later_view > voted_in(advanced(s, view), view).chain.last_voted_round),
{
}

/// A replica's quorum of `2f + 1` votes that come from pairwise distinct nodes names at least
/// `2f + 1` distinct voters.
pub proof fn law_replica_quorum_distinct_voters(votes: Seq<Vote>, f: nat)
    requires
        distinct_voters(votes),
        votes.len() >= 2 * f + 1,
    ensures
        votes.map_values(|v: Vote| v.node_id).to_set().len() >= 2 * f + 1,
{
    let ids = votes.map_values(|v: Vote| v.node_id);
    assert forall|i: int, j: int| 0 <= i < ids.len() && 0 <= j < ids.len() && i != j implies ids[i] != ids[j] by {
        if i < j {
            assert(votes[i].node_id != votes[j].node_id);
        } else {
            assert(votes[j].node_id != votes[i].node_id);
        }
    }
    ids.unique_seq_to_set();
}

/// A block reported by the fast path has fast commits from at least the fast-commit quorum of
/// distinct nodes.
pub proof fn law_fast_commit_quorum_distinct(commits: Seq<FastCommit>, quorum: nat)
    requires
        distinct_fast_committers(commits),
        commits.len() >= quorum,
    ensures
        commits.map_values(|c: FastCommit| c.node_id).to_set().len() >= quorum,
{
    let ids = commits.map_values(|c: FastCommit| c.node_id);
    assert forall|i: int, j: int| 0 <= i < ids.len() && 0 <= j < ids.len() && i != j implies ids[i] != ids[j] by {
        if i < j {
            assert(commits[i].node_id != commits[j].node_id);
        } else {
            assert(commits[j].node_id != commits[i].node_id);
        }
    }
    ids.unique_seq_to_set();
}

/// A combined threshold signature uses at most `threshold` signers, each once, each one listed
/// by the caller and each with a recorded share of the message.
pub proof fn law_threshold_signers(ids: Seq<u64>, recorded: Seq<(Seq<u8>, u64, Seq<u8>)>, message: Seq<u8>, threshold: nat)
    ensures
        chosen_signers(ids, recorded, message, threshold).len() <= threshold,
        chosen_signers(ids, recorded, message, threshold).no_duplicates(),
        forall|i: int| 0 <= i < chosen_signers(ids, recorded, message, threshold).len() ==> {
            &&& ids.contains(#[trigger] chosen_signers(ids, recorded, message, threshold)[i])
            &&& partial_from(recorded, message, chosen_signers(ids, recorded, message, threshold)[i]) is Some
        },
    decreases ids.len(),
{
    if ids.len() > 0 {
        let rest = ids.drop_last();
        law_threshold_signers(rest, recorded, message, threshold);
        let taken = chosen_signers(rest, recorded, message, threshold);
        let chosen = chosen_signers(ids, recorded, message, threshold);
        assert forall|i: int| 0 <= i < chosen.len() implies {
            &&& ids.contains(#[trigger] chosen[i])
            &&& partial_from(recorded, message, chosen[i]) is Some
        } by {
            if i < taken.len() {
                assert(chosen[i] == taken[i]);
                let k = choose|k: int| 0 <= k < rest.len() && rest[k] == taken[i];
                assert(ids[k] == rest[k]);
            } else {
                assert(chosen[i] == ids.last());
                assert(ids[ids.len() - 1] == ids.last());
            }
        }
    }
}

/// A certificate formed by a vote collector lists each voter once: its signers are pairwise
/// distinct and there are as many of them as accepted votes.
pub proof fn law_certificate_signers_distinct(c: &VoteCollector, sigs: Seq<SignatureView>)
    requires
        c.wf(),
        lists_votes(sigs, c.votes()),
    ensures
        forall|i: int, j: int| 0 <= i < j < sigs.len() ==> sigs[i].signer != sigs[j].signer,
        signers(sigs).len() == c.votes().len(),
{
    c.lemma_votes();
    let ids = sigs.map_values(|s: SignatureView| s.signer);
    assert(ids.to_set() =~= c.votes().dom()) by {
        assert forall|k: u64| ids.to_set().contains(k) implies c.votes().contains_key(k) by {
            let i = choose|i: int| 0 <= i < ids.len() && ids[i] == k;
            assert(c.votes().contains_key(sigs[i].signer));
        }
        assert forall|k: u64| c.votes().contains_key(k) implies ids.to_set().contains(k) by {
            let i = choose|i: int| 0 <= i < sigs.len() && #[trigger] sigs[i].signer == k;
            assert(ids[i] == k);
        }
    }
    ids.lemma_no_dup_set_cardinality();
    assert forall|i: int, j: int| 0 <= i < j < sigs.len() implies sigs[i].signer != sigs[j].signer by {
        assert(ids[i] != ids[j]);
    }
}

/// A mempool holds finitely many transactions, never more than its capacity, and stores
/// every transaction under its own hash.
pub proof fn law_mempool_invariants(m: &Mempool)
    requires
        m.wf(),
    ensures
        m.view_map().dom().finite(),
        m.view_map().len() <= m.capacity(),
        forall|k: Seq<u8>| #[trigger] m.view_map().contains_key(k) ==> k == sha256(m.view_map()[k]),
{
    m.lemma_invariants();
}

/// A transaction added to a pool is found again under its hash.
pub proof fn law_mempool_read_after_write(pool: Map<Seq<u8>, Seq<u8>>, tx: Seq<u8>)
    ensures
        pool.insert(sha256(tx), tx).contains_key(sha256(tx)),
        pool.insert(sha256(tx), tx)[sha256(tx)] == tx,
{
}

/// A block put into a store is found again under its hash, and the other blocks stay.
pub proof fn law_block_store_read_after_write(store: Map<Seq<u8>, BlockView>, block: BlockView, other: Seq<u8>)
    requires
        other != block.hash,
    ensures
        store.insert(block.hash, block).contains_key(block.hash),
        store.insert(block.hash, block)[block.hash] == block,
        store.insert(block.hash, block).contains_key(other) == store.contains_key(other),
        store.contains_key(other) ==> store.insert(block.hash, block)[other] == store[other],
{
}

/// Taking a checkpoint keeps at most `max` of them, and the one just taken is the latest, so
/// the next recovery from a checkpoint restores exactly the state it saved.
pub proof fn law_checkpoint_then_recover(cps: Seq<CheckpointView>, cp: CheckpointView, max: nat)
    requires
        max >= 1,
    ensures
        keep_last(cps.push(cp), max).len() <= max,
        keep_last(cps.push(cp), max).len() >= 1,
        keep_last(cps.push(cp), max).last() == cp,
{
}

/// Recovering from checkpoints right after one was taken of a replica puts that replica back
/// as it was when the checkpoint was taken (chain state and view number, the rest untouched)
/// and hands back the snapshot saved with it.
pub proof fn law_checkpoint_round_trip(cps: Seq<CheckpointView>, node: ReplicaView, snapshot: Seq<u8>, max: nat)
    requires
        max >= 1,
    ensures
        ({
            let cp = CheckpointView {
                height: node.chain.committed_height,
                view: node.view_number,
                chain: node.chain,
                snapshot,
                block_hashes: recent_block_hashes(node.chain.high_qc, node.chain.committed_height),
            };
            let latest = keep_last(cps.push(cp), max).last();
            &&& ReplicaView { chain: latest.chain, view_number: latest.view, ..node } == node
            &&& latest.snapshot == snapshot
        }),
{
}

/// A second signature from a node that already signed adds no signer, so it cannot help a
/// certificate reach its threshold.
pub proof fn law_repeated_signer_adds_nothing(sigs: Seq<SignatureView>, sig: SignatureView)
    requires
        signers(sigs).contains(sig.signer),
    ensures
        signers(sigs.push(sig)) == signers(sigs),
{
    assert(sigs.push(sig).map_values(|s: SignatureView| s.signer)
        =~= sigs.map_values(|s: SignatureView| s.signer).push(sig.signer));
    assert(signers(sigs.push(sig)) =~= signers(sigs).insert(sig.signer)) by {
        sigs.map_values(|s: SignatureView| s.signer).lemma_push_to_set_commute(sig.signer);
    }
}

/// A view-change recovery never moves a replica back: its view becomes the larger of its own
/// and the target.
pub proof fn law_recovery_never_goes_back(s: ReplicaView, target: u64, pipeline: Map<u64, StageSummary>)
    ensures
        moved_to(s, target, pipeline).view_number >= s.view_number,
        moved_to(s, target, pipeline).view_number >= target,
        moved_to(s, target, pipeline).view_number == s.view_number
            || moved_to(s, target, pipeline).view_number == target,
{
}

} // verus!
