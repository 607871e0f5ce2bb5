use vstd::prelude::*;

verus! {

/// How members of a Byzantine coalition coordinate.
#[derive(Debug, Clone, Copy, PartialEq, Eq, Structural)]
pub enum CoalitionStrategy {
    CoordinatedEquivocation,
    CoordinatedSilence,
    CoordinatedDelays,
    RotatingAttacks,
}

/// Counts of the attacks a Byzantine node carried out.
#[derive(Debug, Clone, Copy)]
pub struct AttackHistory {
    equivocations: u64,
    delayed_messages: u64,
    dropped_messages: u64,
    corrupted_signatures: u64,
    silence_periods: u64,
    coalition_attacks: u64,
}

impl Default for AttackHistory {
    fn default() -> (h: AttackHistory)
        ensures
            h.total() == 0,
    {
        AttackHistory {
            equivocations: 0,
            delayed_messages: 0,
            dropped_messages: 0,
            corrupted_signatures: 0,
            silence_periods: 0,
            coalition_attacks: 0,
        }
    }
}

impl AttackHistory {
    /// The number of attacks of all kinds.
    pub closed spec fn total(&self) -> int {
        self.equivocations + self.delayed_messages + self.dropped_messages + self.corrupted_signatures
            + self.silence_periods + self.coalition_attacks
    }
}

/// Whether a node follows the protocol.
#[derive(Debug, Clone, Copy, PartialEq, Eq, Structural)]
pub enum NodeType {
    Legitimate,
    Byzantine,
}

/// The final statistics of one node after a Byzantine fault tolerance test.
#[derive(Debug, Clone, Copy)]
pub struct NodeStatistics {
    pub node_id: u64,
    pub node_type: NodeType,
    pub final_height: u64,
    pub final_view: u64,
    pub is_healthy: bool,
    pub pending_transactions: usize,
    pub is_synchronous: bool,
}

} // verus!
