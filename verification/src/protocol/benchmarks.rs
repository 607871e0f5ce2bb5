use vstd::prelude::*;

verus! {

/// Settings of a benchmark run.
#[derive(Debug, Clone, Copy, PartialEq, Eq, Structural)]
pub struct BenchmarkConfig {
    pub num_nodes: usize,
    pub num_transactions: usize,
    pub transaction_size: usize,
    pub batch_size: usize,
    pub duration_secs: u64,
    pub network_latency_ms: u64,
    pub network_variance_ms: u64,
    pub byzantine_nodes: usize,
    pub enable_optimistic: bool,
}

impl Default for BenchmarkConfig {
    fn default() -> (c: BenchmarkConfig)
        ensures
            c == (BenchmarkConfig {
                num_nodes: 4,
                num_transactions: 1000,
                transaction_size: 1000,
                batch_size: 100,
                duration_secs: 30,
                network_latency_ms: 50,
                network_variance_ms: 10,
                byzantine_nodes: 0,
                enable_optimistic: true,
            }),
    {
        BenchmarkConfig {
            num_nodes: 4,
            num_transactions: 1000,
            transaction_size: 1000,
            batch_size: 100,
            duration_secs: 30,
            network_latency_ms: 50,
            network_variance_ms: 10,
            byzantine_nodes: 0,
            enable_optimistic: true,
        }
    }
}

/// The number of blocks a run counts as committed: one per full batch of the submitted
/// transactions, and at least one.
pub open spec fn committed_blocks(submitted: nat, batch_size: nat) -> nat {
    if submitted / batch_size >= 1 { submitted / batch_size } else { 1 }
}

/// The blocks and transactions a run counts as committed: `committed_blocks` blocks, each
/// holding a full batch.
pub fn committed_counts(submitted: usize, batch_size: usize) -> (r: (u64, u64))
    requires
        batch_size > 0,
    ensures
        r.0 == committed_blocks(submitted as nat, batch_size as nat),
        r.1 == committed_blocks(submitted as nat, batch_size as nat) * batch_size,
{
    let quotient = submitted / batch_size;
    let batches: usize = if quotient >= 1 { quotient } else { 1 };
    assert(batches * batch_size <= if submitted >= batch_size { submitted } else { batch_size }) by (nonlinear_arith)
        requires
            batch_size > 0,
            quotient == submitted / batch_size,
            batches == if quotient >= 1 { quotient } else { 1 },
    ;
    let transactions = batches * batch_size;
    (batches as u64, transactions as u64)
}

/// The latencies a run reports, in milliseconds: average, 95th percentile, 99th percentile and
/// proposal-to-commit, lower on the optimistic path.
pub fn latency_estimates_ms(optimistic: bool) -> (r: (u64, u64, u64, u64))
    ensures
        r == if optimistic { (50u64, 80u64, 120u64, 30u64) } else { (100u64, 150u64, 200u64, 60u64) },
{
    if optimistic {
        (50, 80, 120, 30)
    } else {
        (100, 150, 200, 60)
    }
}

} // verus!
