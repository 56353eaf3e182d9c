//! Mining statistics: per-hashchain counters and the count of submitted shares.

use vstd::prelude::*;
use vstd::arithmetic::div_mod::lemma_add_mod_noop;

verus! {

/// Counts of solutions that went wrong.
#[derive(Clone, Copy, Debug, PartialEq, Eq, Structural, Default)]
pub struct MiningError {
    /// Submitted results that do not hit the ASIC target.
    pub hardware_errors: u64,
    /// Solutions for work that is no longer current.
    pub stale_solutions: u64,
    /// Solutions found more than once, when several chips worked on the same work.
    pub duplicate_solutions: u64,
    /// Nonces that did not match a previously received solution.
    pub mismatched_solution_nonces: u64,
}

/// Hardware statistics of one hashchain.
#[derive(Clone, Copy, Debug, PartialEq, Eq, Structural, Default)]
pub struct Mining {
    /// Work items generated for the hardware.
    pub work_generated: usize,
    /// Unique solutions.
    pub unique_solutions: u64,
    /// Computed work in shares: one work at difficulty 64 is 64 shares.
    pub unique_solutions_shares: u64,
    pub error_stats: MiningError,
}

/// The counters of one sampling period of a hashchain.
#[derive(Clone, Copy, Debug, PartialEq, Eq, Structural)]
pub struct MiningSample {
    pub solved_shares: u64,
    pub work_generated: usize,
    pub unique_solutions: u64,
}

impl MiningError {
    pub fn new() -> (r: MiningError)
        ensures
            r == (MiningError {
                hardware_errors: 0,
                stale_solutions: 0,
                duplicate_solutions: 0,
                mismatched_solution_nonces: 0,
            }),
    {
        MiningError { hardware_errors: 0, stale_solutions: 0, duplicate_solutions: 0, mismatched_solution_nonces: 0 }
    }
}

impl Mining {
    /// Statistics with every counter at zero.
    pub fn new() -> (r: Mining)
        ensures
            r == (Mining {
                work_generated: 0,
                unique_solutions: 0,
                unique_solutions_shares: 0,
                error_stats: MiningError::new_spec(),
            }),
    {
        Mining { work_generated: 0, unique_solutions: 0, unique_solutions_shares: 0, error_stats: MiningError::new() }
    }

    /// Takes the counters of the period that ends now and starts the next at zero; the
    /// error statistics are kept.
    pub fn take_sample(&mut self) -> (r: MiningSample)
        ensures
            r == (MiningSample {
                solved_shares: old(self).unique_solutions_shares,
                work_generated: old(self).work_generated,
                unique_solutions: old(self).unique_solutions,
            }),
            *final(self) == (Mining {
                work_generated: 0,
                unique_solutions: 0,
                unique_solutions_shares: 0,
                ..*old(self)
            }),
    {
        let r = MiningSample {
            solved_shares: self.unique_solutions_shares,
            work_generated: self.work_generated,
            unique_solutions: self.unique_solutions,
        };
        self.unique_solutions_shares = 0;
        self.work_generated = 0;
        self.unique_solutions = 0;
        r
    }

    /// Counts one unique solution found at difficulty `difficulty`; the counters wrap
    /// around at 2^64.
    pub fn account_unique_solution(&mut self, difficulty: u64)
        ensures
            *final(self) == (Mining {
                unique_solutions: account_step(old(self).unique_solutions, 1),
                unique_solutions_shares: account_step(old(self).unique_solutions_shares, difficulty),
                ..*old(self)
            }),
    {
        self.unique_solutions = ((self.unique_solutions as u128 + 1) % 0x1_0000_0000_0000_0000u128) as u64;
        self.unique_solutions_shares =
            ((self.unique_solutions_shares as u128 + difficulty as u128) % 0x1_0000_0000_0000_0000u128) as u64;
    }

    /// Whether the error statistics differ from those last reported.
    pub fn errors_changed(&self, last: &MiningError) -> (r: bool)
        ensures
            r == (self.error_stats != *last),
    {
        self.error_stats != *last
    }
}

impl MiningError {
    pub open spec fn new_spec() -> MiningError {
        MiningError { hardware_errors: 0, stale_solutions: 0, duplicate_solutions: 0, mismatched_solution_nonces: 0 }
    }
}

/// The number of hashes that `shares` shares stand for: one share at difficulty 1 is 2^32
/// hashes.
pub fn shares_to_hashes(shares: u64) -> (r: u128)
    ensures
        r == shares * 0x1_0000_0000,
{
    (shares as u128) * 0x1_0000_0000u128
}

/// The share counter after one more solution at difficulty `difficulty`; the counter
/// wraps around at 2^64.
pub open spec fn account_step(shares: u64, difficulty: u64) -> u64 {
    ((shares + difficulty) % 0x1_0000_0000_0000_0000) as u64
}

/// The share counter after `k` solutions at difficulty `difficulty`, from `shares`.
pub open spec fn accounted(shares: u64, k: nat, difficulty: u64) -> u64
    decreases k,
{
    if k == 0 {
        shares
    } else {
        account_step(accounted(shares, (k - 1) as nat, difficulty), difficulty)
    }
}

/// Submitting `k` solutions at difficulty `d` adds `k * d` shares to the counter (modulo
/// 2^64).
pub proof fn lemma_share_accounting(shares: u64, k: nat, d: u64)
    ensures
        accounted(shares, k, d) == (shares + k * d) % 0x1_0000_0000_0000_0000,
    decreases k,
{
    let m: int = 0x1_0000_0000_0000_0000;
    if k == 0 {
        assert((shares as int) % m == shares as int);
    } else {
        lemma_share_accounting(shares, (k - 1) as nat, d);
        let prev: int = shares + (k - 1) * d;
        let before = accounted(shares, (k - 1) as nat, d);
        assert(before as int == prev % m);
        lemma_add_mod_noop(prev, d as int, m);
        assert((d as int) % m == d as int);
        assert(((prev % m) + d) % m == (prev + d) % m);
        assert(prev + d == shares + k * d) by (nonlinear_arith)
            requires
                prev == shares + (k - 1) * d,
                k > 0,
        ;
        assert(accounted(shares, k, d) == account_step(before, d));
    }
}

/// Shares submitted at the pool's difficulty, since the hash rate was last sampled.
#[derive(Debug)]
pub struct ShareCounter {
    pub shares: u64,
}

impl ShareCounter {
    pub fn new() -> (r: ShareCounter)
        ensures
            r.shares == 0,
    {
        ShareCounter { shares: 0 }
    }

    /// Counts one accepted solution at difficulty `difficulty`.
    pub fn account_solution(&mut self, difficulty: u64)
        ensures
            final(self).shares == account_step(old(self).shares, difficulty),
    {
        self.shares = ((self.shares as u128 + difficulty as u128) % 0x1_0000_0000_0000_0000u128) as u64;
    }

    /// Takes the shares counted so far and starts again at zero.
    pub fn take(&mut self) -> (r: u64)
        ensures
            r == old(self).shares,
            final(self).shares == 0,
    {
        let r = self.shares;
        self.shares = 0;
        r
    }
}

} // verus!
