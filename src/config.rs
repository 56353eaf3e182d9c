//! The miner's configuration knobs and their defaults.

use vstd::prelude::*;
use crate::work::VERSION_COUNTERS;

verus! {

/// Default number of midstates per assignment.
pub const DEFAULT_MIDSTATE_COUNT: usize = 4;
/// Index of the hashboard slot to drive by default.
pub const DEFAULT_HASHBOARD_INDEX: usize = 8;
/// Default ASIC difficulty: nonces whose hash is below the target at this difficulty are
/// returned by the hardware.
pub const ASIC_DIFFICULTY: u64 = 256;
/// Longest time, in milliseconds, one assignment takes to compute under normal
/// circumstances; beyond it the assignment is abandoned.
pub const JOB_TIMEOUT_MS: u64 = 5000;

/// The knobs of a mining backend.
#[derive(Clone, Copy, Debug, PartialEq, Eq, Structural)]
pub struct Config {
    pub midstate_count: usize,
    pub asic_difficulty: u64,
    pub job_timeout_ms: u64,
    pub hashboard_index: usize,
}

impl Config {
    /// The default configuration.
    pub fn new() -> (r: Config)
        ensures
            r == (Config {
                midstate_count: DEFAULT_MIDSTATE_COUNT,
                asic_difficulty: ASIC_DIFFICULTY,
                job_timeout_ms: JOB_TIMEOUT_MS,
                hashboard_index: DEFAULT_HASHBOARD_INDEX,
            }),
            r.is_valid_spec(),
    {
        Config {
            midstate_count: DEFAULT_MIDSTATE_COUNT,
            asic_difficulty: ASIC_DIFFICULTY,
            job_timeout_ms: JOB_TIMEOUT_MS,
            hashboard_index: DEFAULT_HASHBOARD_INDEX,
        }
    }

    pub open spec fn is_valid_spec(&self) -> bool {
        1 <= self.midstate_count <= VERSION_COUNTERS
    }

    /// Whether a work generator can be built with this midstate count.
    pub fn is_valid(&self) -> (r: bool)
        ensures
            r == self.is_valid_spec(),
    {
        1 <= self.midstate_count && self.midstate_count <= VERSION_COUNTERS
    }
}

} // verus!
