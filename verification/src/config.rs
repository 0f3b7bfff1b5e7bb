//! The settings of a run.

use crate::fusion::Algorithm;
use vstd::prelude::*;

verus! {

/// The settings of a run of the daemon.
#[derive(Debug, Clone, Copy, PartialEq, Eq, Structural)]
pub struct Config {
    /// The number of samples in a batch, at least one.
    pub batch: usize,
    /// Samples a second, at least one.
    pub rate: u32,
    /// The attitude estimator.
    pub algorithm: Algorithm,
    /// Whether every sample is echoed before it is batched.
    pub verbose: bool,
}

impl Config {
    /// Whether the settings can be used: batch size and rate are at least
    /// one.
    pub open spec fn valid(&self) -> bool {
        self.batch >= 1 && self.rate >= 1
    }

    /// Whether the settings can be used.
    pub fn is_valid(&self) -> (ok: bool)
        ensures
            ok == self.valid(),
    {
        self.batch >= 1 && self.rate >= 1
    }
}

impl Default for Config {
    /// Batches of 30 samples at 100 samples a second, with the Madgwick
    /// estimator, not verbose.
    fn default() -> (config: Config)
        ensures
            config == (Config {
                batch: 30,
                rate: 100,
                algorithm: Algorithm::Madgwick,
                verbose: false,
            }),
            config.valid(),
    {
        Config { batch: 30, rate: 100, algorithm: Algorithm::Madgwick, verbose: false }
    }
}

} // verus!
