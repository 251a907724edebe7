//! Parameters of the simulated clock, with their documented defaults.

use vstd::prelude::*;

verus! {

/// Default drift: the clock gains this many microseconds per real second.
pub const DEFAULT_DRIFT_RATE: i64 = 50;

/// Default uncertainty bound, microseconds either way.
pub const DEFAULT_UNCERTAINTY_BOUND: u64 = 100;

/// Default sync frequency in hertz (a resync every ten milliseconds).
pub const DEFAULT_SYNC_FREQ: u64 = 100;

/// Clock simulation parameters: drift rate in microseconds per real second
/// (positive runs fast), uncertainty bound in microseconds either way, and
/// sync frequency in hertz (the resync interval is its reciprocal).
#[derive(Clone, Copy, Debug, PartialEq, Eq, Structural)]
pub struct ClockConfig {
    /// Drift rate in microseconds per real second.
    pub drift_rate: i64,
    /// Sync uncertainty in microseconds either way.
    pub uncertainty_bound: u64,
    /// Sync frequency in hertz.
    pub sync_freq: u64,
}

/// A configuration is valid when its sync frequency is positive; a
/// non-positive frequency is a fatal configuration error.
pub open spec fn valid_clock_config(c: ClockConfig) -> bool {
    0 < c.sync_freq
}

impl Default for ClockConfig {
    /// The documented default parameters.
    fn default() -> (c: Self)
        ensures
            c.drift_rate == DEFAULT_DRIFT_RATE,
            c.uncertainty_bound == DEFAULT_UNCERTAINTY_BOUND,
            c.sync_freq == DEFAULT_SYNC_FREQ,
            valid_clock_config(c),
    {
        ClockConfig {
            drift_rate: DEFAULT_DRIFT_RATE,
            uncertainty_bound: DEFAULT_UNCERTAINTY_BOUND,
            sync_freq: DEFAULT_SYNC_FREQ,
        }
    }
}

} // verus!
