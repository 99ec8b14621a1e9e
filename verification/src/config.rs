//! Tuning parameters of the engine.
//!
//! Historically each deployment was a separate code fork differing only in
//! thresholds, batch size and delays; here every variant is a value of
//! `Config`, and the engine is written once against it.

use crate::measure::MAX_BATCH;
use vstd::prelude::*;

verus! {

/// Largest bound we ever allow for the debounce depth, so that countdown
/// arithmetic never overflows an `i64`.
pub const MAX_DEBOUNCE_DEPTH: i64 = 1_000_000;

/// Most negative heartbeat threshold we ever allow, for the same reason.
pub const MIN_HEARTBEAT_THRESHOLD: i64 = -1_000_000;

/// Tuning parameters for one installation.
#[derive(Clone, Copy, PartialEq, Eq, Structural, Debug)]
pub struct Config {
    /// Number of raw samples per batch; a batch with fewer successful reads
    /// is discarded whole.
    pub samples: usize,
    /// A change of the smoothed position strictly greater than this
    /// (milli-units) counts as motion.
    pub move_threshold_milli: u64,
    /// A jump of the raw batch average strictly greater than this
    /// (milli-units) is treated as transient noise: the reference snaps to
    /// the new value and the cycle is not classified.
    pub sanity_threshold_milli: u64,
    /// Iterations of sub-threshold readings before motion counts as ended.
    pub debounce_depth: i64,
    /// Negative countdown value at which an idle heartbeat is published
    /// (for example -60: one heartbeat every 60 stationary iterations).
    pub heartbeat_threshold: i64,
    /// Inter-iteration delay while the platform is believed to be moving.
    pub moving_delay_ms: u64,
    /// Inter-iteration delay while the platform is stationary.
    pub stationary_delay_ms: u64,
}

impl Config {
    /// Well-formedness of a configuration: at least one sample per batch,
    /// a positive debounce depth and a strictly negative heartbeat
    /// threshold, both within bounds that keep countdown arithmetic inside
    /// `i64`.
    pub open spec fn wf(self) -> bool {
        &&& 1 <= self.samples <= MAX_BATCH
        &&& 1 <= self.debounce_depth <= MAX_DEBOUNCE_DEPTH
        &&& MIN_HEARTBEAT_THRESHOLD <= self.heartbeat_threshold <= -1
    }

    /// The tuning used by the single-shaft installation this engine was
    /// written for: batches of 500 reads, motion above a quarter of a unit,
    /// snap on jumps above five units, debounce of five iterations, one
    /// heartbeat per sixty stationary iterations.
    pub fn standard() -> (c: Config)
        ensures
            c.wf(),
            c.samples == 500,
            c.move_threshold_milli == 250,
            c.sanity_threshold_milli == 5000,
            c.debounce_depth == 5,
            c.heartbeat_threshold == -60,
            c.moving_delay_ms == 10,
            c.stationary_delay_ms == 30,
    {
        Config {
            samples: 500,
            move_threshold_milli: 250,
            sanity_threshold_milli: 5000,
            debounce_depth: 5,
            heartbeat_threshold: -60,
            moving_delay_ms: 10,
            stationary_delay_ms: 30,
        }
    }
}

} // verus!
