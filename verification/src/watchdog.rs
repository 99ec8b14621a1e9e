//! Stale-sensor watchdog.
//!
//! A sensor in continuous operation producing bit-identical batch averages
//! across independent reads is treated as stuck (frozen output register,
//! stuck bus, saturated rangefinder). The watchdog compares each reduced
//! measurement with the previous one and reacts to the first repeat: the
//! cycle calls for a recovery sequence (cooldown, device reset,
//! stabilization), carried out by the driver, after which
//! `recovery_complete` clears the repeat counter. Distinct measurements
//! instead grow the fault-free counter that is published as a health
//! signal.

use crate::measure::ReducedMeasurement;
use vstd::prelude::*;

verus! {

/// Watchdog counters carried across cycles.
#[derive(Clone, Copy, PartialEq, Eq, Structural, Debug)]
pub struct WatchdogState {
    /// Cycles in a row whose reduced measurement equalled the previous one;
    /// cleared when a distinct value arrives or a recovery completes.
    pub consecutive_identical: u64,
    /// Cycles since the last detected fault, published as telemetry.
    pub fault_free_reads: u64,
}

/// A repeat: the cycle's reduced measurement is identical to the previous
/// cycle's.
pub open spec fn identical_repeat(prev: Option<ReducedMeasurement>, m: ReducedMeasurement) -> bool {
    prev matches Some(p) && p == m
}

/// The watchdog transition: the new counters and whether a recovery
/// sequence must run. Counters saturate rather than wrap.
pub open spec fn spec_watchdog(w: WatchdogState, prev: Option<ReducedMeasurement>,
    m: ReducedMeasurement) -> (WatchdogState, bool) {
    if identical_repeat(prev, m) {
        (WatchdogState {
            consecutive_identical: if w.consecutive_identical < u64::MAX {
                (w.consecutive_identical + 1) as u64
            } else {
                w.consecutive_identical
            },
            fault_free_reads: 0,
        }, true)
    } else {
        (WatchdogState {
            consecutive_identical: 0,
            fault_free_reads: if w.fault_free_reads < u64::MAX {
                (w.fault_free_reads + 1) as u64
            } else {
                w.fault_free_reads
            },
        }, false)
    }
}

impl WatchdogState {
    /// Counters at process start.
    pub fn initial() -> (w: WatchdogState)
        ensures
            w == (WatchdogState { consecutive_identical: 0, fault_free_reads: 0 }),
    {
        WatchdogState { consecutive_identical: 0, fault_free_reads: 0 }
    }

    /// Check one reduced measurement against the previous cycle's.
    ///
    /// Returns the new counters and whether a recovery sequence must run:
    /// exactly when the measurement repeats the previous one bit for bit.
    /// On a repeat the fault-free counter drops to zero; on a distinct
    /// value it grows by one (saturating) and the repeat counter clears.
    pub fn check(&self, prev: &Option<ReducedMeasurement>, m: &ReducedMeasurement) -> (r: (
        WatchdogState,
        bool,
    ))
        ensures
            r == spec_watchdog(*self, *prev, *m),
            r.1 <==> identical_repeat(*prev, *m),
    {
        let is_repeat: bool = match prev {
            Some(p) => *p == *m,
            None => false,
        };
        if is_repeat {
            let consecutive_identical: u64 = if self.consecutive_identical < u64::MAX {
                self.consecutive_identical + 1
            } else {
                self.consecutive_identical
            };
            (WatchdogState { consecutive_identical, fault_free_reads: 0 }, true)
        } else {
            let fault_free_reads: u64 = if self.fault_free_reads < u64::MAX {
                self.fault_free_reads + 1
            } else {
                self.fault_free_reads
            };
            (WatchdogState { consecutive_identical: 0, fault_free_reads }, false)
        }
    }

    /// Record that a recovery sequence (cooldown, reset command,
    /// stabilization) has completed: the repeat counter clears, the
    /// fault-free counter is untouched.
    pub fn recovery_complete(&mut self)
        ensures
            *final(self) == (WatchdogState {
                consecutive_identical: 0,
                fault_free_reads: old(self).fault_free_reads,
            }),
    {
        self.consecutive_identical = 0;
    }
}

/// A stuck value triggers exactly one recovery: the repeating cycle calls
/// for recovery and zeroes the fault-free counter, and once recovery has
/// completed, a following distinct measurement does not call for another —
/// it counts as the first fault-free read instead.
pub proof fn lemma_watchdog_single_trigger(w: WatchdogState, m: ReducedMeasurement,
    m_next: ReducedMeasurement)
    requires
        m_next != m,
    ensures
        ({
            let (w1, trigger1) = spec_watchdog(w, Some(m), m);
            let w1r = WatchdogState { consecutive_identical: 0, fault_free_reads: w1.fault_free_reads };
            let (w2, trigger2) = spec_watchdog(w1r, Some(m), m_next);
            &&& trigger1
            &&& w1.fault_free_reads == 0
            &&& !trigger2
            &&& w2 == (WatchdogState { consecutive_identical: 0, fault_free_reads: 1 })
        }),
{
}

} // verus!
