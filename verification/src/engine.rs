//! The per-iteration engine: smoothing, classification, watchdog and the
//! publish decisions, threaded through one explicit state value.
//!
//! The engine owns no transport and no bus client. Each cycle the driver
//! hands it the outcome of the read attempts (or an already reduced
//! measurement) and receives back the new state and a `CycleOutput` saying
//! what to do: which events to publish, whether to run the sensor recovery
//! sequence, and how long to wait before the next cycle. Publish attempts
//! are best-effort: their success or failure is not an input of any
//! transition, so a failed publish can never stall or derail the engine
//! (see `lemma_publish_failure_isolation`).

use crate::config::Config;
use crate::measure::{
    collect_batch, reduce, spec_reduce, RawSample, ReducedMeasurement, MAX_BATCH,
    MAX_DISTANCE_MILLI,
};
use crate::motion::{classify, spec_classify, MotionEvent, MotionPhase, MotionState};
use crate::smoother::{abs_diff, smooth, spec_abs_diff, spec_blend};
use crate::watchdog::{spec_watchdog, WatchdogState};
use vstd::prelude::*;

verus! {

/// The smoothed position carried across cycles: the stable estimate that
/// jitter is measured against, and the estimate as of the last published
/// event.
#[derive(Clone, Copy, PartialEq, Eq, Structural, Debug)]
pub struct SmoothedState {
    pub last_stable: u64,
    pub last_published: u64,
}

/// What the driver must do after one cycle.
#[derive(Clone, Copy, PartialEq, Eq, Structural, Debug)]
pub struct CycleOutput {
    /// Publish a measurement event: the cycle saw motion.
    pub publish_measurement: bool,
    /// Publish an idle heartbeat: stationary, but still alive.
    pub publish_heartbeat: bool,
    /// The platform just came to rest (log-only).
    pub became_stationary: bool,
    /// Run the recovery sequence (cooldown, reset command, stabilization),
    /// then report back through `recovery_complete`.
    pub trigger_recovery: bool,
    /// The stable position estimate after this cycle, milli-units.
    pub height_milli: u64,
    /// The averaged temperature of this cycle, milli-degrees.
    pub temperature_milli: u64,
    /// Health counter to include in published telemetry.
    pub fault_free_reads: u64,
    /// Delay before the next cycle: short while moving, long while
    /// stationary.
    pub next_delay_ms: u64,
}

/// The whole cross-cycle state of the sampling loop.
#[derive(Clone, Copy, Debug)]
pub struct Engine {
    pub config: Config,
    /// None until the first valid batch bootstraps the reference.
    pub smoothed: Option<SmoothedState>,
    pub motion: MotionState,
    pub watchdog: WatchdogState,
    /// The previous cycle's reduced measurement, for the watchdog.
    pub prev_reduced: Option<ReducedMeasurement>,
}

/// The iteration delay called for by a phase.
pub open spec fn spec_delay(phase: MotionPhase, c: Config) -> u64 {
    if phase is Stationary {
        c.stationary_delay_ms
    } else {
        c.moving_delay_ms
    }
}

/// The engine's transition function for one valid reduced measurement.
///
/// The watchdog always runs. On the first cycle the reference bootstraps to
/// the measurement and classification sees an implicit change of zero; a
/// later jump beyond the sanity threshold snaps the reference and skips
/// classification; otherwise the measurement is blended into the estimate
/// and the change of the estimate is classified.
pub open spec fn spec_step(e: Engine, m: ReducedMeasurement) -> (Engine, CycleOutput) {
    let (wd, trigger) = spec_watchdog(e.watchdog, e.prev_reduced, m);
    match e.smoothed {
        None => {
            let stable = m.distance_milli;
            let (mo, ev) = spec_classify(e.motion, 0, e.config);
            (Engine {
                config: e.config,
                smoothed: Some(SmoothedState { last_stable: stable, last_published: stable }),
                motion: mo,
                watchdog: wd,
                prev_reduced: Some(m),
            }, CycleOutput {
                publish_measurement: ev is Motion,
                publish_heartbeat: ev is Heartbeat,
                became_stationary: ev is BecameStationary,
                trigger_recovery: trigger,
                height_milli: stable,
                temperature_milli: m.temperature_milli,
                fault_free_reads: wd.fault_free_reads,
                next_delay_ms: spec_delay(mo.phase, e.config),
            })
        },
        Some(s) => {
            if spec_abs_diff(m.distance_milli, s.last_stable) > e.config.sanity_threshold_milli {
                (Engine {
                    config: e.config,
                    smoothed: Some(SmoothedState {
                        last_stable: m.distance_milli,
                        last_published: s.last_published,
                    }),
                    motion: e.motion,
                    watchdog: wd,
                    prev_reduced: Some(m),
                }, CycleOutput {
                    publish_measurement: false,
                    publish_heartbeat: false,
                    became_stationary: false,
                    trigger_recovery: trigger,
                    height_milli: m.distance_milli,
                    temperature_milli: m.temperature_milli,
                    fault_free_reads: wd.fault_free_reads,
                    next_delay_ms: spec_delay(e.motion.phase, e.config),
                })
            } else {
                let stable = spec_blend(m.distance_milli, s.last_stable) as u64;
                let diff = spec_abs_diff(stable, s.last_stable) as u64;
                let (mo, ev) = spec_classify(e.motion, diff, e.config);
                let published = if ev is Motion || ev is Heartbeat {
                    stable
                } else {
                    s.last_published
                };
                (Engine {
                    config: e.config,
                    smoothed: Some(SmoothedState { last_stable: stable, last_published: published }),
                    motion: mo,
                    watchdog: wd,
                    prev_reduced: Some(m),
                }, CycleOutput {
                    publish_measurement: ev is Motion,
                    publish_heartbeat: ev is Heartbeat,
                    became_stationary: ev is BecameStationary,
                    trigger_recovery: trigger,
                    height_milli: stable,
                    temperature_milli: m.temperature_milli,
                    fault_free_reads: wd.fault_free_reads,
                    next_delay_ms: spec_delay(mo.phase, e.config),
                })
            }
        },
    }
}

impl Engine {
    /// The engine is well-formed: its configuration is, the classifier
    /// state agrees with it, and every carried position is in the sensor's
    /// range.
    pub open spec fn wf(self) -> bool {
        &&& self.config.wf()
        &&& self.motion.wf(self.config)
        &&& (self.smoothed matches Some(s) ==> s.last_stable <= MAX_DISTANCE_MILLI
            && s.last_published <= MAX_DISTANCE_MILLI)
        &&& (self.prev_reduced matches Some(p) ==> p.wf())
    }

    /// A fresh engine: no reference yet, at rest, all counters at zero.
    pub fn new(config: Config) -> (e: Engine)
        requires
            config.wf(),
        ensures
            e.wf(),
            e.config == config,
            e.smoothed is None,
            e.motion == (MotionState { phase: MotionPhase::Stationary, countdown: 0 }),
            e.watchdog == (WatchdogState { consecutive_identical: 0, fault_free_reads: 0 }),
            e.prev_reduced is None,
    {
        Engine {
            config,
            smoothed: None,
            motion: MotionState::initial(),
            watchdog: WatchdogState::initial(),
            prev_reduced: None,
        }
    }

    /// Run one cycle on a valid reduced measurement. The new state and the
    /// output are exactly the transition function's.
    pub fn step(&mut self, m: ReducedMeasurement) -> (out: CycleOutput)
        requires
            old(self).wf(),
            m.wf(),
        ensures
            final(self).wf(),
            *final(self) == spec_step(*old(self), m).0,
            out == spec_step(*old(self), m).1,
            final(self).config == old(self).config,
    {
        let (wd, trigger) = self.watchdog.check(&self.prev_reduced, &m);
        match self.smoothed {
            None => {
                let stable: u64 = m.distance_milli;
                let (mo, ev) = classify(&self.motion, 0, &self.config);
                let out = CycleOutput {
                    publish_measurement: ev == MotionEvent::Motion,
                    publish_heartbeat: ev == MotionEvent::Heartbeat,
                    became_stationary: ev == MotionEvent::BecameStationary,
                    trigger_recovery: trigger,
                    height_milli: stable,
                    temperature_milli: m.temperature_milli,
                    fault_free_reads: wd.fault_free_reads,
                    next_delay_ms: delay_for(mo.phase, &self.config),
                };
                self.smoothed = Some(SmoothedState { last_stable: stable, last_published: stable });
                self.motion = mo;
                self.watchdog = wd;
                self.prev_reduced = Some(m);
                out
            },
            Some(s) => {
                let jump: u64 = abs_diff(m.distance_milli, s.last_stable);
                if jump > self.config.sanity_threshold_milli {
                    let out = CycleOutput {
                        publish_measurement: false,
                        publish_heartbeat: false,
                        became_stationary: false,
                        trigger_recovery: trigger,
                        height_milli: m.distance_milli,
                        temperature_milli: m.temperature_milli,
                        fault_free_reads: wd.fault_free_reads,
                        next_delay_ms: delay_for(self.motion.phase, &self.config),
                    };
                    self.smoothed = Some(SmoothedState {
                        last_stable: m.distance_milli,
                        last_published: s.last_published,
                    });
                    self.watchdog = wd;
                    self.prev_reduced = Some(m);
                    out
                } else {
                    let stable: u64 = smooth(m.distance_milli, Some(s.last_stable));
                    let diff: u64 = abs_diff(stable, s.last_stable);
                    let (mo, ev) = classify(&self.motion, diff, &self.config);
                    let published: u64 = if ev == MotionEvent::Motion || ev
                        == MotionEvent::Heartbeat {
                        stable
                    } else {
                        s.last_published
                    };
                    let out = CycleOutput {
                        publish_measurement: ev == MotionEvent::Motion,
                        publish_heartbeat: ev == MotionEvent::Heartbeat,
                        became_stationary: ev == MotionEvent::BecameStationary,
                        trigger_recovery: trigger,
                        height_milli: stable,
                        temperature_milli: m.temperature_milli,
                        fault_free_reads: wd.fault_free_reads,
                        next_delay_ms: delay_for(mo.phase, &self.config),
                    };
                    self.smoothed = Some(SmoothedState {
                        last_stable: stable,
                        last_published: published,
                    });
                    self.motion = mo;
                    self.watchdog = wd;
                    self.prev_reduced = Some(m);
                    out
                }
            },
        }
    }

    /// Run one full cycle from the raw attempt outcomes: completeness or
    /// discard. The cycle yields an output exactly when every read attempt
    /// succeeded; a single failure leaves the engine untouched and the
    /// driver retries a whole batch next iteration. On a complete batch the
    /// engine advances on the batch's reduction.
    pub fn run_cycle(&mut self, attempts: &Vec<Option<RawSample>>) -> (out: Option<CycleOutput>)
        requires
            old(self).wf(),
            1 <= attempts@.len() <= MAX_BATCH,
        ensures
            final(self).wf(),
            (out is Some) <==> (forall|i: int|
                0 <= i < attempts@.len() ==> (#[trigger] attempts@[i]) is Some),
            out is None ==> *final(self) == *old(self),
            out matches Some(o) ==> ({
                let samples = Seq::new(attempts@.len(), |i: int| attempts@[i]->0);
                &&& *final(self) == spec_step(*old(self), spec_reduce(samples)).0
                &&& o == spec_step(*old(self), spec_reduce(samples)).1
            }),
    {
        match collect_batch(attempts) {
            None => None,
            Some(batch) => {
                let m = reduce(&batch);
                proof {
                    let samples = Seq::new(attempts@.len(), |i: int| attempts@[i]->0);
                    assert(batch.samples@ =~= samples);
                }
                Some(self.step(m))
            },
        }
    }

    /// Record that the recovery sequence the last cycle called for has
    /// completed: only the watchdog's repeat counter clears.
    pub fn recovery_complete(&mut self)
        requires
            old(self).wf(),
        ensures
            final(self).wf(),
            *final(self) == (Engine {
                watchdog: WatchdogState {
                    consecutive_identical: 0,
                    fault_free_reads: old(self).watchdog.fault_free_reads,
                },
                ..*old(self)
            }),
    {
        self.watchdog.recovery_complete();
    }
}

/// The iteration delay called for by a phase.
fn delay_for(phase: MotionPhase, c: &Config) -> (d: u64)
    ensures
        d == spec_delay(phase, *c),
{
    match phase {
        MotionPhase::Stationary => c.stationary_delay_ms,
        _ => c.moving_delay_ms,
    }
}

/// Publish failures are isolated. The successor state of a cycle is a
/// function of the prior state and the measurement alone: the transition
/// takes no publish outcome, so two runs of the same cycle whose publish
/// attempts fared differently (`ok_first` in one, `ok_second` in the
/// other) still agree on every piece of state and on every decision.
pub proof fn lemma_publish_failure_isolation(e_first: Engine, e_second: Engine,
    m: ReducedMeasurement, ok_first: bool, ok_second: bool)
    requires
        e_first == e_second,
    ensures
        spec_step(e_first, m) == spec_step(e_second, m),
{
}

} // verus!
