//! Motion classifier: a debounced state machine over the smoothed position.
//!
//! Each cycle compares the new smoothed estimate with the previous one. A
//! change strictly above the move threshold puts the machine in `Moving`
//! with the countdown reset to the debounce depth; that cycle is
//! publish-worthy. A sub-threshold cycle decrements the countdown: when it
//! crosses exactly zero the machine settles into `Stationary` (a log-only
//! event), and while stationary the countdown keeps falling below zero until
//! it reaches the heartbeat threshold, at which point an idle heartbeat is
//! emitted and the countdown snaps back to zero — so the heartbeat repeats
//! every `|heartbeat_threshold|` stationary cycles.

use crate::config::Config;
use vstd::prelude::*;

verus! {

/// The three phases of the classifier.
#[derive(Clone, Copy, PartialEq, Eq, Structural, Debug)]
pub enum MotionPhase {
    /// A super-threshold change was seen within the debounce window.
    Moving,
    /// Sub-threshold cycles are counting the debounce down toward zero.
    Settling,
    /// The debounce ran out; the platform is considered at rest.
    Stationary,
}

/// Classifier state: the phase together with the countdown that drives both
/// the debounce (positive values) and the heartbeat (negative values).
#[derive(Clone, Copy, PartialEq, Eq, Structural, Debug)]
pub struct MotionState {
    pub phase: MotionPhase,
    pub countdown: i64,
}

/// What one classified cycle calls for.
#[derive(Clone, Copy, PartialEq, Eq, Structural, Debug)]
pub enum MotionEvent {
    /// Super-threshold change: publish a measurement event.
    Motion,
    /// The countdown crossed zero: the platform just came to rest.
    BecameStationary,
    /// The countdown reached the heartbeat threshold: publish an idle
    /// heartbeat.
    Heartbeat,
    /// Nothing worth reporting this cycle.
    Quiet,
}

impl MotionState {
    /// The countdown always agrees with the phase: at the debounce depth
    /// while moving, strictly between zero and the depth while settling,
    /// and between the heartbeat threshold (exclusive) and zero while
    /// stationary.
    pub open spec fn wf(self, c: Config) -> bool {
        &&& (self.phase is Moving ==> self.countdown == c.debounce_depth)
        &&& (self.phase is Settling ==> 0 < self.countdown < c.debounce_depth)
        &&& (self.phase is Stationary ==> c.heartbeat_threshold < self.countdown <= 0)
    }

    /// The state before the first classified cycle: at rest, countdown at
    /// zero, so the first sub-threshold cycle starts the heartbeat count
    /// and no spurious motion is reported.
    pub fn initial() -> (s: MotionState)
        ensures
            s == (MotionState { phase: MotionPhase::Stationary, countdown: 0 }),
    {
        MotionState { phase: MotionPhase::Stationary, countdown: 0 }
    }
}

/// The transition function of the classifier, over the absolute change of
/// the smoothed position in milli-units.
pub open spec fn spec_classify(s: MotionState, abs_diff_milli: u64, c: Config) -> (MotionState,
    MotionEvent) {
    if abs_diff_milli > c.move_threshold_milli {
        (MotionState { phase: MotionPhase::Moving, countdown: c.debounce_depth },
        MotionEvent::Motion)
    } else {
        let cd = s.countdown - 1;
        if cd == 0 && !(s.phase is Stationary) {
            (MotionState { phase: MotionPhase::Stationary, countdown: 0 },
            MotionEvent::BecameStationary)
        } else if cd == c.heartbeat_threshold {
            (MotionState { phase: MotionPhase::Stationary, countdown: 0 }, MotionEvent::Heartbeat)
        } else {
            let phase = if s.phase is Moving {
                MotionPhase::Settling
            } else {
                s.phase
            };
            (MotionState { phase, countdown: cd as i64 }, MotionEvent::Quiet)
        }
    }
}

/// Classify one cycle.
///
/// The result is exactly the transition function; in particular a motion
/// event is reported if and only if the change exceeds the threshold, and a
/// heartbeat if and only if a sub-threshold cycle drives the countdown down
/// to the heartbeat threshold.
pub fn classify(s: &MotionState, abs_diff_milli: u64, c: &Config) -> (r: (MotionState, MotionEvent))
    requires
        c.wf(),
        s.wf(*c),
    ensures
        r == spec_classify(*s, abs_diff_milli, *c),
        r.0.wf(*c),
        (r.1 is Motion) <==> abs_diff_milli > c.move_threshold_milli,
        (r.1 is Heartbeat) <==> (abs_diff_milli <= c.move_threshold_milli && s.countdown - 1
            == c.heartbeat_threshold),
{
    if abs_diff_milli > c.move_threshold_milli {
        (MotionState { phase: MotionPhase::Moving, countdown: c.debounce_depth },
        MotionEvent::Motion)
    } else {
        let cd: i64 = s.countdown - 1;
        let stationary: bool = match s.phase {
            MotionPhase::Stationary => true,
            _ => false,
        };
        if cd == 0 && !stationary {
            (MotionState { phase: MotionPhase::Stationary, countdown: 0 },
            MotionEvent::BecameStationary)
        } else if cd == c.heartbeat_threshold {
            (MotionState { phase: MotionPhase::Stationary, countdown: 0 }, MotionEvent::Heartbeat)
        } else {
            let phase = match s.phase {
                MotionPhase::Moving => MotionPhase::Settling,
                _ => s.phase,
            };
            (MotionState { phase, countdown: cd }, MotionEvent::Quiet)
        }
    }
}

/// The countdown moves in single steps: each cycle it either resets to the
/// debounce depth (a motion event), falls by exactly one, or snaps to zero
/// from one of the two distinguished values — one, as the platform comes to
/// rest, or one above the heartbeat threshold, as a heartbeat fires.
pub proof fn lemma_countdown_step(s: MotionState, d: u64, c: Config)
    requires
        c.wf(),
        s.wf(c),
    ensures
        ({
            let (s_next, ev) = spec_classify(s, d, c);
            &&& ev is Motion ==> s_next.countdown == c.debounce_depth
            &&& ev is Quiet ==> s_next.countdown == s.countdown - 1
            &&& ev is BecameStationary ==> s.countdown == 1 && s_next.countdown == 0
            &&& ev is Heartbeat ==> s.countdown == c.heartbeat_threshold + 1
                && s_next.countdown == 0
        }),
{
}

/// The state after `k` consecutive sub-threshold (quiet) cycles.
pub open spec fn after_quiet(s: MotionState, c: Config, k: nat) -> MotionState
    decreases k,
{
    if k == 0 {
        s
    } else {
        spec_classify(after_quiet(s, c, (k - 1) as nat), 0, c).0
    }
}

/// A sub-threshold cycle transitions the same way whatever the exact size
/// of the (small) change.
pub proof fn lemma_quiet_step_uniform(s: MotionState, d: u64, c: Config)
    requires
        d <= c.move_threshold_milli,
    ensures
        spec_classify(s, d, c) == spec_classify(s, 0, c),
{
}

/// Any super-threshold cycle, from any state, resets the classifier to
/// `Moving` with the countdown at the debounce depth and reports a motion
/// event.
pub proof fn lemma_motion_resets(s: MotionState, d: u64, c: Config)
    requires
        d > c.move_threshold_milli,
    ensures
        spec_classify(s, d, c) == (MotionState {
            phase: MotionPhase::Moving,
            countdown: c.debounce_depth,
        }, MotionEvent::Motion),
{
}

/// Debounce runs monotonically: once the classifier enters `Moving` with
/// the countdown at the debounce depth, `k` consecutive sub-threshold
/// cycles leave it settling with the countdown at `depth - k`, and exactly
/// `depth` such cycles drive it to `Stationary`, the last one reporting
/// that the platform came to rest. (Any super-threshold cycle instead
/// resets the window: see `lemma_motion_resets`.)
pub proof fn lemma_debounce(c: Config, k: nat)
    requires
        c.wf(),
        1 <= k <= c.debounce_depth,
    ensures
        ({
            let s0 = MotionState { phase: MotionPhase::Moving, countdown: c.debounce_depth };
            &&& k < c.debounce_depth ==> after_quiet(s0, c, k) == (MotionState {
                phase: MotionPhase::Settling,
                countdown: (c.debounce_depth - k) as i64,
            })
            &&& k == c.debounce_depth ==> after_quiet(s0, c, k) == (MotionState {
                phase: MotionPhase::Stationary,
                countdown: 0,
            }) && spec_classify(after_quiet(s0, c, (k - 1) as nat), 0, c).1
                is BecameStationary
        }),
    decreases k,
{
    let s0 = MotionState { phase: MotionPhase::Moving, countdown: c.debounce_depth };
    if k > 1 {
        lemma_debounce(c, (k - 1) as nat);
    }
}

/// Heartbeat periodicity: while continuously stationary with the countdown
/// starting at zero, the first `|heartbeat_threshold| - 1` sub-threshold
/// cycles are quiet and only count down, and cycle number
/// `|heartbeat_threshold|` reports a heartbeat and returns the state to
/// exactly where it started — so the heartbeat repeats with that period.
pub proof fn lemma_heartbeat_period(c: Config, k: nat)
    requires
        c.wf(),
        1 <= k <= -c.heartbeat_threshold,
    ensures
        ({
            let s0 = MotionState { phase: MotionPhase::Stationary, countdown: 0 };
            &&& k < -c.heartbeat_threshold ==> after_quiet(s0, c, k) == (MotionState {
                phase: MotionPhase::Stationary,
                countdown: (-(k as int)) as i64,
            }) && spec_classify(after_quiet(s0, c, (k - 1) as nat), 0, c).1 is Quiet
            &&& k == -c.heartbeat_threshold ==> after_quiet(s0, c, k) == s0 && spec_classify(
                after_quiet(s0, c, (k - 1) as nat),
                0,
                c,
            ).1 is Heartbeat
        }),
    decreases k,
{
    if k > 1 {
        lemma_heartbeat_period(c, (k - 1) as nat);
    }
}

} // verus!
