//! Position smoother: blends each new batch average with the previous
//! stable estimate to suppress single-cycle jitter.
//!
//! On the very first cycle there is no prior estimate, and the smoothed
//! value is the input itself (the bootstrap). Afterwards the new value is
//! weighted twice against the prior once: `(2 * new + prior) / 3`, biasing
//! toward the new sample while damping noise.

use crate::measure::MAX_DISTANCE_MILLI;
use vstd::arithmetic::div_mod::{lemma_div_is_ordered, lemma_div_multiples_vanish};
use vstd::prelude::*;

verus! {

/// The blend of a new value with the prior stable one, weighted 2:1 toward
/// the new value.
pub open spec fn spec_blend(raw_milli: u64, prior_milli: u64) -> int {
    (2 * raw_milli + prior_milli) / 3
}

/// Absolute difference of two fixed-point values.
pub open spec fn spec_abs_diff(a: u64, b: u64) -> int {
    if a >= b {
        a - b
    } else {
        b - a
    }
}

/// Absolute difference of two fixed-point values.
pub fn abs_diff(a: u64, b: u64) -> (r: u64)
    ensures
        r == spec_abs_diff(a, b),
{
    if a >= b {
        a - b
    } else {
        b - a
    }
}

/// Smooth one batch average against the prior stable estimate.
///
/// With no prior the input passes through unchanged; with a prior the
/// result is the 2:1 blend. The result never leaves the sensor's
/// representable range.
pub fn smooth(raw_milli: u64, prior_milli: Option<u64>) -> (r: u64)
    requires
        raw_milli <= MAX_DISTANCE_MILLI,
        prior_milli matches Some(p) ==> p <= MAX_DISTANCE_MILLI,
    ensures
        prior_milli is None ==> r == raw_milli,
        prior_milli matches Some(p) ==> r == spec_blend(raw_milli, p),
        r <= MAX_DISTANCE_MILLI,
{
    match prior_milli {
        None => raw_milli,
        Some(p) => {
            let r: u64 = (2 * raw_milli + p) / 3;
            proof {
                lemma_blend_bounded(raw_milli, p);
            }
            r
        },
    }
}

/// The blend of two in-range values stays in range.
pub proof fn lemma_blend_bounded(raw_milli: u64, prior_milli: u64)
    requires
        raw_milli <= MAX_DISTANCE_MILLI,
        prior_milli <= MAX_DISTANCE_MILLI,
    ensures
        0 <= spec_blend(raw_milli, prior_milli) <= MAX_DISTANCE_MILLI,
{
    lemma_div_is_ordered(
        2 * raw_milli + prior_milli,
        3 * (MAX_DISTANCE_MILLI as int),
        3,
    );
    lemma_div_multiples_vanish(MAX_DISTANCE_MILLI as int, 3);
}

} // verus!
