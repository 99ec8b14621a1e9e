//! Raw samples, batches and the batch reducer.
//!
//! One loop iteration acquires a fixed-size batch of raw sensor reads. A
//! batch is usable only if every read in it succeeded; a single transport
//! fault discards the whole batch, and no partial average ever reaches the
//! rest of the pipeline. A usable batch is reduced to one averaged
//! measurement in fixed-point milli-units.

use vstd::arithmetic::div_mod::{lemma_div_is_ordered, lemma_div_multiples_vanish};
use vstd::prelude::*;

verus! {

/// Largest possible averaged distance: `u16::MAX` sensor units, in
/// milli-units.
pub const MAX_DISTANCE_MILLI: u64 = 65_535_000;

/// Largest possible averaged temperature: the sensor reports hundredths of a
/// degree in a `u16`, so at most `u16::MAX * 10` milli-degrees.
pub const MAX_TEMPERATURE_MILLI: u64 = 655_350;

/// Largest batch size the reducer accepts; keeps the scaled distance sum
/// comfortably inside a `u64`.
pub const MAX_BATCH: usize = 1_000_000;

/// One successful sensor read: distance in sensor units and temperature in
/// hundredths of a degree, exactly as the device register block reports
/// them.
#[derive(Clone, Copy, PartialEq, Eq, Structural, Debug)]
pub struct RawSample {
    pub distance_raw: u16,
    pub temperature_raw: u16,
}

/// A complete batch of successful reads. Values of this type are only
/// produced by `collect_batch`, which refuses any sequence of attempts that
/// contains a failure.
pub struct Batch {
    pub samples: Vec<RawSample>,
}

/// The average of one valid batch, in milli-units.
#[derive(Clone, Copy, PartialEq, Eq, Structural, Debug)]
pub struct ReducedMeasurement {
    pub distance_milli: u64,
    pub temperature_milli: u64,
}

impl ReducedMeasurement {
    /// Any measurement the reducer can produce lies within the sensor's
    /// representable range.
    pub open spec fn wf(self) -> bool {
        &&& self.distance_milli <= MAX_DISTANCE_MILLI
        &&& self.temperature_milli <= MAX_TEMPERATURE_MILLI
    }
}

/// Decode one 6-byte register block into a raw sample: bytes 0 and 1 are the
/// little-endian distance, bytes 4 and 5 the little-endian temperature in
/// hundredths of a degree. A short block decodes to nothing.
pub fn decode_sample(buf: &Vec<u8>) -> (r: Option<RawSample>)
    ensures
        buf@.len() >= 6 ==> (r matches Some(s)
            && s.distance_raw == buf@[0] + 256 * buf@[1]
            && s.temperature_raw == buf@[4] + 256 * buf@[5]),
        buf@.len() < 6 ==> r is None,
{
    if buf.len() < 6 {
        None
    } else {
        let distance_raw: u16 = buf[0] as u16 + 256 * (buf[1] as u16);
        let temperature_raw: u16 = buf[4] as u16 + 256 * (buf[5] as u16);
        Some(RawSample { distance_raw, temperature_raw })
    }
}

/// Build a batch from the outcomes of a fixed number of read attempts.
/// The batch exists exactly when every attempt succeeded; one failure
/// anywhere discards the cycle (completeness-or-discard).
pub fn collect_batch(attempts: &Vec<Option<RawSample>>) -> (r: Option<Batch>)
    ensures
        (r is Some) <==> (forall|i: int|
            0 <= i < attempts@.len() ==> (#[trigger] attempts@[i]) is Some),
        r matches Some(b) ==> {
            &&& b.samples@.len() == attempts@.len()
            &&& forall|i: int|
                0 <= i < attempts@.len() ==> attempts@[i] == Some(#[trigger] b.samples@[i])
        },
{
    let mut samples: Vec<RawSample> = Vec::new();
    let mut i: usize = 0;
    while i < attempts.len()
        invariant
            i <= attempts@.len(),
            samples@.len() == i,
            forall|j: int| 0 <= j < i ==> attempts@[j] == Some(#[trigger] samples@[j]),
        decreases attempts@.len() - i,
    {
        match attempts[i] {
            Some(s) => {
                samples.push(s);
            },
            None => {
                return None;
            },
        }
        i += 1;
    }
    proof {
        assert forall|j: int| 0 <= j < attempts@.len() implies (#[trigger] attempts@[j]) is Some by {
            assert(attempts@[j] == Some(samples@[j]));
        }
    }
    Some(Batch { samples })
}

/// Sum of the raw distances of a sequence of samples.
pub open spec fn dist_sum(s: Seq<RawSample>) -> int
    decreases s.len(),
{
    if s.len() == 0 {
        0
    } else {
        dist_sum(s.drop_last()) + s.last().distance_raw
    }
}

/// Sum of the raw temperatures of a sequence of samples.
pub open spec fn temp_sum(s: Seq<RawSample>) -> int
    decreases s.len(),
{
    if s.len() == 0 {
        0
    } else {
        temp_sum(s.drop_last()) + s.last().temperature_raw
    }
}

/// Both sums are nonnegative and bounded by the length times the largest
/// raw value.
pub proof fn lemma_sum_bounds(s: Seq<RawSample>)
    ensures
        0 <= dist_sum(s) <= s.len() * 65535,
        0 <= temp_sum(s) <= s.len() * 65535,
    decreases s.len(),
{
    if s.len() > 0 {
        lemma_sum_bounds(s.drop_last());
        assert((s.len() - 1) * 65535 == s.len() * 65535 - 65535) by (nonlinear_arith);
    }
}

/// The average of a non-empty sequence of samples, in milli-units: the
/// distance sum scaled by 1000 (sensor units to milli-units) and the
/// temperature sum by 10 (hundredths of a degree to milli-degrees), each
/// divided by the length.
pub open spec fn spec_reduce(s: Seq<RawSample>) -> ReducedMeasurement {
    ReducedMeasurement {
        distance_milli: (dist_sum(s) * 1000 / (s.len() as int)) as u64,
        temperature_milli: (temp_sum(s) * 10 / (s.len() as int)) as u64,
    }
}

/// Reduce a valid batch to its average, in milli-units: the distance sum is
/// scaled by 1000 (sensor units to milli-units) and the temperature sum by
/// 10 (hundredths of a degree to milli-degrees) before the division.
pub fn reduce(batch: &Batch) -> (m: ReducedMeasurement)
    requires
        1 <= batch.samples@.len() <= MAX_BATCH,
    ensures
        m == spec_reduce(batch.samples@),
        m.distance_milli == dist_sum(batch.samples@) * 1000 / (batch.samples@.len() as int),
        m.temperature_milli == temp_sum(batch.samples@) * 10 / (batch.samples@.len() as int),
        m.wf(),
{
    let n: usize = batch.samples.len();
    let mut dsum: u64 = 0;
    let mut tsum: u64 = 0;
    let mut i: usize = 0;
    while i < n
        invariant
            i <= n,
            n == batch.samples@.len(),
            n <= MAX_BATCH,
            dsum == dist_sum(batch.samples@.take(i as int)),
            tsum == temp_sum(batch.samples@.take(i as int)),
            dsum <= i * 65535,
            tsum <= i * 65535,
        decreases n - i,
    {
        let s = batch.samples[i];
        proof {
            assert(batch.samples@.take(i + 1).drop_last() =~= batch.samples@.take(i as int));
            assert(batch.samples@.take(i + 1).last() == batch.samples@[i as int]);
            assert((i + 1) * 65535 == i * 65535 + 65535) by (nonlinear_arith);
            assert(i * 65535 <= MAX_BATCH * 65535) by (nonlinear_arith)
                requires i <= MAX_BATCH as int;
        }
        dsum = dsum + s.distance_raw as u64;
        tsum = tsum + s.temperature_raw as u64;
        i += 1;
    }
    proof {
        assert(batch.samples@.take(n as int) =~= batch.samples@);
        assert(n * 65535 <= MAX_BATCH * 65535) by (nonlinear_arith)
            requires n <= MAX_BATCH as int;
    }
    let distance_milli: u64 = dsum * 1000 / (n as u64);
    let temperature_milli: u64 = tsum * 10 / (n as u64);
    proof {
        lemma_sum_bounds(batch.samples@);
        assert(dist_sum(batch.samples@) * 1000 <= (n as int) * 65_535_000) by (nonlinear_arith)
            requires dist_sum(batch.samples@) <= (n as int) * 65535;
        assert(temp_sum(batch.samples@) * 10 <= (n as int) * 655_350) by (nonlinear_arith)
            requires temp_sum(batch.samples@) <= (n as int) * 65535;
        lemma_div_is_ordered(dist_sum(batch.samples@) * 1000, (n as int) * 65_535_000, n as int);
        lemma_div_is_ordered(temp_sum(batch.samples@) * 10, (n as int) * 655_350, n as int);
        lemma_div_multiples_vanish(65_535_000, n as int);
        lemma_div_multiples_vanish(655_350, n as int);
    }
    ReducedMeasurement { distance_milli, temperature_milli }
}

/// Reduction of a constant batch is exact: a batch whose every sample reads
/// distance `v` and temperature `w` reduces to exactly `v * 1000`
/// milli-units and `w * 10` milli-degrees, whatever the batch size.
pub proof fn lemma_reduce_constant(s: Seq<RawSample>, v: u16, w: u16)
    requires
        s.len() >= 1,
        forall|i: int| 0 <= i < s.len() ==> (#[trigger] s[i]).distance_raw == v,
        forall|i: int| 0 <= i < s.len() ==> (#[trigger] s[i]).temperature_raw == w,
    ensures
        dist_sum(s) * 1000 / (s.len() as int) == v * 1000,
        temp_sum(s) * 10 / (s.len() as int) == w * 10,
{
    lemma_constant_sums(s, v, w);
    assert(dist_sum(s) * 1000 == (s.len() as int) * (v * 1000)) by (nonlinear_arith)
        requires dist_sum(s) == s.len() * v;
    assert(temp_sum(s) * 10 == (s.len() as int) * (w * 10)) by (nonlinear_arith)
        requires temp_sum(s) == s.len() * w;
    lemma_div_multiples_vanish(v * 1000, s.len() as int);
    lemma_div_multiples_vanish(w * 10, s.len() as int);
}

/// The sums of a constant sequence are the length times the constant.
proof fn lemma_constant_sums(s: Seq<RawSample>, v: u16, w: u16)
    requires
        forall|i: int| 0 <= i < s.len() ==> (#[trigger] s[i]).distance_raw == v,
        forall|i: int| 0 <= i < s.len() ==> (#[trigger] s[i]).temperature_raw == w,
    ensures
        dist_sum(s) == s.len() * v,
        temp_sum(s) == s.len() * w,
    decreases s.len(),
{
    if s.len() > 0 {
        lemma_constant_sums(s.drop_last(), v, w);
        assert((s.len() - 1) * v + v == s.len() * v) by (nonlinear_arith);
        assert((s.len() - 1) * w + w == s.len() * w) by (nonlinear_arith);
    }
}

} // verus!
