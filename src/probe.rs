use vstd::prelude::*;
use crate::error::EngineError;

verus! {

/// How a single timing sample was classified.
#[derive(Debug, Clone, Copy, PartialEq, Eq, Structural)]
pub enum SampleClass {
    /// At or below the fast limit: the location was recently touched.
    Fast,
    /// At or above the slow limit: the location was cold.
    Slow,
    /// Between the two limits: excluded from voting.
    Ambiguous,
}

/// Calibrated latency limits.
///
/// A sample of at most `fast_max` cycles is fast; otherwise one of at least
/// `slow_min` cycles is slow; anything in between lies in the ambiguous band.
/// When `slow_min <= fast_max + 1` the band is empty.
#[derive(Debug, Clone, Copy, PartialEq, Eq, Structural)]
pub struct Thresholds {
    pub fast_max: u64,
    pub slow_min: u64,
}

/// One timing measurement of a location, with its classification.
#[derive(Debug, Clone, Copy, PartialEq, Eq, Structural)]
pub struct TimingSample {
    pub location: usize,
    pub cycles: u64,
    pub class: SampleClass,
}

/// Classification of `cycles` against `t`.
pub open spec fn classify_spec(t: Thresholds, cycles: u64) -> SampleClass {
    if cycles <= t.fast_max {
        SampleClass::Fast
    } else if cycles >= t.slow_min {
        SampleClass::Slow
    } else {
        SampleClass::Ambiguous
    }
}

/// Sum of the samples of `s`.
pub open spec fn seq_sum(s: Seq<u64>) -> int
    decreases s.len(),
{
    if s.len() == 0 {
        0
    } else {
        seq_sum(s.drop_last()) + s.last()
    }
}

/// Mean of a non-empty sequence of samples, rounded down.
pub open spec fn mean(s: Seq<u64>) -> int {
    seq_sum(s) / (s.len() as int)
}

/// The limits that calibration derives from the centres `a` and `b` of the
/// two measured distributions.
///
/// The boundary lies between the two centres; the ambiguous band is the
/// middle half of the gap between them, so a quarter of the gap on each side
/// of the centres classifies firmly. The band is empty only where the centres
/// are less than two apart.
pub open spec fn thresholds_from(a: int, b: int) -> Thresholds {
    let lo = if a <= b { a } else { b };
    let hi = if a <= b { b } else { a };
    let q = (hi - lo) / 4;
    Thresholds { fast_max: (lo + q) as u64, slow_min: (hi - q) as u64 }
}

/// The thresholds calibrated from known-fast samples `fast` and known-slow
/// samples `slow`, both non-empty: set between the means of the two.
pub open spec fn calibrate_spec(fast: Seq<u64>, slow: Seq<u64>) -> Thresholds {
    thresholds_from(mean(fast), mean(slow))
}

/// Distance between two readings.
pub open spec fn gap(a: u64, b: u64) -> int {
    if a >= b { a - b } else { b - a }
}

/// Whether `live` has moved away from `base` by more than `tolerance` in
/// either limit.
pub open spec fn drift_spec(base: Thresholds, live: Thresholds, tolerance: u64) -> bool {
    gap(base.fast_max, live.fast_max) > tolerance || gap(base.slow_min, live.slow_min) > tolerance
}

proof fn lemma_sum_bounds(s: Seq<u64>)
    ensures
        0 <= seq_sum(s) <= s.len() * (u64::MAX as int),
    decreases s.len(),
{
    if s.len() > 0 {
        lemma_sum_bounds(s.drop_last());
    }
}

proof fn lemma_mean_bounds(s: Seq<u64>)
    requires
        s.len() > 0,
    ensures
        0 <= mean(s) <= u64::MAX,
{
    lemma_sum_bounds(s);
    let n = s.len() as int;
    let t = seq_sum(s);
    assert(0 <= t / n <= u64::MAX) by (nonlinear_arith)
        requires
            n > 0,
            0 <= t <= n * (u64::MAX as int),
    {
        assert(t / n <= (n * (u64::MAX as int)) / n);
        assert((n * (u64::MAX as int)) / n == u64::MAX as int);
    }
}

/// Classifies an elapsed cycle count against `t`.
pub fn classify(t: &Thresholds, cycles: u64) -> (r: SampleClass)
    ensures
        r == classify_spec(*t, cycles),
{
    if cycles <= t.fast_max {
        SampleClass::Fast
    } else if cycles >= t.slow_min {
        SampleClass::Slow
    } else {
        SampleClass::Ambiguous
    }
}

fn mean_of(v: &Vec<u64>) -> (r: u64)
    requires
        v@.len() > 0,
    ensures
        r == mean(v@),
{
    let mut acc: u128 = 0;
    let mut k: usize = 0;
    while k < v.len()
        invariant
            k <= v@.len(),
            acc == seq_sum(v@.subrange(0, k as int)),
            acc <= k * (u64::MAX as int),
        decreases v@.len() - k,
    {
        assert(v@.subrange(0, k as int + 1).drop_last() == v@.subrange(0, k as int));
        assert((k + 1) * (u64::MAX as int) <= u128::MAX) by (nonlinear_arith)
            requires
                k < usize::MAX,
        ;
        assert(k * (u64::MAX as int) + (u64::MAX as int) == (k + 1) * (u64::MAX as int)) by (nonlinear_arith);
        acc = acc + v[k] as u128;
        k = k + 1;
    }
    assert(v@.subrange(0, v@.len() as int) == v@);
    proof {
        lemma_mean_bounds(v@);
    }
    (acc / (v.len() as u128)) as u64
}

/// Computes classification limits from a warm-up of known-fast and
/// known-slow latency measurements.
///
/// Fails with `InvalidParameter` exactly when either set of measurements is
/// empty.
pub fn calibrate(fast: &Vec<u64>, slow: &Vec<u64>) -> (r: Result<Thresholds, EngineError>)
    ensures
        (fast@.len() == 0 || slow@.len() == 0) <==> r is Err,
        r is Err ==> r == Err::<Thresholds, EngineError>(EngineError::InvalidParameter),
        r is Ok ==> r->Ok_0 == calibrate_spec(fast@, slow@),
{
    if fast.len() == 0 || slow.len() == 0 {
        return Err(EngineError::InvalidParameter);
    }
    let a = mean_of(fast);
    let b = mean_of(slow);
    let (lo, hi) = if a <= b { (a, b) } else { (b, a) };
    let q = (hi - lo) / 4;
    Ok(Thresholds { fast_max: lo + q, slow_min: hi - q })
}

/// Calibration splits the two measured distributions: where the known-fast
/// measurements have the lower mean, the fast limit lies at or above that
/// mean and the slow limit at or below the other, so every latency up to the
/// fast mean classifies as fast and every latency from the slow mean up as
/// slow; and where the means are at least two apart, a non-empty ambiguous
/// band separates the two. Re-calibrating after noise has shifted a
/// distribution therefore classifies the latencies typical of each side,
/// including those that fell in the old ambiguous band, as that side.
pub proof fn lemma_calibration_splits_means(fast: Seq<u64>, slow: Seq<u64>)
    requires
        fast.len() > 0,
        slow.len() > 0,
        mean(fast) < mean(slow),
    ensures
        mean(fast) <= calibrate_spec(fast, slow).fast_max,
        calibrate_spec(fast, slow).fast_max < calibrate_spec(fast, slow).slow_min,
        calibrate_spec(fast, slow).slow_min <= mean(slow),
        mean(slow) - mean(fast) >= 2 ==> calibrate_spec(fast, slow).fast_max + 1 < calibrate_spec(fast, slow).slow_min,
        forall|e: u64| e <= mean(fast) ==> #[trigger] classify_spec(calibrate_spec(fast, slow), e) == SampleClass::Fast,
        forall|e: u64| e >= mean(slow) ==> #[trigger] classify_spec(calibrate_spec(fast, slow), e) == SampleClass::Slow,
{
    lemma_mean_bounds(fast);
    lemma_mean_bounds(slow);
}

/// The timing probe: the current classification limits and the tolerance
/// beyond which live measurements count as drift.
pub struct QuantumTelepath {
    thresholds: Thresholds,
    tolerance: u64,
}

impl QuantumTelepath {
    /// The current limits.
    pub closed spec fn limits(&self) -> Thresholds {
        self.thresholds
    }

    /// The drift tolerance.
    pub closed spec fn drift_tolerance(&self) -> u64 {
        self.tolerance
    }

    /// A probe with the given limits and drift tolerance.
    pub fn new(thresholds: Thresholds, tolerance: u64) -> (r: QuantumTelepath)
        ensures
            r.limits() == thresholds,
            r.drift_tolerance() == tolerance,
    {
        QuantumTelepath { thresholds, tolerance }
    }

    /// A copy of the current limits.
    pub fn thresholds(&self) -> (r: Thresholds)
        ensures
            r == self.limits(),
    {
        self.thresholds
    }

    /// Re-runs calibration and, on success, replaces the limits with the
    /// result. On failure the probe is left as it was.
    pub fn calibrate(&mut self, fast: &Vec<u64>, slow: &Vec<u64>) -> (r: Result<Thresholds, EngineError>)
        ensures
            (fast@.len() == 0 || slow@.len() == 0) <==> r is Err,
            r is Err ==> r == Err::<Thresholds, EngineError>(EngineError::InvalidParameter)
                && final(self).limits() == old(self).limits(),
            r is Ok ==> r->Ok_0 == calibrate_spec(fast@, slow@) && final(self).limits() == r->Ok_0,
            final(self).drift_tolerance() == old(self).drift_tolerance(),
    {
        let r = calibrate(fast, slow);
        if let Ok(t) = r {
            self.thresholds = t;
        }
        r
    }

    /// Classifies a measurement of `cycles` taken at `location`.
    pub fn measure(&self, location: usize, cycles: u64) -> (r: TimingSample)
        ensures
            r.location == location,
            r.cycles == cycles,
            r.class == classify_spec(self.limits(), cycles),
    {
        TimingSample { location, cycles, class: classify(&self.thresholds, cycles) }
    }

    /// Whether `live` limits have drifted from the current ones by more than
    /// the tolerance.
    pub fn drifted(&self, live: &Thresholds) -> (r: bool)
        ensures
            r == drift_spec(self.limits(), *live, self.drift_tolerance()),
    {
        let df = if self.thresholds.fast_max >= live.fast_max {
            self.thresholds.fast_max - live.fast_max
        } else {
            live.fast_max - self.thresholds.fast_max
        };
        let ds = if self.thresholds.slow_min >= live.slow_min {
            self.thresholds.slow_min - live.slow_min
        } else {
            live.slow_min - self.thresholds.slow_min
        };
        df > self.tolerance || ds > self.tolerance
    }

    /// Sanity check against drift: calibrates on live measurements and, where
    /// the result has drifted beyond the tolerance, adopts it.
    ///
    /// Returns `Ok(true)` when a re-calibration took place (a warning for the
    /// caller), `Ok(false)` when the limits still hold, and `InvalidParameter`
    /// exactly when either set of measurements is empty.
    pub fn check_drift(&mut self, fast: &Vec<u64>, slow: &Vec<u64>) -> (r: Result<bool, EngineError>)
        ensures
            (fast@.len() == 0 || slow@.len() == 0) <==> r is Err,
            r is Err ==> r == Err::<bool, EngineError>(EngineError::InvalidParameter),
            final(self).drift_tolerance() == old(self).drift_tolerance(),
            r is Ok ==> r->Ok_0 == drift_spec(old(self).limits(), calibrate_spec(fast@, slow@), old(self).drift_tolerance()),
            r == Ok::<bool, EngineError>(true) ==> final(self).limits() == calibrate_spec(fast@, slow@),
            r != Ok::<bool, EngineError>(true) ==> final(self).limits() == old(self).limits(),
    {
        match calibrate(fast, slow) {
            Err(e) => Err(e),
            Ok(live) => {
                if self.drifted(&live) {
                    self.thresholds = live;
                    Ok(true)
                } else {
                    Ok(false)
                }
            },
        }
    }
}

} // verus!
