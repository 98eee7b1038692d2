use vstd::prelude::*;
use crate::error::EngineError;
use crate::probe::{calibrate_spec, classify, classify_spec, drift_spec, QuantumTelepath, SampleClass, Thresholds};

verus! {

/// What the vote over a cell's timing samples says of that cell.
#[derive(Debug, Clone, Copy, PartialEq, Eq, Structural)]
pub enum MetaPrimitive {
    /// Most valid samples were fast: the cell was recently written.
    RecentlyWritten,
    /// Most valid samples were slow: the cell is stable, or cold.
    Stable,
    /// The votes were split, or most samples were ambiguous.
    Unknown,
}

/// A best-effort estimate of one cell. Its confidence is
/// `majority / valid`, where `valid` counts the fast and slow samples and
/// `majority` the larger of the two counts.
#[derive(Debug, Clone, Copy, PartialEq, Eq, Structural)]
pub struct CellEstimate {
    pub state: MetaPrimitive,
    pub majority: usize,
    pub valid: usize,
}

/// An approximate snapshot of the grid, one estimate per cell in row-major
/// order. It is not equivalent to a synchronized read of the grid.
pub struct InferredSnapshot {
    pub cells: Vec<CellEstimate>,
}

/// Number of samples of `s` that classify as `c` against `t`.
pub open spec fn count_class(t: Thresholds, s: Seq<u64>, c: SampleClass) -> nat
    decreases s.len(),
{
    if s.len() == 0 {
        0
    } else {
        count_class(t, s.drop_last(), c) + if classify_spec(t, s.last()) == c { 1nat } else { 0nat }
    }
}

/// The estimate of a cell from its samples `s`: unknown where more than half
/// of the samples are ambiguous or the fast and slow votes tie, else the
/// class of the majority, with its count.
pub open spec fn estimate_spec(t: Thresholds, s: Seq<u64>) -> CellEstimate {
    let f = count_class(t, s, SampleClass::Fast);
    let w = count_class(t, s, SampleClass::Slow);
    let a = count_class(t, s, SampleClass::Ambiguous);
    let state = if 2 * a > s.len() || f == w {
        MetaPrimitive::Unknown
    } else if f > w {
        MetaPrimitive::RecentlyWritten
    } else {
        MetaPrimitive::Stable
    };
    CellEstimate {
        state,
        majority: (if f >= w { f } else { w }) as usize,
        valid: (f + w) as usize,
    }
}

/// Whether `footprint` holds, for each of the 64 cells, exactly
/// `sample_count` samples, with `sample_count` at least one.
pub open spec fn footprint_ok(sample_count: usize, footprint: Seq<Vec<u64>>) -> bool {
    &&& sample_count > 0
    &&& footprint.len() == 64
    &&& forall|k: int| 0 <= k < 64 ==> (#[trigger] footprint[k])@.len() == sample_count
}

proof fn lemma_count_total(t: Thresholds, s: Seq<u64>)
    ensures
        count_class(t, s, SampleClass::Fast) + count_class(t, s, SampleClass::Slow)
            + count_class(t, s, SampleClass::Ambiguous) == s.len(),
    decreases s.len(),
{
    if s.len() > 0 {
        lemma_count_total(t, s.drop_last());
    }
}

/// Where more than half of a cell's samples are fast, the cell is estimated
/// as recently written, with a confidence above one half.
pub proof fn lemma_fast_majority_detected(t: Thresholds, s: Seq<u64>)
    requires
        2 * count_class(t, s, SampleClass::Fast) > s.len(),
        s.len() <= usize::MAX,
    ensures
        estimate_spec(t, s).state == MetaPrimitive::RecentlyWritten,
        2 * estimate_spec(t, s).majority > estimate_spec(t, s).valid,
{
    lemma_count_total(t, s);
}

/// Whether `footprint` holds `sample_count` samples for each of the 64
/// cells, with `sample_count` at least one.
fn footprint_shape_ok(sample_count: usize, footprint: &Vec<Vec<u64>>) -> (r: bool)
    ensures
        r == footprint_ok(sample_count, footprint@),
{
    if sample_count == 0 || footprint.len() != 64 {
        return false;
    }
    let mut k: usize = 0;
    while k < footprint.len()
        invariant
            k <= footprint@.len() == 64,
            forall|m: int| 0 <= m < k ==> (#[trigger] footprint@[m])@.len() == sample_count,
        decreases 64 - k,
    {
        if footprint[k].len() != sample_count {
            assert(footprint@[k as int]@.len() != sample_count);
            return false;
        }
        k = k + 1;
    }
    true
}

/// Counts the classes of the samples and takes the vote.
fn estimate(t: &Thresholds, samples: &Vec<u64>) -> (r: CellEstimate)
    ensures
        r == estimate_spec(*t, samples@),
{
    let mut f: usize = 0;
    let mut w: usize = 0;
    let mut a: usize = 0;
    let mut k: usize = 0;
    while k < samples.len()
        invariant
            k <= samples@.len(),
            f == count_class(*t, samples@.subrange(0, k as int), SampleClass::Fast),
            w == count_class(*t, samples@.subrange(0, k as int), SampleClass::Slow),
            a == count_class(*t, samples@.subrange(0, k as int), SampleClass::Ambiguous),
        decreases samples@.len() - k,
    {
        let ghost pre = samples@.subrange(0, k as int);
        let ghost next = samples@.subrange(0, k as int + 1);
        assert(next.drop_last() == pre);
        proof {
            lemma_count_total(*t, pre);
        }
        match classify(t, samples[k]) {
            SampleClass::Fast => { f = f + 1; },
            SampleClass::Slow => { w = w + 1; },
            SampleClass::Ambiguous => { a = a + 1; },
        }
        k = k + 1;
    }
    assert(samples@.subrange(0, samples@.len() as int) == samples@);
    proof {
        lemma_count_total(*t, samples@);
    }
    let state = if a > samples.len() - a || f == w {
        MetaPrimitive::Unknown
    } else if f > w {
        MetaPrimitive::RecentlyWritten
    } else {
        MetaPrimitive::Stable
    };
    CellEstimate { state, majority: if f >= w { f } else { w }, valid: f + w }
}

/// A snapshot voted after a drift check, with the drift warning.
pub struct CheckedSnapshot {
    pub snapshot: InferredSnapshot,
    /// The limits had drifted and were re-calibrated before the vote.
    pub drifted: bool,
}

/// The covert inference reader: reconstructs an approximate snapshot of the
/// grid from timing samples of its cells, classified against fixed limits.
pub struct TelepathicCapabilityExtractor {
    thresholds: Thresholds,
}

impl TelepathicCapabilityExtractor {
    /// The limits the samples are classified against.
    pub closed spec fn limits(&self) -> Thresholds {
        self.thresholds
    }

    /// A reader that classifies samples against `thresholds`.
    pub fn new(thresholds: Thresholds) -> (r: TelepathicCapabilityExtractor)
        ensures
            r.limits() == thresholds,
    {
        TelepathicCapabilityExtractor { thresholds }
    }

    /// Infers the state of every cell from `footprint`, which holds
    /// `sample_count` timing samples for each cell in row-major order.
    ///
    /// Fails with `InvalidParameter` exactly when `sample_count` is zero or
    /// the footprint does not hold `sample_count` samples for each of the 64
    /// cells; a zero count is never replaced by a default. Otherwise cell `k`
    /// of the snapshot is the vote over the samples of cell `k`.
    pub fn extract_capabilities_silent(&self, sample_count: usize, footprint: &Vec<Vec<u64>>) -> (r: Result<InferredSnapshot, EngineError>)
        ensures
            r is Err <==> !footprint_ok(sample_count, footprint@),
            sample_count == 0 ==> r is Err,
            r is Err ==> r matches Err(EngineError::InvalidParameter),
            r is Ok ==> r->Ok_0.cells@.len() == 64,
            r is Ok ==> forall|k: int| 0 <= k < 64 ==>
                (#[trigger] r->Ok_0.cells@[k]) == estimate_spec(self.limits(), footprint@[k]@),
    {
        if !footprint_shape_ok(sample_count, footprint) {
            return Err(EngineError::InvalidParameter);
        }
        Ok(self.quantum_infer_capabilities(footprint))
    }

    /// Adopts the limits that `probe` currently holds, so that later votes
    /// follow its calibration.
    pub fn adopt_limits(&mut self, probe: &QuantumTelepath)
        ensures
            final(self).limits() == probe.limits(),
    {
        self.thresholds = probe.thresholds();
    }

    /// Infers a snapshot after a drift check: `fast` and `slow` are live
    /// warm-up measurements taken just before the samples in `footprint`.
    ///
    /// Fails with `InvalidParameter`, changing nothing, exactly when a warm-up
    /// set is empty or the footprint is malformed (as for
    /// `extract_capabilities_silent`). Otherwise the probe re-calibrates where
    /// the live limits drifted beyond its tolerance, the reader adopts the
    /// probe's limits, and the cells are voted against them. The flag
    /// `drifted` is the warning that a re-calibration took place.
    pub fn infer_with_drift_check(
        &mut self,
        probe: &mut QuantumTelepath,
        fast: &Vec<u64>,
        slow: &Vec<u64>,
        sample_count: usize,
        footprint: &Vec<Vec<u64>>,
    ) -> (r: Result<CheckedSnapshot, EngineError>)
        ensures
            r is Err <==> (fast@.len() == 0 || slow@.len() == 0 || !footprint_ok(sample_count, footprint@)),
            r is Err ==> (r matches Err(EngineError::InvalidParameter)) && final(probe).limits() == old(probe).limits()
                && final(self).limits() == old(self).limits(),
            final(probe).drift_tolerance() == old(probe).drift_tolerance(),
            r is Ok ==> {
                let d = drift_spec(old(probe).limits(), calibrate_spec(fast@, slow@), old(probe).drift_tolerance());
                &&& r->Ok_0.drifted == d
                &&& final(probe).limits() == (if d { calibrate_spec(fast@, slow@) } else { old(probe).limits() })
                &&& final(self).limits() == final(probe).limits()
                &&& r->Ok_0.snapshot.cells@.len() == 64
                &&& forall|k: int| 0 <= k < 64 ==>
                    (#[trigger] r->Ok_0.snapshot.cells@[k]) == estimate_spec(final(probe).limits(), footprint@[k]@)
            },
    {
        if fast.len() == 0 || slow.len() == 0 || !footprint_shape_ok(sample_count, footprint) {
            return Err(EngineError::InvalidParameter);
        }
        let drifted = match probe.check_drift(fast, slow) {
            Ok(d) => d,
            Err(e) => return Err(e),
        };
        self.adopt_limits(probe);
        let snapshot = self.quantum_infer_capabilities(footprint);
        Ok(CheckedSnapshot { snapshot, drifted })
    }

    /// Takes the vote for each cell, without touching the grid.
    fn quantum_infer_capabilities(&self, footprint: &Vec<Vec<u64>>) -> (r: InferredSnapshot)
        ensures
            r.cells@.len() == footprint@.len(),
            forall|k: int| 0 <= k < footprint@.len() ==>
                (#[trigger] r.cells@[k]) == estimate_spec(self.limits(), footprint@[k]@),
    {
        let mut cells: Vec<CellEstimate> = Vec::new();
        let mut k: usize = 0;
        while k < footprint.len()
            invariant
                k <= footprint@.len(),
                cells@.len() == k,
                forall|m: int| 0 <= m < k ==>
                    (#[trigger] cells@[m]) == estimate_spec(self.thresholds, footprint@[m]@),
            decreases footprint@.len() - k,
        {
            let e = estimate(&self.thresholds, &footprint[k]);
            cells.push(e);
            k = k + 1;
        }
        InferredSnapshot { cells }
    }
}

} // verus!
