use inference_engine::{
    calibrate, classify, CandidateEvent, CandidateStatus, Directive, EngineError, MetaPrimitive, Outcome,
    QuantumTelepath, RealityDistortionEngine, SampleClass, Scored, SystemPsyche, TelepathicCapabilityExtractor, Thresholds,
    GRID_CELLS, GRID_SIDE,
};

fn limits(fast_max: u64, slow_min: u64) -> Thresholds {
    Thresholds { fast_max, slow_min }
}

/// A deterministic stand-in for a noisy timer.
struct MockTimer {
    state: u64,
}

impl MockTimer {
    fn next(&mut self) -> u64 {
        self.state = self.state.wrapping_mul(6364136223846793005).wrapping_add(1442695040888963407);
        self.state >> 33
    }

    /// A latency for a recently written cell: usually fast, sometimes noisy.
    fn hot(&mut self) -> u64 {
        let r = self.next() % 100;
        if r < 75 {
            40 + r % 20
        } else if r < 90 {
            120 + r
        } else {
            300 + r
        }
    }

    /// A latency for a cold cell: usually slow.
    fn cold(&mut self) -> u64 {
        let r = self.next() % 100;
        if r < 85 {
            300 + r
        } else {
            40 + r % 20
        }
    }
}

fn footprint(samples: usize, fill: impl Fn(usize, usize) -> u64) -> Vec<Vec<u64>> {
    (0..GRID_CELLS).map(|c| (0..samples).map(|k| fill(c, k)).collect()).collect()
}

#[test]
fn write_then_read_returns_value() {
    let mut m = SystemPsyche::new();
    for i in 0..GRID_SIDE {
        for j in 0..GRID_SIDE {
            let v = (i as u128) << 100 | (j as u128) << 3 | 5;
            m.write(i, j, v);
            assert_eq!(m.read(i, j), v);
        }
    }
}

#[test]
fn write_leaves_other_cells() {
    let mut m = SystemPsyche::new();
    m.write(3, 4, u128::MAX);
    assert_eq!(m.read(3, 4), u128::MAX);
    assert_eq!(m.read(4, 3), 0);
    let all = m.read_all();
    assert_eq!(all.len(), 64);
    assert_eq!(all[3 * 8 + 4], u128::MAX);
    assert_eq!(all.iter().filter(|v| **v == 0).count(), 63);
}

#[test]
fn zero_sample_count_is_invalid() {
    let reader = TelepathicCapabilityExtractor::new(limits(100, 200));
    let r = reader.extract_capabilities_silent(0, &footprint(0, |_, _| 0));
    assert!(matches!(r, Err(EngineError::InvalidParameter)));
    let r = reader.extract_capabilities_silent(0, &footprint(8, |_, _| 50));
    assert!(matches!(r, Err(EngineError::InvalidParameter)));
}

#[test]
fn footprint_of_wrong_shape_is_invalid() {
    let reader = TelepathicCapabilityExtractor::new(limits(100, 200));
    let mut fp = footprint(8, |_, _| 50);
    fp[10].pop();
    assert!(matches!(reader.extract_capabilities_silent(8, &fp), Err(EngineError::InvalidParameter)));
    let mut fp = footprint(8, |_, _| 50);
    fp.pop();
    assert!(matches!(reader.extract_capabilities_silent(8, &fp), Err(EngineError::InvalidParameter)));
}

#[test]
fn vote_counts_each_cell() {
    let reader = TelepathicCapabilityExtractor::new(limits(100, 200));
    // Cell 0: 6 fast, 2 slow. Cell 1: 2 fast, 6 slow. Cell 2: 4 and 4.
    // Cell 3: 5 ambiguous out of 8. Others: all slow.
    let fp = footprint(8, |c, k| match c {
        0 => if k < 6 { 50 } else { 250 },
        1 => if k < 2 { 50 } else { 250 },
        2 => if k < 4 { 50 } else { 250 },
        3 => if k < 5 { 150 } else { 50 },
        _ => 900,
    });
    let snap = reader.extract_capabilities_silent(8, &fp).unwrap();
    assert_eq!(snap.cells.len(), 64);
    let c0 = snap.cells[0];
    assert_eq!((c0.state, c0.majority, c0.valid), (MetaPrimitive::RecentlyWritten, 6, 8));
    let c1 = snap.cells[1];
    assert_eq!((c1.state, c1.majority, c1.valid), (MetaPrimitive::Stable, 6, 8));
    let c2 = snap.cells[2];
    assert_eq!((c2.state, c2.majority, c2.valid), (MetaPrimitive::Unknown, 4, 8));
    let c3 = snap.cells[3];
    assert_eq!((c3.state, c3.majority, c3.valid), (MetaPrimitive::Unknown, 3, 3));
    let c9 = snap.cells[9];
    assert_eq!((c9.state, c9.majority, c9.valid), (MetaPrimitive::Stable, 8, 8));
}

#[test]
fn recently_written_cell_is_detected_under_noise() {
    let reader = TelepathicCapabilityExtractor::new(limits(100, 200));
    let mut timer = MockTimer { state: 7 };
    let trials = 200;
    let mut detected = 0;
    for _ in 0..trials {
        let fp: Vec<Vec<u64>> = (0..GRID_CELLS)
            .map(|c| (0..8).map(|_| if c == 0 { timer.hot() } else { timer.cold() }).collect())
            .collect();
        let snap = reader.extract_capabilities_silent(8, &fp).unwrap();
        let c0 = snap.cells[0];
        if c0.state == MetaPrimitive::RecentlyWritten && 2 * c0.majority > c0.valid {
            detected += 1;
        }
    }
    assert!(detected * 100 >= trials * 95, "detected {} of {}", detected, trials);
}

#[test]
fn classify_against_limits() {
    let t = limits(100, 200);
    assert_eq!(classify(&t, 0), SampleClass::Fast);
    assert_eq!(classify(&t, 100), SampleClass::Fast);
    assert_eq!(classify(&t, 101), SampleClass::Ambiguous);
    assert_eq!(classify(&t, 199), SampleClass::Ambiguous);
    assert_eq!(classify(&t, 200), SampleClass::Slow);
    assert_eq!(classify(&t, u64::MAX), SampleClass::Slow);
}

#[test]
fn calibrate_between_means() {
    // Means 38 and 260: a quarter of the gap of 222 is 55.
    assert_eq!(calibrate(&vec![30, 45, 40], &vec![300, 220, 260]), Ok(limits(93, 205)));
    // Overlapping distributions, means 50 and 60: the limits stay between
    // the means and the band between them is not empty.
    let t = calibrate(&vec![0, 100], &vec![60]).unwrap();
    assert_eq!(t, limits(52, 58));
    assert_eq!(classify(&t, 50), SampleClass::Fast);
    assert_eq!(classify(&t, 55), SampleClass::Ambiguous);
    assert_eq!(classify(&t, 60), SampleClass::Slow);
    // Means one apart: no room for a band.
    assert_eq!(calibrate(&vec![10], &vec![11]), Ok(limits(10, 11)));
    // Extreme values do not overflow.
    let q = u64::MAX / 4;
    assert_eq!(calibrate(&vec![0, 0], &vec![u64::MAX, u64::MAX]), Ok(limits(q, u64::MAX - q)));
}

#[test]
fn calibrate_needs_both_sets() {
    assert_eq!(calibrate(&vec![], &vec![300]), Err(EngineError::InvalidParameter));
    assert_eq!(calibrate(&vec![30], &vec![]), Err(EngineError::InvalidParameter));
    let mut probe = QuantumTelepath::new(limits(100, 200), 10);
    assert_eq!(probe.calibrate(&vec![], &vec![]), Err(EngineError::InvalidParameter));
    assert_eq!(probe.thresholds(), limits(100, 200));
}

#[test]
fn recalibration_after_noise_resolves_ambiguous_samples() {
    let mut probe = QuantumTelepath::new(limits(0, 0), 10);
    // Means 50 and 450: limits 150 and 350.
    probe.calibrate(&vec![40, 50, 60], &vec![400, 500]).unwrap();
    assert_eq!(probe.measure(7, 250).class, SampleClass::Ambiguous);
    assert_eq!(probe.measure(7, 300).class, SampleClass::Ambiguous);
    // Noise brings the slow latencies down to a mean of 260: limits 102 and 208.
    let t = probe.calibrate(&vec![40, 50, 60], &vec![250, 260, 270]).unwrap();
    assert_eq!(t, limits(102, 208));
    let s = probe.measure(7, 250);
    assert_eq!((s.location, s.cycles, s.class), (7, 250, SampleClass::Slow));
    assert_eq!(probe.measure(7, 300).class, SampleClass::Slow);
    assert_eq!(probe.measure(7, 55).class, SampleClass::Fast);
    assert_eq!(probe.measure(7, 150).class, SampleClass::Ambiguous);
}

#[test]
fn drift_forces_recalibration() {
    let mut probe = QuantumTelepath::new(limits(145, 315), 20);
    assert!(!probe.drifted(&limits(155, 305)));
    assert!(probe.drifted(&limits(166, 315)));
    assert!(probe.drifted(&limits(145, 294)));
    // Means 60 and 400 give the current limits.
    assert_eq!(probe.check_drift(&vec![50, 70], &vec![390, 410]), Ok(false));
    assert_eq!(probe.thresholds(), limits(145, 315));
    // Means 110 and 505: limits 208 and 407.
    assert_eq!(probe.check_drift(&vec![100, 120], &vec![600, 410]), Ok(true));
    assert_eq!(probe.thresholds(), limits(208, 407));
    assert_eq!(probe.check_drift(&vec![], &vec![600]), Err(EngineError::InvalidParameter));
}

#[test]
fn reader_adopts_probe_limits() {
    let probe = QuantumTelepath::new(limits(100, 200), 10);
    let mut reader = TelepathicCapabilityExtractor::new(limits(10, 20));
    let fp = footprint(8, |_, _| 50);
    let before = reader.extract_capabilities_silent(8, &fp).unwrap();
    assert_eq!(before.cells[0].state, MetaPrimitive::Stable);
    reader.adopt_limits(&probe);
    let after = reader.extract_capabilities_silent(8, &fp).unwrap();
    assert_eq!(after.cells[0].state, MetaPrimitive::RecentlyWritten);
}

#[test]
fn drift_is_recalibrated_before_the_vote() {
    let mut probe = QuantumTelepath::new(limits(145, 315), 20);
    let mut reader = TelepathicCapabilityExtractor::new(limits(145, 315));
    // 180 is ambiguous under the old limits.
    let fp = footprint(8, |c, _| if c == 0 { 180 } else { 900 });
    let steady = reader.infer_with_drift_check(&mut probe, &vec![50, 70], &vec![390, 410], 8, &fp).unwrap();
    assert!(!steady.drifted);
    assert_eq!(steady.snapshot.cells[0].state, MetaPrimitive::Unknown);
    // Latencies have grown: means 200 and 1000, limits 400 and 800.
    let moved = reader.infer_with_drift_check(&mut probe, &vec![190, 210], &vec![1000], 8, &fp).unwrap();
    assert!(moved.drifted);
    assert_eq!(probe.thresholds(), limits(400, 800));
    let c0 = moved.snapshot.cells[0];
    assert_eq!((c0.state, c0.majority, c0.valid), (MetaPrimitive::RecentlyWritten, 8, 8));
    assert_eq!(moved.snapshot.cells[1].state, MetaPrimitive::Stable);
}

#[test]
fn drift_check_rejects_bad_input_without_change() {
    let mut probe = QuantumTelepath::new(limits(145, 315), 20);
    let mut reader = TelepathicCapabilityExtractor::new(limits(145, 315));
    let fp = footprint(8, |_, _| 50);
    let r = reader.infer_with_drift_check(&mut probe, &vec![], &vec![1000], 8, &fp);
    assert!(matches!(r, Err(EngineError::InvalidParameter)));
    let r = reader.infer_with_drift_check(&mut probe, &vec![190, 210], &vec![1000], 0, &fp);
    assert!(matches!(r, Err(EngineError::InvalidParameter)));
    assert_eq!(probe.thresholds(), limits(145, 315));
}

fn completed(candidate: usize, score: i64) -> CandidateEvent<String> {
    CandidateEvent::Completed { candidate, score, output: format!("path {}", candidate) }
}

#[test]
fn zero_candidates_is_invalid() {
    assert!(matches!(RealityDistortionEngine::new(0), Err(EngineError::InvalidParameter)));
}

#[test]
fn equal_best_scores_go_to_lower_id() {
    let engine = RealityDistortionEngine::new(3).unwrap();
    let out = engine.explore(vec![completed(1, 10), completed(2, 20), completed(0, 20)]);
    match out {
        Outcome::Selected(s) => {
            assert_eq!(s.winner, 0);
            assert_eq!(s.score, 20);
            assert_eq!(s.output, "path 0");
        }
        Outcome::AllFailed => panic!("expected a winner"),
    }
}

#[test]
fn highest_score_wins() {
    let engine = RealityDistortionEngine::new(4).unwrap();
    let out = engine.explore(vec![
        completed(3, 5),
        CandidateEvent::Failed { candidate: 1 },
        completed(0, -3),
        completed(2, 7),
    ]);
    assert!(matches!(out, Outcome::Selected(s) if s.winner == 2 && s.score == 7 && s.output == "path 2"));
}

#[test]
fn every_candidate_failing_is_all_failed() {
    let engine = RealityDistortionEngine::new(3).unwrap();
    let out = engine.explore(vec![
        CandidateEvent::<String>::Failed { candidate: 2 },
        CandidateEvent::Failed { candidate: 0 },
        CandidateEvent::Failed { candidate: 1 },
    ]);
    assert!(matches!(out, Outcome::AllFailed));
}

#[test]
fn timeout_with_none_completed_is_all_failed() {
    let engine = RealityDistortionEngine::new(2).unwrap();
    let mut bubble = engine.create_distortion::<String>();
    assert_eq!(engine.execute_in_distortion(&mut bubble, CandidateEvent::Failed { candidate: 1 }), Directive::Continue);
    assert_eq!(engine.execute_in_distortion(&mut bubble, CandidateEvent::TimedOut), Directive::CancelRemaining);
    assert_eq!(bubble.status(0), CandidateStatus::Cancelled);
    assert_eq!(bubble.status(1), CandidateStatus::Failed);
    assert!(bubble.is_closed());
    assert!(matches!(bubble.into_outcome(), Outcome::AllFailed));
}

#[test]
fn early_stop_cancels_remaining_candidates() {
    let engine = RealityDistortionEngine::new(3).unwrap().early_stop_on_score(15);
    let mut bubble = engine.create_distortion();
    assert_eq!(bubble.candidate_count(), 3);
    assert_eq!(engine.execute_in_distortion(&mut bubble, completed(2, 20)), Directive::CancelRemaining);
    assert_eq!(bubble.status(0), CandidateStatus::Cancelled);
    assert_eq!(bubble.status(1), CandidateStatus::Cancelled);
    assert_eq!(bubble.status(2), CandidateStatus::Completed { score: 20 });
    // A late report of a cancelled candidate is never read.
    assert_eq!(engine.execute_in_distortion(&mut bubble, completed(0, 99)), Directive::Finish);
    assert_eq!(bubble.status(0), CandidateStatus::Cancelled);
    assert!(matches!(bubble.into_outcome(), Outcome::Selected(s) if s.winner == 2 && s.score == 20));
}

#[test]
fn below_threshold_keeps_running() {
    let engine = RealityDistortionEngine::new(2).unwrap().early_stop_on_score(15);
    let mut bubble = engine.create_distortion();
    assert_eq!(engine.execute_in_distortion(&mut bubble, completed(1, 14)), Directive::Continue);
    assert_eq!(bubble.status(0), CandidateStatus::Running);
    // Repeated or unknown reports are ignored.
    assert_eq!(engine.execute_in_distortion(&mut bubble, completed(1, 50)), Directive::Continue);
    assert_eq!(engine.execute_in_distortion(&mut bubble, completed(7, 50)), Directive::Continue);
    assert_eq!(engine.execute_in_distortion(&mut bubble, CandidateEvent::Failed { candidate: 0 }), Directive::Finish);
    assert!(matches!(bubble.into_outcome(), Outcome::Selected(s) if s.winner == 1 && s.score == 14));
}

fn ids_and_scores(v: &[Scored<String>]) -> Vec<(usize, i64, String)> {
    v.iter().map(|s| (s.candidate, s.score, s.output.clone())).collect()
}

#[test]
fn rejected_outputs_kept_only_on_request() {
    let events = || vec![completed(1, 10), completed(2, 20), completed(0, 20), completed(3, 5)];
    let plain = RealityDistortionEngine::new(4).unwrap();
    match plain.explore(events()) {
        Outcome::Selected(s) => assert!(s.rejected.is_empty()),
        Outcome::AllFailed => panic!("expected a winner"),
    }
    let keeping = RealityDistortionEngine::new(4).unwrap().keep_rejected();
    match keeping.explore(events()) {
        Outcome::Selected(s) => {
            assert_eq!(s.winner, 0);
            assert_eq!(
                ids_and_scores(&s.rejected),
                vec![(1, 10, "path 1".to_string()), (2, 20, "path 2".to_string()), (3, 5, "path 3".to_string())]
            );
        }
        Outcome::AllFailed => panic!("expected a winner"),
    }
}
