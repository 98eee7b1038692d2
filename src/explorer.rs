use vstd::prelude::*;
use crate::error::EngineError;

verus! {

/// Where one candidate of an exploration stands.
#[derive(Debug, Clone, Copy, PartialEq, Eq, Structural)]
pub enum CandidateStatus {
    /// Launched, not yet reported.
    Running,
    /// Completed, and its result was given `score`.
    Completed { score: i64 },
    /// Failed with a local error.
    Failed,
    /// Told to stop before it reported; its output slot is never read.
    Cancelled,
}

/// What the caller observed of the racing candidates.
pub enum CandidateEvent<R> {
    /// Candidate `candidate` completed with `output`, which the scorer ranked
    /// at `score`.
    Completed { candidate: usize, score: i64, output: R },
    /// Candidate `candidate` failed.
    Failed { candidate: usize },
    /// The timeout elapsed.
    TimedOut,
}

/// What the caller is to do after an event.
#[derive(Debug, Clone, Copy, PartialEq, Eq, Structural)]
pub enum Directive {
    /// Keep waiting for candidates.
    Continue,
    /// Signal cancellation to every candidate still running, then finish.
    CancelRemaining,
    /// No candidate is running any longer: finish.
    Finish,
}

/// A completed candidate with its score and output.
pub struct Scored<R> {
    pub candidate: usize,
    pub score: i64,
    pub output: R,
}

/// The winning candidate, its score and its output; with the rejected
/// completions, in the order they were set aside, where the caller asked to
/// keep them as evidence (else `rejected` is empty).
pub struct SelectionResult<R> {
    pub winner: usize,
    pub score: i64,
    pub output: R,
    pub rejected: Vec<Scored<R>>,
}

/// The terminal state of an exploration.
pub enum Outcome<R> {
    Selected(SelectionResult<R>),
    /// No candidate completed: all failed, or the time ran out first.
    AllFailed,
}

/// The mathematical state of an exploration: each candidate's status, the
/// best completion so far, the completions set aside as evidence, and
/// whether the exploration is over.
pub struct BubbleModel<R> {
    pub statuses: Seq<CandidateStatus>,
    pub best: Option<Scored<R>>,
    pub rejected: Seq<Scored<R>>,
    pub closed: bool,
}

/// The state right after launching `count` candidates.
pub open spec fn initial_model<R>(count: nat) -> BubbleModel<R> {
    BubbleModel { statuses: Seq::new(count, |k: int| CandidateStatus::Running), best: None, rejected: Seq::empty(), closed: false }
}

/// Whether a result of `score` from candidate `c` beats `best`: a higher
/// score wins, and of equal scores the lower candidate id.
pub open spec fn improves<R>(best: Option<Scored<R>>, c: int, score: i64) -> bool {
    match best {
        None => true,
        Some(b) => score > b.score || (score == b.score && c < b.candidate),
    }
}

/// The best completion and the evidence after taking in `s`: `s` replaces
/// the best where it improves on it, and, where `keep` holds, the loser of
/// the two is added to the evidence.
pub open spec fn take_in<R>(keep: bool, best: Option<Scored<R>>, rejected: Seq<Scored<R>>, s: Scored<R>) -> (
    Option<Scored<R>>,
    Seq<Scored<R>>,
) {
    if improves(best, s.candidate as int, s.score) {
        (Some(s), if keep && best is Some { rejected.push(best->0) } else { rejected })
    } else {
        (best, if keep { rejected.push(s) } else { rejected })
    }
}

/// `st` with every running candidate cancelled.
pub open spec fn cancel_running(st: Seq<CandidateStatus>) -> Seq<CandidateStatus> {
    Seq::new(st.len(), |k: int| if st[k] == CandidateStatus::Running { CandidateStatus::Cancelled } else { st[k] })
}

/// Whether no candidate of `st` is running.
pub open spec fn none_running(st: Seq<CandidateStatus>) -> bool {
    forall|k: int| 0 <= k < st.len() ==> st[k] != CandidateStatus::Running
}

/// Whether candidate `c` is running in an exploration that is not over.
pub open spec fn live<R>(m: BubbleModel<R>, c: int) -> bool {
    !m.closed && 0 <= c < m.statuses.len() && m.statuses[c] == CandidateStatus::Running
}

/// After a candidate has reported, into `st`, `best` and `rejected`: cancel the rest if
/// the score reached the early-stop threshold, finish if none is running,
/// else continue.
pub open spec fn settle<R>(
    st: Seq<CandidateStatus>,
    best: Option<Scored<R>>,
    rejected: Seq<Scored<R>>,
    reached: bool,
) -> (BubbleModel<R>, Directive) {
    if reached {
        (BubbleModel { statuses: cancel_running(st), best, rejected, closed: true }, Directive::CancelRemaining)
    } else if none_running(st) {
        (BubbleModel { statuses: st, best, rejected, closed: true }, Directive::Finish)
    } else {
        (BubbleModel { statuses: st, best, rejected, closed: false }, Directive::Continue)
    }
}

/// One transition of the exploration, with early-stop threshold `early_stop`
/// and evidence kept where `keep` holds. An exploration that is over ignores
/// every event; so does a running one for an event of a candidate that is not
/// running.
pub open spec fn step_spec<R>(early_stop: Option<i64>, keep: bool, m: BubbleModel<R>, e: CandidateEvent<R>) -> (
    BubbleModel<R>,
    Directive,
) {
    if m.closed {
        (m, Directive::Finish)
    } else {
        match e {
            CandidateEvent::Completed { candidate, score, output } => {
                if !live(m, candidate as int) {
                    (m, Directive::Continue)
                } else {
                    let st = m.statuses.update(candidate as int, CandidateStatus::Completed { score });
                    let (best, rejected) = take_in(keep, m.best, m.rejected, Scored { candidate, score, output });
                    settle(st, best, rejected, early_stop is Some && score >= early_stop->0)
                }
            },
            CandidateEvent::Failed { candidate } => {
                if !live(m, candidate as int) {
                    (m, Directive::Continue)
                } else {
                    settle(m.statuses.update(candidate as int, CandidateStatus::Failed), m.best, m.rejected, false)
                }
            },
            CandidateEvent::TimedOut => {
                settle(m.statuses, m.best, m.rejected, true)
            },
        }
    }
}

/// The state after the events `es`, in order, starting from `m`.
pub open spec fn run_spec<R>(early_stop: Option<i64>, keep: bool, m: BubbleModel<R>, es: Seq<CandidateEvent<R>>) -> BubbleModel<R>
    decreases es.len(),
{
    if es.len() == 0 {
        m
    } else {
        step_spec(early_stop, keep, run_spec(early_stop, keep, m, es.drop_last()), es.last()).0
    }
}

/// Whether `r` is the terminal state that `m` stands for: the best
/// completion with the evidence, or `AllFailed` where there is none.
pub open spec fn outcome_of<R>(r: Outcome<R>, m: BubbleModel<R>) -> bool {
    match m.best {
        Some(b) => r matches Outcome::Selected(s) && s.winner == b.candidate && s.score == b.score
            && s.output == b.output && s.rejected@ == m.rejected,
        None => r is AllFailed,
    }
}

/// The selection rule holds of `m`: the best result, where there is one, is
/// that of a completed candidate, no completed candidate has a higher score,
/// and none with an equal score has a lower id; where there is none, no
/// candidate has completed.
pub open spec fn ranked<R>(m: BubbleModel<R>) -> bool {
    match m.best {
        None => forall|c: int| 0 <= c < m.statuses.len() ==> !(#[trigger] m.statuses[c] is Completed),
        Some(b) => {
            &&& 0 <= b.candidate < m.statuses.len()
            &&& m.statuses[b.candidate as int] == (CandidateStatus::Completed { score: b.score })
            &&& forall|c: int| 0 <= c < m.statuses.len() && (#[trigger] m.statuses[c] is Completed) ==>
                (m.statuses[c]->score < b.score || (m.statuses[c]->score == b.score && b.candidate <= c))
        },
    }
}

proof fn lemma_settle_ranked<R>(st: Seq<CandidateStatus>, best: Option<Scored<R>>, rejected: Seq<Scored<R>>, reached: bool)
    requires
        ranked(BubbleModel { statuses: st, best, rejected, closed: false }),
    ensures
        ranked(settle(st, best, rejected, reached).0),
{
    let c = cancel_running(st);
    assert forall|k: int| 0 <= k < st.len() implies (c[k] is Completed) == (st[k] is Completed) && (st[k] is Completed ==> c[k] == st[k]) by {}
}

proof fn lemma_step_ranked<R>(early_stop: Option<i64>, keep: bool, m: BubbleModel<R>, e: CandidateEvent<R>)
    requires
        ranked(m),
    ensures
        ranked(step_spec(early_stop, keep, m, e).0),
{
    if !m.closed {
        match e {
            CandidateEvent::Completed { candidate, score, output } => {
                if live(m, candidate as int) {
                    let st = m.statuses.update(candidate as int, CandidateStatus::Completed { score });
                    let (best, rejected) = take_in(keep, m.best, m.rejected, Scored { candidate, score, output });
                    assert(ranked(BubbleModel { statuses: st, best, rejected, closed: false }));
                    lemma_settle_ranked(st, best, rejected, early_stop is Some && score >= early_stop->0);
                }
            },
            CandidateEvent::Failed { candidate } => {
                if live(m, candidate as int) {
                    let st = m.statuses.update(candidate as int, CandidateStatus::Failed);
                    assert(ranked(BubbleModel { statuses: st, best: m.best, rejected: m.rejected, closed: false }));
                    lemma_settle_ranked(st, m.best, m.rejected, false);
                }
            },
            CandidateEvent::TimedOut => {
                lemma_settle_ranked(m.statuses, m.best, m.rejected, true);
            },
        }
    }
}

/// Whatever the order in which candidates report, and whatever fails or
/// times out, the selected candidate completed, has the highest score of all
/// that completed, and of those with that score the lowest id; where none
/// completed, none is selected.
pub proof fn lemma_selection_is_best<R>(early_stop: Option<i64>, keep: bool, count: nat, es: Seq<CandidateEvent<R>>)
    ensures
        ranked(run_spec(early_stop, keep, initial_model::<R>(count), es)),
    decreases es.len(),
{
    if es.len() > 0 {
        lemma_selection_is_best(early_stop, keep, count, es.drop_last());
        lemma_step_ranked(early_stop, keep, run_spec(early_stop, keep, initial_model::<R>(count), es.drop_last()), es.last());
    }
}

/// Where no candidate completes (all fail, or the time runs out first), the
/// exploration ends with no selection.
pub proof fn lemma_no_completion_all_failed<R>(early_stop: Option<i64>, keep: bool, count: nat, es: Seq<CandidateEvent<R>>)
    requires
        forall|k: int| 0 <= k < es.len() ==> !(#[trigger] es[k] is Completed),
    ensures
        run_spec(early_stop, keep, initial_model::<R>(count), es).best is None,
    decreases es.len(),
{
    if es.len() > 0 {
        let p = es.drop_last();
        assert forall|k: int| 0 <= k < p.len() implies !(#[trigger] p[k] is Completed) by {
            assert(p[k] == es[k]);
        }
        lemma_no_completion_all_failed(early_stop, keep, count, p);
        assert(!(es[es.len() - 1] is Completed));
    }
}

/// A completed candidate whose score reaches the early-stop threshold ends
/// the exploration: every other candidate that was still running is
/// cancelled, the caller is told to cancel them, and no later report, even a
/// completion, changes the state.
pub proof fn lemma_early_stop_cancels_rest<R>(threshold: i64, keep: bool, m: BubbleModel<R>, c: usize, score: i64, output: R)
    requires
        live(m, c as int),
        score >= threshold,
    ensures
        ({
            let (n, d) = step_spec(Some(threshold), keep, m, CandidateEvent::Completed { candidate: c, score, output });
            &&& d == Directive::CancelRemaining
            &&& n.closed
            &&& n.statuses[c as int] == (CandidateStatus::Completed { score })
            &&& forall|k: int| 0 <= k < m.statuses.len() && k != c && m.statuses[k] == CandidateStatus::Running
                ==> n.statuses[k] == CandidateStatus::Cancelled
            &&& forall|e: CandidateEvent<R>| #[trigger] step_spec(Some(threshold), keep, n, e) == (n, Directive::Finish)
        }),
{
}

/// The speculative path explorer: the number of candidates launched, the
/// optional early-stop threshold, and whether rejected completions are kept
/// as evidence.
pub struct RealityDistortionEngine {
    candidate_count: usize,
    early_stop: Option<i64>,
    keep_rejected: bool,
}

/// The state of one exploration.
pub struct DistortionBubble<R> {
    statuses: Vec<CandidateStatus>,
    best: Option<Scored<R>>,
    rejected: Vec<Scored<R>>,
    closed: bool,
}

impl<R> View for DistortionBubble<R> {
    type V = BubbleModel<R>;

    closed spec fn view(&self) -> BubbleModel<R> {
        BubbleModel { statuses: self.statuses@, best: self.best, rejected: self.rejected@, closed: self.closed }
    }
}

fn is_running(s: &CandidateStatus) -> (r: bool)
    ensures
        r == (*s == CandidateStatus::Running),
{
    match s {
        CandidateStatus::Running => true,
        _ => false,
    }
}

fn cancel_all(st: &mut Vec<CandidateStatus>)
    ensures
        final(st)@ == cancel_running(old(st)@),
{
    let ghost pre = st@;
    let mut k: usize = 0;
    while k < st.len()
        invariant
            k <= st@.len() == pre.len(),
            forall|m: int| 0 <= m < k ==> st@[m] == cancel_running(pre)[m],
            forall|m: int| k <= m < pre.len() ==> st@[m] == pre[m],
        decreases pre.len() - k,
    {
        if is_running(&st[k]) {
            st.set(k, CandidateStatus::Cancelled);
        }
        k = k + 1;
    }
    assert(st@ =~= cancel_running(pre));
}

fn any_running(st: &Vec<CandidateStatus>) -> (r: bool)
    ensures
        r == !none_running(st@),
{
    let mut k: usize = 0;
    while k < st.len()
        invariant
            k <= st@.len(),
            forall|m: int| 0 <= m < k ==> st@[m] != CandidateStatus::Running,
        decreases st@.len() - k,
    {
        if is_running(&st[k]) {
            return true;
        }
        k = k + 1;
    }
    false
}

impl<R> DistortionBubble<R> {
    /// Status of candidate `c`.
    pub fn status(&self, c: usize) -> (r: CandidateStatus)
        requires
            c < self@.statuses.len(),
        ensures
            r == self@.statuses[c as int],
    {
        self.statuses[c]
    }

    /// Number of candidates of the exploration.
    pub fn candidate_count(&self) -> (r: usize)
        ensures
            r == self@.statuses.len(),
    {
        self.statuses.len()
    }

    /// Whether the exploration is over.
    pub fn is_closed(&self) -> (r: bool)
        ensures
            r == self@.closed,
    {
        self.closed
    }

    /// The terminal state: the best result, or `AllFailed` where no
    /// candidate completed.
    pub fn into_outcome(self) -> (r: Outcome<R>)
        ensures
            outcome_of(r, self@),
    {
        match self.best {
            Some(b) => Outcome::Selected(
                SelectionResult { winner: b.candidate, score: b.score, output: b.output, rejected: self.rejected },
            ),
            None => Outcome::AllFailed,
        }
    }

    fn settle(&mut self, reached: bool) -> (d: Directive)
        requires
            !old(self).closed,
        ensures
            (final(self)@, d) == settle(old(self)@.statuses, old(self)@.best, old(self)@.rejected, reached),
    {
        if reached {
            cancel_all(&mut self.statuses);
            self.closed = true;
            Directive::CancelRemaining
        } else if !any_running(&self.statuses) {
            self.closed = true;
            Directive::Finish
        } else {
            Directive::Continue
        }
    }
}

impl RealityDistortionEngine {
    /// The number of candidates each exploration launches.
    pub closed spec fn count(&self) -> nat {
        self.candidate_count as nat
    }

    /// The early-stop threshold, if any.
    pub closed spec fn early_stop(&self) -> Option<i64> {
        self.early_stop
    }

    /// Whether rejected completions are kept as evidence.
    pub closed spec fn keeps_rejected(&self) -> bool {
        self.keep_rejected
    }

    /// An explorer of `candidate_count` candidates, without early stop and
    /// without evidence. Fails with `InvalidParameter` exactly when
    /// `candidate_count` is zero.
    pub fn new(candidate_count: usize) -> (r: Result<RealityDistortionEngine, EngineError>)
        ensures
            r is Err <==> candidate_count == 0,
            r is Err ==> r matches Err(EngineError::InvalidParameter),
            r is Ok ==> r->Ok_0.count() == candidate_count && r->Ok_0.early_stop() is None
                && !r->Ok_0.keeps_rejected(),
    {
        if candidate_count == 0 {
            Err(EngineError::InvalidParameter)
        } else {
            Ok(RealityDistortionEngine { candidate_count, early_stop: None, keep_rejected: false })
        }
    }

    /// The same explorer, stopping early once a completed candidate scores
    /// `threshold` or more.
    pub fn early_stop_on_score(self, threshold: i64) -> (r: RealityDistortionEngine)
        ensures
            r.count() == self.count(),
            r.early_stop() == Some(threshold),
            r.keeps_rejected() == self.keeps_rejected(),
    {
        RealityDistortionEngine { early_stop: Some(threshold), ..self }
    }

    /// The same explorer, keeping the rejected completions as evidence.
    pub fn keep_rejected(self) -> (r: RealityDistortionEngine)
        ensures
            r.count() == self.count(),
            r.early_stop() == self.early_stop(),
            r.keeps_rejected(),
    {
        RealityDistortionEngine { keep_rejected: true, ..self }
    }

    /// Starts an exploration: every candidate is running, none has reported.
    pub fn create_distortion<R>(&self) -> (r: DistortionBubble<R>)
        ensures
            r@ == initial_model::<R>(self.count()),
    {
        let mut statuses: Vec<CandidateStatus> = Vec::new();
        let mut k: usize = 0;
        while k < self.candidate_count
            invariant
                k <= self.candidate_count,
                statuses@.len() == k,
                forall|m: int| 0 <= m < k ==> statuses@[m] == CandidateStatus::Running,
            decreases self.candidate_count - k,
        {
            statuses.push(CandidateStatus::Running);
            k = k + 1;
        }
        let r = DistortionBubble { statuses, best: None, rejected: Vec::new(), closed: false };
        assert(r@.statuses =~= initial_model::<R>(self.count()).statuses);
        assert(r@.rejected =~= Seq::<Scored<R>>::empty());
        r
    }

    /// Takes one event of the exploration in `bubble` and says what the
    /// caller is to do next.
    ///
    /// A completion is scored against the best so far (higher score wins,
    /// lower id breaks ties). Once every candidate has reported the
    /// exploration finishes; a completion that reaches the early-stop
    /// threshold, or the timeout, cancels every candidate still running.
    pub fn execute_in_distortion<R>(&self, bubble: &mut DistortionBubble<R>, event: CandidateEvent<R>) -> (d: Directive)
        ensures
            (final(bubble)@, d) == step_spec(self.early_stop(), self.keeps_rejected(), old(bubble)@, event),
    {
        if bubble.closed {
            return Directive::Finish;
        }
        match event {
            CandidateEvent::Completed { candidate, score, output } => {
                if candidate >= bubble.statuses.len() || !is_running(&bubble.statuses[candidate]) {
                    return Directive::Continue;
                }
                bubble.statuses.set(candidate, CandidateStatus::Completed { score });
                let better = match &bubble.best {
                    None => true,
                    Some(b) => score > b.score || (score == b.score && candidate < b.candidate),
                };
                let s = Scored { candidate, score, output };
                if better {
                    let prev = bubble.best.take();
                    bubble.best = Some(s);
                    if self.keep_rejected {
                        if let Some(p) = prev {
                            bubble.rejected.push(p);
                        }
                    }
                } else if self.keep_rejected {
                    bubble.rejected.push(s);
                }
                let reached = match self.early_stop {
                    Some(t) => score >= t,
                    None => false,
                };
                bubble.settle(reached)
            },
            CandidateEvent::Failed { candidate } => {
                if candidate >= bubble.statuses.len() || !is_running(&bubble.statuses[candidate]) {
                    return Directive::Continue;
                }
                bubble.statuses.set(candidate, CandidateStatus::Failed);
                bubble.settle(false)
            },
            CandidateEvent::TimedOut => bubble.settle(true),
        }
    }

    /// Runs a whole exploration over the events observed, in the order in
    /// which they came, and returns its terminal state.
    pub fn explore<R>(&self, events: Vec<CandidateEvent<R>>) -> (r: Outcome<R>)
        ensures
            outcome_of(r, run_spec(self.early_stop(), self.keeps_rejected(), initial_model::<R>(self.count()), events@)),
    {
        let ghost all = events@;
        let mut rest = events;
        let mut bubble: DistortionBubble<R> = self.create_distortion();
        let ghost mut done: nat = 0;
        while rest.len() > 0
            invariant
                done + rest@.len() == all.len(),
                rest@ == all.subrange(done as int, all.len() as int),
                bubble@ == run_spec(self.early_stop(), self.keeps_rejected(), initial_model::<R>(self.count()), all.subrange(0, done as int)),
            decreases rest@.len(),
        {
            let e = rest.remove(0);
            proof {
                assert(all.subrange(0, done as int + 1).drop_last() == all.subrange(0, done as int));
                assert(all.subrange(0, done as int + 1).last() == e);
            }
            self.execute_in_distortion(&mut bubble, e);
            proof {
                done = done + 1;
            }
            assert(rest@ =~= all.subrange(done as int, all.len() as int));
        }
        assert(all.subrange(0, done as int) =~= all);
        bubble.into_outcome()
    }
}

} // verus!
