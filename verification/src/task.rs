//! The per-file optimization task: the verification/rollback state machine
//! and the convergence loop that drives the fixed engine pipeline over one
//! file until an iteration stops shrinking it.
//!
//! The task models the two on-disk files it owns as byte vectors: the
//! canonical file (the baseline, always the last verified-good state) and
//! the working copy the engines mutate. The caller mirrors every transition
//! onto disk and is the only side doing I/O.

use vstd::prelude::*;
use vstd::string::StringExecFns;

use crate::decode::decode_of;
use crate::decode::images_are_identical;
use crate::decode::is_decodable;
use crate::decode::pixels_equal;
use crate::engines::all_true;
use crate::engines::engine_invocations;
use crate::engines::engine_order;
use crate::engines::fresh_copy_spec;
use crate::engines::needs_fresh_copy;
use crate::engines::EngineId;
use crate::engines::EngineRunner;
use crate::outcome::classify;
use crate::outcome::classify_spec;
use crate::outcome::VerificationOutcome;

verus! {

/// One observable event of a task: which engine ran, whether all of its
/// external commands reported success, and the verification verdict over
/// the candidate it produced.
#[derive(Clone, Copy, Debug, PartialEq, Eq, Structural)]
pub struct StepEvent {
    pub engine: EngineId,
    pub invocation_succeeded: bool,
    pub outcome: VerificationOutcome,
}

/// How a task ended.
#[derive(Clone, Copy, Debug, PartialEq, Eq, Structural)]
pub enum TaskStatus {
    /// An iteration failed to shrink the file further.
    Converged,
    /// An `Invalid` verdict occurred: an engine altered pixels without
    /// shrinking the file. Fatal for the affected file only.
    Aborted,
    /// The input did not decode as an image, so losslessness could not be
    /// verified; the input was left untouched.
    Undecodable,
}

/// The mathematical state of one task.
#[verifier::ext_equal]
pub struct TaskModel {
    /// The input's bytes, fixed for the task's lifetime.
    pub original: Seq<u8>,
    /// The canonical file: the last verified-good baseline.
    pub canonical: Seq<u8>,
    /// The working copy the engines mutate.
    pub working: Seq<u8>,
    /// Iterations begun so far.
    pub iterations: nat,
    /// The canonical file's size when the current iteration began.
    pub size_before: nat,
    /// Whether an `Invalid` verdict has aborted the task.
    pub aborted: bool,
    /// Every engine step's observable event, in order.
    pub events: Seq<StepEvent>,
}

/// A task's invariant: the baseline decodes, its pixels equal the input's,
/// and it never grew past the input or past the current iteration's start.
pub open spec fn task_wf(m: TaskModel) -> bool {
    &&& pixels_equal(m.canonical, m.original)
    &&& m.canonical.len() <= m.original.len()
    &&& m.size_before <= m.original.len()
}

/// Starting a new iteration: count it and record the baseline size the
/// iteration's net effect will be measured against.
pub open spec fn begin_spec(m: TaskModel) -> TaskModel {
    TaskModel { iterations: m.iterations + 1, size_before: m.canonical.len(), ..m }
}

/// The bytes handed to an engine: a fresh copy of the baseline for engines
/// that want one, otherwise whatever the previous engine left in the
/// working copy.
pub open spec fn input_spec(m: TaskModel, e: EngineId) -> Seq<u8> {
    if fresh_copy_spec(e) {
        m.canonical
    } else {
        m.working
    }
}

/// The verdict over one candidate: pixel equality against the baseline and
/// a strict size win decide it.
pub open spec fn step_outcome_spec(m: TaskModel, w: Seq<u8>) -> VerificationOutcome {
    classify_spec(pixels_equal(w, m.canonical), w.len() < m.canonical.len())
}

/// One verified engine step over the model: the candidate `w` lands in the
/// working copy, the verdict is taken, and its action is applied — commit
/// for `Improved`, nothing for `NoGain`, restoring the baseline over the
/// working copy for `Corrupted`, aborting the task for `Invalid`.
pub open spec fn step_spec(m: TaskModel, e: EngineId, ok: bool, w: Seq<u8>) -> TaskModel {
    let oc = step_outcome_spec(m, w);
    let ev = StepEvent { engine: e, invocation_succeeded: ok, outcome: oc };
    match oc {
        VerificationOutcome::Improved => TaskModel {
            canonical: w,
            working: w,
            events: m.events.push(ev),
            ..m
        },
        VerificationOutcome::NoGain => TaskModel { working: w, events: m.events.push(ev), ..m },
        VerificationOutcome::Corrupted => TaskModel {
            working: m.canonical,
            events: m.events.push(ev),
            ..m
        },
        VerificationOutcome::Invalid => TaskModel {
            working: w,
            aborted: true,
            events: m.events.push(ev),
            ..m
        },
    }
}

/// Percentage of the input's size that was saved, truncated to a whole
/// percent.
pub open spec fn percent_saved_spec(original: nat, final_size: nat) -> int {
    if original == 0 {
        0
    } else {
        (original - final_size) * 100 / (original as int)
    }
}

/// The truncated saved-percentage always lies between 0 and 100.
pub proof fn lemma_percent_saved_bounds(original: nat, final_size: nat)
    requires
        final_size <= original,
    ensures
        0 <= percent_saved_spec(original, final_size) <= 100,
{
    if original > 0 {
        let p = (original - final_size) * 100 / (original as int);
        assert(0 <= p <= 100) by (nonlinear_arith)
            requires
                final_size <= original,
                original > 0,
                p == (original - final_size) * 100 / (original as int),
        ;
        assert(percent_saved_spec(original, final_size) == p);
    }
}

/// What a finished task reports.
#[derive(Clone, Copy, Debug, PartialEq, Eq, Structural)]
pub struct TaskReport {
    pub original_size: u64,
    pub final_size: u64,
    /// Final size minus original size; never positive.
    pub size_delta: i128,
    /// Truncated percentage change of the size; never positive.
    pub percent_delta: i64,
    pub iterations: u128,
    pub status: TaskStatus,
}

/// The report a task in state `m` yields.
pub open spec fn report_spec(m: TaskModel) -> TaskReport {
    TaskReport {
        original_size: m.original.len() as u64,
        final_size: m.canonical.len() as u64,
        size_delta: (m.canonical.len() - m.original.len()) as i128,
        percent_delta: (0 - percent_saved_spec(m.original.len(), m.canonical.len())) as i64,
        iterations: m.iterations as u128,
        status: if m.aborted {
            TaskStatus::Aborted
        } else {
            TaskStatus::Converged
        },
    }
}

/// One file's optimization state. Constructed over the input's bytes; every
/// engine step goes through `verify_image`, so the baseline only ever moves
/// to a pixel-identical, strictly smaller candidate.
pub struct OptimizerTask {
    /// The input's bytes, kept as a ghost reference point.
    pub original: Ghost<Seq<u8>>,
    /// The input's size in bytes.
    pub original_size: u64,
    /// The canonical file's current bytes.
    pub canonical: Vec<u8>,
    /// The working copy's current bytes.
    pub working: Vec<u8>,
    /// Iterations begun so far.
    pub iterations: u128,
    /// The canonical file's size when the current iteration began.
    pub size_before: u64,
    /// Whether an `Invalid` verdict has aborted the task.
    pub aborted: bool,
    /// Every engine step's observable event, in order.
    pub events: Vec<StepEvent>,
}

impl View for OptimizerTask {
    type V = TaskModel;

    open spec fn view(&self) -> TaskModel {
        TaskModel {
            original: self.original@,
            canonical: self.canonical@,
            working: self.working@,
            iterations: self.iterations as nat,
            size_before: self.size_before as nat,
            aborted: self.aborted,
            events: self.events@,
        }
    }
}

/// Copy of a byte vector.
fn copy_bytes(v: &Vec<u8>) -> (r: Vec<u8>)
    ensures
        r@ == v@,
{
    let mut r: Vec<u8> = Vec::new();
    let mut i: usize = 0;
    while i < v.len()
        invariant
            0 <= i <= v@.len(),
            r@ == v@.subrange(0, i as int),
        decreases v@.len() - i,
    {
        r.push(v[i]);
        proof {
            assert(r@ =~= v@.subrange(0, i + 1 as int));
        }
        i += 1;
    }
    proof {
        assert(r@ =~= v@);
    }
    r
}

impl OptimizerTask {
    /// The model invariant, plus the recorded size matching the input.
    pub open spec fn wf(&self) -> bool {
        task_wf(self@) && self.original_size as nat == self@.original.len()
    }

    /// Open a task over the input's bytes. Inputs that do not decode are
    /// handed back unchanged: losslessness could not be verified for them,
    /// so they are never touched.
    pub fn new(original: Vec<u8>) -> (r: Result<OptimizerTask, Vec<u8>>)
        ensures
            match r {
                Ok(t) => t.wf() && decode_of(original@) is Some && t@.original == original@
                    && t@.canonical == original@ && t@.working == Seq::<u8>::empty()
                    && t@.iterations == 0 && t@.size_before == original@.len() && !t@.aborted
                    && t@.events == Seq::<StepEvent>::empty(),
                Err(v) => v@ == original@ && decode_of(original@) is None,
            },
    {
        if !is_decodable(&original) {
            return Err(original);
        }
        let size = original.len() as u64;
        let working: Vec<u8> = Vec::new();
        let events: Vec<StepEvent> = Vec::new();
        let ghost orig = original@;
        let t = OptimizerTask {
            original: Ghost(orig),
            original_size: size,
            canonical: original,
            working,
            iterations: 0,
            size_before: size,
            aborted: false,
            events,
        };
        Ok(t)
    }

    /// Begin an iteration: count it and record the size its net effect is
    /// measured against.
    pub fn begin_iteration(&mut self)
        requires
            old(self).wf(),
            !old(self)@.aborted,
            old(self)@.iterations < u128::MAX,
        ensures
            final(self).wf(),
            final(self)@ == begin_spec(old(self)@),
    {
        self.iterations = self.iterations + 1;
        self.size_before = self.canonical.len() as u64;
        proof {
            assert(self@ =~= begin_spec(old(self)@));
        }
    }

    /// The bytes to hand the given engine: a fresh copy of the baseline, or
    /// the working copy's current content for engines that chain.
    pub fn engine_input(&self, e: EngineId) -> (r: Vec<u8>)
        ensures
            r@ == input_spec(self@, e),
    {
        if needs_fresh_copy(e) {
            copy_bytes(&self.canonical)
        } else {
            copy_bytes(&self.working)
        }
    }

    /// Verify one engine's candidate against the baseline and apply the
    /// verdict's action: commit, discard, rollback, or abort.
    pub fn verify_image(
        &mut self,
        engine: EngineId,
        invocation_succeeded: bool,
        candidate: Vec<u8>,
    ) -> (oc: VerificationOutcome)
        requires
            old(self).wf(),
            !old(self)@.aborted,
        ensures
            final(self).wf(),
            oc == step_outcome_spec(old(self)@, candidate@),
            final(self)@ == step_spec(old(self)@, engine, invocation_succeeded, candidate@),
    {
        let pixel_identical = images_are_identical(&candidate, &self.canonical);
        let got_smaller = candidate.len() < self.canonical.len();
        let oc = classify(pixel_identical, got_smaller);
        self.events.push(StepEvent { engine, invocation_succeeded, outcome: oc });
        match oc {
            VerificationOutcome::Improved => {
                self.working = copy_bytes(&candidate);
                self.canonical = candidate;
            }
            VerificationOutcome::NoGain => {
                self.working = candidate;
            }
            VerificationOutcome::Corrupted => {
                self.working = copy_bytes(&self.canonical);
            }
            VerificationOutcome::Invalid => {
                self.working = candidate;
                self.aborted = true;
            }
        }
        proof {
            assert(self@ =~= step_spec(old(self)@, engine, invocation_succeeded, candidate@));
        }
        oc
    }

    /// Whether the iteration that just finished shrank the canonical file,
    /// which is the condition for running another one.
    pub fn end_iteration(&self) -> (cont: bool)
        ensures
            cont == (self@.canonical.len() < self@.size_before),
    {
        (self.canonical.len() as u64) < self.size_before
    }

    /// Whether an `Invalid` verdict has aborted the task.
    pub fn is_aborted(&self) -> (r: bool)
        ensures
            r == self@.aborted,
    {
        self.aborted
    }

    /// The finished task's report.
    pub fn report(&self) -> (r: TaskReport)
        requires
            self.wf(),
        ensures
            r == report_spec(self@),
    {
        let original_size = self.original_size;
        let final_size = self.canonical.len() as u64;
        let size_delta = (final_size as i128) - (original_size as i128);
        let percent_delta: i64 = if original_size == 0 {
            0
        } else {
            let savings: u64 = original_size - final_size;
            let p: u128 = (savings as u128) * 100 / (original_size as u128);
            proof {
                assert(p <= 100) by (nonlinear_arith)
                    requires
                        savings <= original_size,
                        original_size > 0,
                        p as int == (savings as int) * 100 / (original_size as int),
                ;
            }
            0 - (p as i64)
        };
        TaskReport {
            original_size,
            final_size,
            size_delta,
            percent_delta,
            iterations: self.iterations,
            status: if self.aborted {
                TaskStatus::Aborted
            } else {
                TaskStatus::Converged
            },
        }
    }

    /// Consume the task, yielding the final canonical bytes and the event
    /// log. The caller removes the working copy unconditionally.
    pub fn into_parts(self) -> (r: (Vec<u8>, Vec<StepEvent>))
        ensures
            r.0@ == self@.canonical,
            r.1@ == self@.events,
    {
        (self.canonical, self.events)
    }
}

/// Run one engine step: feed the engine its input, execute its commands in
/// order chaining the working copy through them, fold their success flags
/// (success requires every command to succeed), then verify the candidate.
/// Nothing is assumed of the runner: whatever bytes come back, the step
/// keeps the task's invariant and only commits a verified improvement.
pub fn run_engine_step<R: EngineRunner>(
    task: &mut OptimizerTask,
    runner: &mut R,
    e: EngineId,
) -> (oc: VerificationOutcome)
    requires
        old(task).wf(),
        !old(task)@.aborted,
    ensures
        final(task).wf(),
        final(task)@.original == old(task)@.original,
        final(task).original_size == old(task).original_size,
        final(task)@.iterations == old(task)@.iterations,
        final(task)@.size_before == old(task)@.size_before,
        final(task)@.canonical.len() <= old(task)@.canonical.len(),
        final(task)@.aborted == (oc == VerificationOutcome::Invalid),
        oc != VerificationOutcome::Improved ==> final(task)@.canonical == old(task)@.canonical,
        oc == VerificationOutcome::Improved ==> final(task)@.canonical.len()
            < old(task)@.canonical.len(),
        final(task)@.events.len() == old(task)@.events.len() + 1,
        final(task)@.events.last().engine == e,
        final(task)@.events.last().outcome == oc,
        forall|j: int|
            0 <= j < old(task)@.events.len() ==> final(task)@.events[j] == old(task)@.events[j],
{
    let input = task.engine_input(e);
    let invocations = engine_invocations(e);
    let mut bytes = input;
    let mut successes: Vec<bool> = Vec::new();
    let mut k: usize = 0;
    while k < invocations.len()
        invariant
            0 <= k <= invocations@.len(),
        decreases invocations@.len() - k,
    {
        let (ok, out) = runner.invoke(&invocations[k], bytes);
        bytes = out;
        successes.push(ok);
        k += 1;
    }
    let succeeded = all_true(&successes);
    task.verify_image(e, succeeded, bytes)
}

/// The name of a task's sibling working-copy file, derived from the
/// canonical file's stem. Distinct stems in distinct directories can never
/// collide, because the working copy is created beside its own file.
pub fn working_copy_name(stem: &str) -> (r: String)
    ensures
        r@ == stem@ + "_tmp.png"@,
{
    let mut r = stem.to_owned();
    r.append("_tmp.png");
    r
}

/// Losslessness: an engine step over a well-formed task keeps the task
/// well-formed, and in particular keeps the baseline's pixel content equal
/// to the original input's — whatever candidate the engine produced.
pub proof fn lemma_step_lossless(m: TaskModel, e: EngineId, ok: bool, w: Seq<u8>)
    requires
        task_wf(m),
    ensures
        task_wf(step_spec(m, e, ok, w)),
        pixels_equal(step_spec(m, e, ok, w).canonical, m.original),
{
}

/// Monotonic size: no engine step ever grows the baseline, so it never
/// exceeds the original input's size.
pub proof fn lemma_step_monotonic(m: TaskModel, e: EngineId, ok: bool, w: Seq<u8>)
    requires
        task_wf(m),
    ensures
        step_spec(m, e, ok, w).canonical.len() <= m.canonical.len(),
        step_spec(m, e, ok, w).canonical.len() <= m.original.len(),
{
}

/// Rollback correctness: a candidate that altered pixels while shrinking
/// the file is flagged `Corrupted`, the baseline is restored exactly over
/// the working copy, and the baseline itself is untouched.
pub proof fn lemma_rollback_restores_baseline(m: TaskModel, e: EngineId, ok: bool, w: Seq<u8>)
    requires
        task_wf(m),
        !pixels_equal(w, m.canonical),
        w.len() < m.canonical.len(),
    ensures
        step_outcome_spec(m, w) == VerificationOutcome::Corrupted,
        step_spec(m, e, ok, w).working == m.canonical,
        step_spec(m, e, ok, w).canonical == m.canonical,
        step_spec(m, e, ok, w).aborted == m.aborted,
        step_spec(m, e, ok, w).events.last().outcome == VerificationOutcome::Corrupted,
{
}

/// Fatal invariant: a candidate whose pixels equal the baseline's — what a
/// correct, lossless engine always produces — can never draw the fatal
/// `Invalid` verdict, nor a `Corrupted` one, nor abort the task.
pub proof fn lemma_lossless_candidate_never_fatal(m: TaskModel, e: EngineId, ok: bool, w: Seq<u8>)
    requires
        task_wf(m),
        pixels_equal(w, m.canonical),
    ensures
        step_outcome_spec(m, w) != VerificationOutcome::Invalid,
        step_outcome_spec(m, w) != VerificationOutcome::Corrupted,
        step_spec(m, e, ok, w).aborted == m.aborted,
{
}

/// A sequence of engine steps over the model, each given as the engine, its
/// commands' joint success flag, and the candidate bytes it produced.
pub open spec fn run_steps(m: TaskModel, steps: Seq<(EngineId, bool, Seq<u8>)>) -> TaskModel
    decreases steps.len(),
{
    if steps.len() == 0 {
        m
    } else {
        run_steps(step_spec(m, steps[0].0, steps[0].1, steps[0].2), steps.drop_first())
    }
}

proof fn lemma_steps_without_gain(m: TaskModel, steps: Seq<(EngineId, bool, Seq<u8>)>)
    requires
        forall|i: int|
            0 <= i < steps.len() ==> pixels_equal(#[trigger] steps[i].2, m.canonical)
                && steps[i].2.len() >= m.canonical.len(),
    ensures
        run_steps(m, steps).canonical == m.canonical,
        run_steps(m, steps).iterations == m.iterations,
        run_steps(m, steps).size_before == m.size_before,
        run_steps(m, steps).aborted == m.aborted,
        run_steps(m, steps).events.len() == m.events.len() + steps.len(),
        forall|j: int| 0 <= j < m.events.len() ==> run_steps(m, steps).events[j] == m.events[j],
        forall|j: int|
            m.events.len() <= j < m.events.len() + steps.len() ==> run_steps(
                m,
                steps,
            ).events[j].outcome == VerificationOutcome::NoGain,
    decreases steps.len(),
{
    if steps.len() > 0 {
        assert(pixels_equal(steps[0].2, m.canonical) && steps[0].2.len() >= m.canonical.len());
        let m1 = step_spec(m, steps[0].0, steps[0].1, steps[0].2);
        assert(step_outcome_spec(m, steps[0].2) == VerificationOutcome::NoGain);
        let rest = steps.drop_first();
        assert(forall|i: int| 0 <= i < rest.len() ==> rest[i] == steps[i + 1]);
        assert(forall|i: int|
            0 <= i < rest.len() ==> pixels_equal(#[trigger] rest[i].2, m1.canonical)
                && rest[i].2.len() >= m1.canonical.len()) by {
            assert(forall|i: int|
                0 <= i < rest.len() ==> pixels_equal(#[trigger] steps[i + 1].2, m.canonical)
                    && steps[i + 1].2.len() >= m.canonical.len());
        }
        lemma_steps_without_gain(m1, rest);
        let r = run_steps(m, steps);
        assert(r == run_steps(m1, rest));
        let ev0 = StepEvent {
            engine: steps[0].0,
            invocation_succeeded: steps[0].1,
            outcome: VerificationOutcome::NoGain,
        };
        assert(m1.events == m.events.push(ev0));
        assert forall|j: int| 0 <= j < m.events.len() implies r.events[j] == m.events[j] by {
            assert(r.events[j] == m1.events[j]);
            assert(m1.events[j] == m.events[j]);
        }
        assert forall|j: int| m.events.len() <= j < m.events.len() + steps.len() implies r.events[
            j
        ].outcome == VerificationOutcome::NoGain by {
            if j == m.events.len() {
                assert(r.events[j] == m1.events[j]);
                assert(m1.events[j] == ev0);
            } else {
                assert(m1.events.len() <= j < m1.events.len() + rest.len());
            }
        }
    }
}

/// Idempotence and convergence on an already-optimal file: when every
/// candidate an iteration's engines produce is pixel-identical to the
/// baseline and no smaller, the iteration is counted, every step is
/// verified with a `NoGain` verdict, the baseline is unchanged — zero net
/// size change — and the continue condition fails, so the loop stops after
/// this one iteration.
pub proof fn lemma_converged_iteration(m: TaskModel, steps: Seq<(EngineId, bool, Seq<u8>)>)
    requires
        task_wf(m),
        forall|i: int|
            0 <= i < steps.len() ==> pixels_equal(#[trigger] steps[i].2, m.canonical)
                && steps[i].2.len() >= m.canonical.len(),
    ensures
        ({
            let r = run_steps(begin_spec(m), steps);
            &&& r.canonical == m.canonical
            &&& r.iterations == m.iterations + 1
            &&& r.aborted == m.aborted
            &&& !(r.canonical.len() < r.size_before)
            &&& r.events.len() == m.events.len() + steps.len()
            &&& forall|j: int|
                m.events.len() <= j < r.events.len() ==> r.events[j].outcome
                    == VerificationOutcome::NoGain
        }),
{
    lemma_steps_without_gain(begin_spec(m), steps);
}

/// What `optimize` returns for one file.
pub struct OptimizeResult {
    pub report: TaskReport,
    /// The final canonical bytes; the caller writes them back.
    pub bytes: Vec<u8>,
    /// Every engine step's observable event, in order.
    pub events: Vec<StepEvent>,
}

/// Optimize one file to convergence: run iterations of the fixed engine
/// pipeline, each engine step individually verified, while an iteration
/// strictly shrinks the canonical file; the first iteration always runs.
/// The result is always pixel-identical to the input and never larger;
/// inputs that do not decode come back untouched.
pub fn optimize<R: EngineRunner>(original: Vec<u8>, runner: &mut R) -> (r: OptimizeResult)
    ensures
        r.report.original_size == original@.len(),
        r.report.final_size == r.bytes@.len(),
        r.report.final_size <= r.report.original_size,
        r.report.size_delta == r.bytes@.len() - original@.len(),
        r.report.percent_delta == 0 - percent_saved_spec(original@.len(), r.bytes@.len()),
        decode_of(original@) is None ==> r.bytes@ == original@ && r.report.status
            == TaskStatus::Undecodable && r.report.iterations == 0 && r.events@.len() == 0,
        decode_of(original@) is Some ==> pixels_equal(r.bytes@, original@)
            && r.report.iterations >= 1 && r.report.status != TaskStatus::Undecodable,
        r.report.status == TaskStatus::Aborted ==> r.events@.len() >= 1 && r.events@.last().outcome
            == VerificationOutcome::Invalid,
{
    let n_orig: usize = original.len();
    let mut task = match OptimizerTask::new(original) {
        Ok(t) => t,
        Err(v) => {
            let size = v.len() as u64;
            let report = TaskReport {
                original_size: size,
                final_size: size,
                size_delta: 0,
                percent_delta: 0,
                iterations: 0,
                status: TaskStatus::Undecodable,
            };
            let events: Vec<StepEvent> = Vec::new();
            return OptimizeResult { report, bytes: v, events };
        }
    };
    let ghost orig_view = task@.original;
    let mut running = true;
    while running
        invariant
            task.wf(),
            task@.original == orig_view,
            orig_view.len() == n_orig as nat,
            running ==> !task@.aborted,
            running ==> task@.iterations + task@.canonical.len() <= 1 + n_orig,
            !running ==> task@.iterations >= 1,
            task@.aborted ==> task@.events.len() >= 1 && task@.events.last().outcome
                == VerificationOutcome::Invalid,
        decreases task@.canonical.len() + (if running {
            1int
        } else {
            0int
        }),
    {
        proof {
            assert(task@.iterations < u128::MAX);
        }
        task.begin_iteration();
        let ghost c0 = task@.canonical.len();
        let ghost it0 = task@.iterations;
        let order = engine_order();
        let mut k: usize = 0;
        let mut fatal = false;
        while k < order.len() && !fatal
            invariant
                0 <= k <= order@.len(),
                task.wf(),
                task@.original == orig_view,
                task@.iterations == it0,
                task@.size_before == c0,
                task@.canonical.len() <= c0,
                fatal == task@.aborted,
                task@.aborted ==> task@.events.len() >= 1 && task@.events.last().outcome
                    == VerificationOutcome::Invalid,
            decreases order@.len() - k,
        {
            let e = order[k];
            let oc = run_engine_step(&mut task, runner, e);
            if oc == VerificationOutcome::Invalid {
                fatal = true;
            }
            k += 1;
        }
        if fatal {
            running = false;
        } else {
            let cont = task.end_iteration();
            if !cont {
                running = false;
            }
        }
    }
    proof {
        lemma_percent_saved_bounds(task@.original.len(), task@.canonical.len());
    }
    let report = task.report();
    let (bytes, events) = task.into_parts();
    OptimizeResult { report, bytes, events }
}

} // verus!
