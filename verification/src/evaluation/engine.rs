//! The fan-out of one evaluation: which test case runs next, how many run
//! at a time, and where each result goes when its run comes back.
//!
//! The caller runs what it is handed and reports back in whatever order the
//! runs end. Results are filed by the position of their test case, so their
//! order never depends on that.

use vstd::prelude::*;
use crate::error::{AppError, AppErrorView, ErrorKind};
use crate::evaluation::{
    case_views, grade_test, graded, judge, refusal, result_views, summarize, summary_of,
    verdict_of, EvaluationResult, TestCase, TestCaseResult, TestCaseResultView, TestCaseView,
    Verdict,
};
use crate::text::{clone_text, text_of};
use crate::execution::service::{concurrency_of, timeout_for, EngineConfig};
use crate::execution::{ExecuteCodeRequest, ExecuteCodeRequestView, ExecutionResult, Language};

verus! {

/// Where one test case stands.
#[derive(Debug, Clone)]
pub enum Slot {
    /// Not handed out yet.
    Waiting,
    /// Handed out; its run has not come back.
    Running,
    /// Graded.
    Done(TestCaseResult),
}

/// Mathematical content of a [`Slot`].
pub enum SlotView {
    Waiting,
    Running,
    Done(TestCaseResultView),
}

impl View for Slot {
    type V = SlotView;

    open spec fn view(&self) -> SlotView {
        match self {
            Slot::Waiting => SlotView::Waiting,
            Slot::Running => SlotView::Running,
            Slot::Done(result) => SlotView::Done(result@),
        }
    }
}

/// The views of a sequence of slots, in order.
pub open spec fn slot_views(slots: Seq<Slot>) -> Seq<SlotView> {
    slots.map_values(|s: Slot| s@)
}

/// Number of slots of `slots` whose run is out.
pub open spec fn count_running(slots: Seq<SlotView>) -> nat
    decreases slots.len(),
{
    if slots.len() == 0 {
        0
    } else {
        count_running(slots.drop_last()) + if slots.last() is Running {
            1nat
        } else {
            0nat
        }
    }
}

/// The model of an evaluation under way.
pub struct EvaluationView {
    pub code: Seq<char>,
    pub language: Language,
    /// Wall-clock limit of every run, in seconds.
    pub timeout_seconds: u64,
    /// How many runs may be out at a time.
    pub limit: nat,
    pub cases: Seq<TestCaseView>,
    pub slots: Seq<SlotView>,
    /// How many test cases have been handed out.
    pub started: nat,
    /// How many runs are counted as out.
    pub in_flight: nat,
}

impl EvaluationView {
    /// Number of runs that are out.
    pub open spec fn running(self) -> nat {
        count_running(self.slots)
    }

    /// Whether every test case is graded.
    pub open spec fn complete(self) -> bool {
        forall|i: int| 0 <= i < self.slots.len() ==> (#[trigger] self.slots[i]) is Done
    }

    /// Whether a further test case may be handed out: one is waiting, and
    /// the ceiling leaves room.
    pub open spec fn can_start(self) -> bool {
        self.started < self.cases.len() && self.running() < self.limit
    }

    /// What holds of every evaluation under way.
    ///
    /// Each test case has its slot. Test cases are handed out in their
    /// order, so those handed out come first and those waiting last. The
    /// count of runs that are out is kept, and no more are out than the
    /// ceiling allows. A graded slot holds the grading of its own test case.
    pub open spec fn well_formed(self) -> bool {
        &&& self.slots.len() == self.cases.len()
        &&& self.limit >= 1
        &&& self.started <= self.slots.len()
        &&& forall|i: int|
            0 <= i < self.slots.len() ==> ((#[trigger] self.slots[i]) is Waiting <==> i
                >= self.started)
        &&& self.in_flight == self.running()
        &&& self.running() <= self.limit
        &&& forall|i: int|
            0 <= i < self.slots.len() ==> ((#[trigger] self.slots[i]) matches SlotView::Done(
                result,
            ) ==> result == graded(
                self.cases[i],
                Verdict {
                    passed: result.passed,
                    actual_output: result.actual_output,
                    error: result.error,
                },
            ))
    }

    /// The evaluation after the next waiting test case is handed out.
    pub open spec fn after_start(self) -> EvaluationView {
        EvaluationView {
            slots: self.slots.update(self.started as int, SlotView::Running),
            started: self.started + 1,
            in_flight: self.in_flight + 1,
            ..self
        }
    }

    /// The evaluation after the run of test case `index` came back with
    /// `verdict`.
    pub open spec fn recorded(self, index: int, verdict: Verdict) -> EvaluationView {
        EvaluationView {
            slots: self.slots.update(index, SlotView::Done(graded(self.cases[index], verdict))),
            in_flight: if self.slots[index] is Running && self.in_flight > 0 {
                (self.in_flight - 1) as nat
            } else {
                self.in_flight
            },
            ..self
        }
    }

    /// The request to run for test case `index`: the submitted code, with
    /// the input of the test case on standard input.
    pub open spec fn job(self, index: int) -> ExecuteCodeRequestView {
        ExecuteCodeRequestView {
            code: self.code,
            language: self.language,
            input: Some(self.cases[index].input),
            timeout_seconds: Some(self.timeout_seconds),
        }
    }

    /// The results of a complete evaluation, in the order of the test
    /// cases.
    pub open spec fn results(self) -> Seq<TestCaseResultView> {
        Seq::new(
            self.slots.len(),
            |i: int|
                match self.slots[i] {
                    SlotView::Done(result) => result,
                    _ => arbitrary(),
                },
        )
    }
}

/// The evaluation of `code` against `cases` before anything is handed out.
pub open spec fn initial(
    code: Seq<char>,
    language: Language,
    cases: Seq<TestCaseView>,
    config: EngineConfig,
) -> EvaluationView {
    EvaluationView {
        code,
        language,
        timeout_seconds: timeout_for(config, None),
        limit: concurrency_of(config) as nat,
        cases,
        slots: Seq::new(cases.len(), |i: int| SlotView::Waiting),
        started: 0,
        in_flight: 0,
    }
}

/// The failure with which a report on a test case is refused that has no
/// run out.
pub open spec fn stray_report() -> AppErrorView {
    AppErrorView { kind: ErrorKind::Internal, detail: "No execution is in flight for this test case"@ }
}

/// Filling one slot changes the count of runs that are out by what left
/// and what came.
pub proof fn lemma_count_running_update(slots: Seq<SlotView>, index: int, slot: SlotView)
    requires
        0 <= index < slots.len(),
    ensures
        count_running(slots.update(index, slot)) + (if slots[index] is Running {
            1nat
        } else {
            0nat
        }) == count_running(slots) + (if slot is Running {
            1nat
        } else {
            0nat
        }),
    decreases slots.len(),
{
    let updated = slots.update(index, slot);
    if index == slots.len() - 1 {
        assert(updated.drop_last() =~= slots.drop_last());
    } else {
        assert(updated.drop_last() =~= slots.drop_last().update(index, slot));
        lemma_count_running_update(slots.drop_last(), index, slot);
    }
}

/// Where every slot waits, no run is out.
pub proof fn lemma_count_running_waiting(slots: Seq<SlotView>)
    requires
        forall|i: int| 0 <= i < slots.len() ==> (#[trigger] slots[i]) is Waiting,
    ensures
        count_running(slots) == 0,
    decreases slots.len(),
{
    if slots.len() > 0 {
        lemma_count_running_waiting(slots.drop_last());
    }
}

/// An evaluation under way.
#[derive(Debug)]
pub struct Evaluation {
    code: String,
    language: Language,
    timeout_seconds: u64,
    limit: usize,
    test_cases: Vec<TestCase>,
    slots: Vec<Slot>,
    started: usize,
    in_flight: usize,
}

impl View for Evaluation {
    type V = EvaluationView;

    closed spec fn view(&self) -> EvaluationView {
        EvaluationView {
            code: self.code@,
            language: self.language,
            timeout_seconds: self.timeout_seconds,
            limit: self.limit as nat,
            cases: case_views(self.test_cases@),
            slots: slot_views(self.slots@),
            started: self.started as nat,
            in_flight: self.in_flight as nat,
        }
    }
}

fn clone_result(result: &TestCaseResult) -> (r: TestCaseResult)
    ensures
        r@ == result@,
{
    TestCaseResult {
        test_case_id: result.test_case_id.clone(),
        passed: result.passed,
        actual_output: result.actual_output.clone(),
        expected_output: result.expected_output.clone(),
        description: clone_text(&result.description),
        is_hidden: result.is_hidden,
        error: clone_text(&result.error),
        points_awarded: result.points_awarded,
        points_possible: result.points_possible,
    }
}

impl Evaluation {
    /// What holds of every evaluation that [`Evaluation::begin`] made and
    /// its methods changed.
    pub open spec fn inv(&self) -> bool {
        self@.well_formed()
    }

    /// Starts the evaluation of `code` against `test_cases`.
    ///
    /// Empty code is rejected, and so is an empty list of test cases;
    /// nothing is run for either. Otherwise every test case waits, in the
    /// order given, and the limits are those of `config`.
    pub fn begin(
        code: String,
        language: Language,
        test_cases: Vec<TestCase>,
        config: &EngineConfig,
    ) -> (r: Result<Evaluation, AppError>)
        ensures
            match r {
                Ok(evaluation) => {
                    &&& refusal(code@, test_cases@.len()) is None
                    &&& evaluation.inv()
                    &&& evaluation@ == initial(code@, language, case_views(test_cases@), *config)
                },
                Err(e) => refusal(code@, test_cases@.len()) == Some(e@),
            },
    {
        if code.as_str().is_empty() {
            return Err(AppError::Validation("Code cannot be empty".to_string()));
        }
        if test_cases.len() == 0 {
            return Err(AppError::Validation("At least one test case is required".to_string()));
        }
        let mut slots: Vec<Slot> = Vec::new();
        let mut i: usize = 0;
        while i < test_cases.len()
            invariant
                i <= test_cases.len(),
                slots@.len() == i,
                forall|j: int| 0 <= j < i ==> (#[trigger] slots@[j]) is Waiting,
            decreases test_cases.len() - i,
        {
            slots.push(Slot::Waiting);
            i = i + 1;
        }
        let evaluation = Evaluation {
            code,
            language,
            timeout_seconds: config.effective_timeout(None),
            limit: config.concurrency(),
            test_cases,
            slots,
            started: 0,
            in_flight: 0,
        };
        proof {
            let target = initial(code@, language, case_views(test_cases@), *config);
            assert(evaluation@.slots =~= target.slots);
            lemma_count_running_waiting(evaluation@.slots);
        }
        Ok(evaluation)
    }

    /// Number of test cases.
    pub fn len(&self) -> (r: usize)
        requires
            self.inv(),
        ensures
            r == self@.cases.len(),
    {
        self.test_cases.len()
    }

    /// Number of runs that are out.
    pub fn in_flight(&self) -> (r: usize)
        requires
            self.inv(),
        ensures
            r == self@.in_flight,
            r == self@.running(),
            r <= self@.limit,
    {
        self.in_flight
    }

    /// Hands out the next test case, if one is waiting and the ceiling
    /// leaves room.
    ///
    /// Test cases are handed out in their order and each only once. With
    /// the position of the test case comes the request to run for it. A
    /// test case that finds no room waits for a run to come back.
    pub fn start_next(&mut self) -> (r: Option<(usize, ExecuteCodeRequest)>)
        requires
            old(self).inv(),
        ensures
            final(self).inv(),
            match r {
                Some((index, request)) => {
                    &&& old(self)@.can_start()
                    &&& index == old(self)@.started
                    &&& request@ == old(self)@.job(index as int)
                    &&& final(self)@ == old(self)@.after_start()
                },
                None => !old(self)@.can_start() && final(self)@ == old(self)@,
            },
    {
        if self.started >= self.test_cases.len() || self.in_flight >= self.limit {
            return None;
        }
        let index = self.started;
        let request = ExecuteCodeRequest {
            code: self.code.clone(),
            language: self.language,
            input: Some(self.test_cases[index].input.clone()),
            timeout_seconds: Some(self.timeout_seconds),
        };
        proof {
            lemma_count_running_update(self@.slots, index as int, SlotView::Running);
            assert(self@.slots[index as int] is Waiting);
        }
        let ghost before = self@;
        self.slots.set(index, Slot::Running);
        self.started = self.started + 1;
        self.in_flight = self.in_flight + 1;
        proof {
            assert(self@.slots =~= before.slots.update(index as int, SlotView::Running));
            assert(self@ == before.after_start());
        }
        Some((index, request))
    }

    /// Files the verdict on test case `index`, whose run has come back.
    ///
    /// The test case is graded and its result filed at its own position,
    /// whichever runs came back before. A report on a test case that has
    /// no run out is refused and changes nothing: no test case is graded
    /// twice, and none that was never run.
    pub fn record_verdict(
        &mut self,
        index: usize,
        passed: bool,
        actual_output: String,
        error: Option<String>,
    ) -> (r: Result<(), AppError>)
        requires
            old(self).inv(),
        ensures
            final(self).inv(),
            match r {
                Ok(()) => {
                    &&& index < old(self)@.slots.len()
                    &&& old(self)@.slots[index as int] is Running
                    &&& final(self)@ == old(self)@.recorded(
                        index as int,
                        Verdict { passed, actual_output: actual_output@, error: text_of(error) },
                    )
                },
                Err(e) => {
                    &&& !(index < old(self)@.slots.len() && old(self)@.slots[index as int] is Running)
                    &&& final(self)@ == old(self)@
                    &&& e@ == stray_report()
                },
            },
    {
        if index >= self.slots.len() {
            return Err(AppError::Internal("No execution is in flight for this test case".to_string()));
        }
        let is_running = match &self.slots[index] {
            Slot::Running => true,
            _ => false,
        };
        if !is_running {
            return Err(AppError::Internal("No execution is in flight for this test case".to_string()));
        }
        let result = grade_test(
            &self.test_cases[index],
            passed,
            actual_output,
            error,
        );
        let ghost before = self@;
        let ghost filed = SlotView::Done(result@);
        proof {
            lemma_count_running_update(before.slots, index as int, filed);
        }
        self.slots.set(index, Slot::Done(result));
        self.in_flight = self.in_flight - 1;
        proof {
            assert(self@.slots =~= before.slots.update(index as int, filed));
        }
        Ok(())
    }

    /// Files the run of test case `index`: the run is judged against what
    /// the test case expects, and the verdict filed as
    /// [`Evaluation::record_verdict`] does.
    pub fn record(&mut self, index: usize, outcome: &ExecutionResult) -> (r: Result<(), AppError>)
        requires
            old(self).inv(),
        ensures
            final(self).inv(),
            match r {
                Ok(()) => {
                    &&& index < old(self)@.slots.len()
                    &&& old(self)@.slots[index as int] is Running
                    &&& final(self)@ == old(self)@.recorded(
                        index as int,
                        verdict_of(outcome@, old(self)@.cases[index as int].expected_output),
                    )
                },
                Err(e) => {
                    &&& !(index < old(self)@.slots.len() && old(self)@.slots[index as int] is Running)
                    &&& final(self)@ == old(self)@
                    &&& e@ == stray_report()
                },
            },
    {
        if index >= self.test_cases.len() {
            return Err(AppError::Internal("No execution is in flight for this test case".to_string()));
        }
        let (passed, actual_output, error) = judge(
            outcome,
            self.test_cases[index].expected_output.as_str(),
        );
        self.record_verdict(index, passed, actual_output, error)
    }

    /// Whether every test case is graded.
    pub fn is_complete(&self) -> (r: bool)
        requires
            self.inv(),
        ensures
            r == self@.complete(),
    {
        let mut i: usize = 0;
        while i < self.slots.len()
            invariant
                i <= self.slots.len(),
                forall|j: int| 0 <= j < i ==> (#[trigger] slot_views(self.slots@)[j]) is Done,
            decreases self.slots.len() - i,
        {
            match &self.slots[i] {
                Slot::Done(_) => {},
                _ => {
                    assert(!(slot_views(self.slots@)[i as int] is Done));
                    return false;
                },
            }
            i = i + 1;
        }
        true
    }

    /// Sums up a complete evaluation under `submission_id`.
    ///
    /// The results stand in the order of the test cases, one for each. An
    /// evaluation that is not complete has no summary.
    pub fn finish(&self, submission_id: String) -> (r: Option<EvaluationResult>)
        requires
            self.inv(),
        ensures
            match r {
                Some(result) => self@.complete() && result@ == summary_of(
                    self@.results(),
                    submission_id@,
                ),
                None => !self@.complete(),
            },
    {
        let mut results: Vec<TestCaseResult> = Vec::new();
        let mut i: usize = 0;
        while i < self.slots.len()
            invariant
                i <= self.slots.len(),
                self.inv(),
                results@.len() == i,
                forall|j: int| 0 <= j < i ==> (#[trigger] slot_views(self.slots@)[j]) is Done,
                forall|j: int|
                    0 <= j < i ==> SlotView::Done((#[trigger] results@[j])@) == slot_views(
                        self.slots@,
                    )[j],
            decreases self.slots.len() - i,
        {
            match &self.slots[i] {
                Slot::Done(result) => {
                    results.push(clone_result(result));
                },
                _ => {
                    assert(!(slot_views(self.slots@)[i as int] is Done));
                    return None;
                },
            }
            i = i + 1;
        }
        proof {
            assert(result_views(results@) =~= self@.results());
            assert forall|j: int| 0 <= j < results@.len() implies (#[trigger] result_views(
                results@,
            )[j]).well_formed() by {
                assert(self@.slots[j] is Done);
            }
        }
        Some(summarize(results, submission_id))
    }
}

} // verus!
