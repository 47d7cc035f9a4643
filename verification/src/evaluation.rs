//! Grading one submission against its test cases: per-test results, totals,
//! percentage and feedback.
//!
//! Points are counted in thousandths of a point and percentages in
//! thousandths of a percent, so that every sum and quotient is exact.

use vstd::prelude::*;

pub mod engine;
pub mod laws;

use crate::error::{AppError, AppErrorView, ErrorKind};
use crate::execution::simulate::{canned_result, canned_run, simulate_execution, CANNED_MEMORY_KB};
use crate::execution::{ExecutionResult, ExecutionResultView, ExecutionStatus, Language};
use crate::ids::{is_submission_id, new_submission_id};
use crate::text::{
    clone_text, contains, count_to_string, decimal_text, has_infix, same_text, same_trimmed,
    text_of, trimmed,
};

verus! {

/// Points of a test case that names none: one point.
pub const DEFAULT_POINTS: u32 = 1000;

/// One hundred percent, in thousandths of a percent.
pub const FULL_PERCENTAGE: u32 = 100000;

/// A test case: the input to feed and the output to expect.
#[derive(Debug, Clone)]
pub struct TestCase {
    pub id: String,
    pub input: String,
    pub expected_output: String,
    pub description: Option<String>,
    pub is_hidden: bool,
    /// Thousandths of a point; one point where absent.
    pub points: Option<u32>,
}

/// A submission to grade. Where it brings no test cases, the caller fetches
/// those of the assignment.
#[derive(Debug, Clone)]
pub struct EvaluationRequest {
    pub code: String,
    pub language: Language,
    pub assignment_id: String,
    pub test_cases: Option<Vec<TestCase>>,
}

/// The outcome of one test case.
#[derive(Debug, Clone)]
pub struct TestCaseResult {
    pub test_case_id: String,
    pub passed: bool,
    pub actual_output: String,
    /// Empty for a hidden test case.
    pub expected_output: String,
    pub description: Option<String>,
    pub is_hidden: bool,
    pub error: Option<String>,
    /// Thousandths of a point: all of `points_possible` or none.
    pub points_awarded: u32,
    pub points_possible: u32,
}

/// The outcome of a whole evaluation.
#[derive(Debug, Clone)]
pub struct EvaluationResult {
    pub submission_id: String,
    pub execution_status: ExecutionStatus,
    pub test_results: Vec<TestCaseResult>,
    /// Thousandths of a point.
    pub total_points: u128,
    /// Thousandths of a point.
    pub maximum_points: u128,
    /// Thousandths of a percent, rounded down.
    pub percentage: u32,
    pub feedback: String,
}

/// Mathematical content of a [`TestCase`].
pub struct TestCaseView {
    pub id: Seq<char>,
    pub input: Seq<char>,
    pub expected_output: Seq<char>,
    pub description: Option<Seq<char>>,
    pub is_hidden: bool,
    pub points: Option<u32>,
}

impl View for TestCase {
    type V = TestCaseView;

    open spec fn view(&self) -> TestCaseView {
        TestCaseView {
            id: self.id@,
            input: self.input@,
            expected_output: self.expected_output@,
            description: text_of(self.description),
            is_hidden: self.is_hidden,
            points: self.points,
        }
    }
}

/// Mathematical content of a [`TestCaseResult`].
pub struct TestCaseResultView {
    pub test_case_id: Seq<char>,
    pub passed: bool,
    pub actual_output: Seq<char>,
    pub expected_output: Seq<char>,
    pub description: Option<Seq<char>>,
    pub is_hidden: bool,
    pub error: Option<Seq<char>>,
    pub points_awarded: u32,
    pub points_possible: u32,
}

impl View for TestCaseResult {
    type V = TestCaseResultView;

    open spec fn view(&self) -> TestCaseResultView {
        TestCaseResultView {
            test_case_id: self.test_case_id@,
            passed: self.passed,
            actual_output: self.actual_output@,
            expected_output: self.expected_output@,
            description: text_of(self.description),
            is_hidden: self.is_hidden,
            error: text_of(self.error),
            points_awarded: self.points_awarded,
            points_possible: self.points_possible,
        }
    }
}

/// The views of a sequence of test cases, in order.
pub open spec fn case_views(cases: Seq<TestCase>) -> Seq<TestCaseView> {
    cases.map_values(|c: TestCase| c@)
}

/// The views of a sequence of results, in order.
pub open spec fn result_views(results: Seq<TestCaseResult>) -> Seq<TestCaseResultView> {
    results.map_values(|r: TestCaseResult| r@)
}

/// Mathematical content of an [`EvaluationResult`].
pub struct EvaluationResultView {
    pub submission_id: Seq<char>,
    pub execution_status: ExecutionStatus,
    pub test_results: Seq<TestCaseResultView>,
    pub total_points: nat,
    pub maximum_points: nat,
    pub percentage: nat,
    pub feedback: Seq<char>,
}

impl View for EvaluationResult {
    type V = EvaluationResultView;

    open spec fn view(&self) -> EvaluationResultView {
        EvaluationResultView {
            submission_id: self.submission_id@,
            execution_status: self.execution_status,
            test_results: result_views(self.test_results@),
            total_points: self.total_points as nat,
            maximum_points: self.maximum_points as nat,
            percentage: self.percentage as nat,
            feedback: self.feedback@,
        }
    }
}

/// What one execution told about one test: whether it passed, what the
/// program printed, and what went wrong if anything did.
pub struct Verdict {
    pub passed: bool,
    pub actual_output: Seq<char>,
    pub error: Option<Seq<char>>,
}

/// Points a test case is worth.
pub open spec fn points_possible(case: TestCaseView) -> u32 {
    match case.points {
        Some(p) => p,
        None => DEFAULT_POINTS,
    }
}

/// The result of `case` under `verdict`: all points or none, and the
/// expected output of a hidden case blanked, passed or not.
pub open spec fn graded(case: TestCaseView, verdict: Verdict) -> TestCaseResultView {
    TestCaseResultView {
        test_case_id: case.id,
        passed: verdict.passed,
        actual_output: verdict.actual_output,
        expected_output: if case.is_hidden {
            Seq::empty()
        } else {
            case.expected_output
        },
        description: case.description,
        is_hidden: case.is_hidden,
        error: verdict.error,
        points_awarded: if verdict.passed {
            points_possible(case)
        } else {
            0
        },
        points_possible: points_possible(case),
    }
}

/// Sum of the points awarded over `results`.
pub open spec fn sum_awarded(results: Seq<TestCaseResultView>) -> nat
    decreases results.len(),
{
    if results.len() == 0 {
        0
    } else {
        sum_awarded(results.drop_last()) + results.last().points_awarded as nat
    }
}

/// Sum of the points possible over `results`.
pub open spec fn sum_possible(results: Seq<TestCaseResultView>) -> nat
    decreases results.len(),
{
    if results.len() == 0 {
        0
    } else {
        sum_possible(results.drop_last()) + results.last().points_possible as nat
    }
}

/// Number of passed tests among `results`.
pub open spec fn count_passed(results: Seq<TestCaseResultView>) -> nat
    decreases results.len(),
{
    if results.len() == 0 {
        0
    } else {
        count_passed(results.drop_last()) + if results.last().passed {
            1nat
        } else {
            0nat
        }
    }
}

/// Share of `maximum` that `total` makes, in thousandths of a percent and
/// rounded down; zero where nothing could be won.
pub open spec fn percentage_of(total: nat, maximum: nat) -> nat {
    if maximum == 0 {
        0
    } else {
        (100000 * total) / maximum
    }
}

/// The feedback for `passed` of `total` tests at `percentage` thousandths of
/// a percent.
pub open spec fn feedback_text(passed: nat, total: nat, percentage: nat) -> Seq<char> {
    if passed == total {
        "Excellent! All tests passed."@
    } else if percentage >= 80000 {
        "Good job! You passed "@ + decimal_text(passed) + "/"@ + decimal_text(total) + " tests."@
    } else if percentage >= 50000 {
        "You're on the right track, but there are still some issues. You passed "@ + decimal_text(
            passed,
        ) + "/"@ + decimal_text(total) + " tests."@
    } else {
        "Your solution needs more work. Review the test cases and try again."@
    }
}

/// The summary of the graded `results` under the id `submission_id`.
///
/// The results stand as they are. The totals are their sums, the percentage
/// is the share of the maximum that was won, and the feedback follows from
/// the count of passed tests and the percentage. The status is `Success`,
/// however many tests failed.
pub open spec fn summary_of(
    results: Seq<TestCaseResultView>,
    submission_id: Seq<char>,
) -> EvaluationResultView {
    EvaluationResultView {
        submission_id,
        execution_status: ExecutionStatus::Success,
        test_results: results,
        total_points: sum_awarded(results),
        maximum_points: sum_possible(results),
        percentage: percentage_of(sum_awarded(results), sum_possible(results)),
        feedback: feedback_text(
            count_passed(results),
            results.len(),
            percentage_of(sum_awarded(results), sum_possible(results)),
        ),
    }
}

/// The results of `cases` under `verdicts`, case by case and in the order of
/// the cases.
pub open spec fn graded_all(cases: Seq<TestCaseView>, verdicts: Seq<Verdict>) -> Seq<
    TestCaseResultView,
> {
    Seq::new(cases.len(), |i: int| graded(cases[i], verdicts[i]))
}

impl TestCaseResultView {
    /// Grading is all or nothing: a passed test is awarded what it is worth,
    /// a failed one nothing.
    pub open spec fn well_formed(self) -> bool {
        self.points_awarded == if self.passed {
            self.points_possible
        } else {
            0
        }
    }
}

/// Whether every result of `results` is graded all or nothing.
pub open spec fn all_well_formed(results: Seq<TestCaseResultView>) -> bool {
    forall|i: int| 0 <= i < results.len() ==> (#[trigger] results[i]).well_formed()
}

/// The sums over a sequence of results are bounded by its length, and what
/// is awarded never exceeds what is possible.
pub proof fn lemma_sum_bounds(results: Seq<TestCaseResultView>)
    requires
        all_well_formed(results),
    ensures
        sum_awarded(results) <= sum_possible(results),
        sum_possible(results) <= results.len() * u32::MAX,
        count_passed(results) <= results.len(),
    decreases results.len(),
{
    if results.len() > 0 {
        let init = results.drop_last();
        assert forall|i: int| 0 <= i < init.len() implies (#[trigger] init[i]).well_formed() by {
            assert(init[i] == results[i]);
        }
        lemma_sum_bounds(init);
        assert(results.last() == results[results.len() - 1]);
        assert(results.last().well_formed());
        assert(results.len() * u32::MAX == init.len() * u32::MAX + u32::MAX) by (nonlinear_arith)
            requires
                results.len() == init.len() + 1,
        ;
    }
}

/// Points a test case is worth: its own, or one point where it names none.
pub fn points_for(case: &TestCase) -> (r: u32)
    ensures
        r == points_possible(case@),
{
    match case.points {
        Some(p) => p,
        None => DEFAULT_POINTS,
    }
}

/// Grades one test case from what its execution told.
///
/// The result carries the id and description of the case. A passed case is
/// awarded its points, a failed one none. The expected output of a hidden
/// case is replaced by the empty text whether it passed or not; what the
/// program printed is kept either way.
pub fn grade_test(
    case: &TestCase,
    passed: bool,
    actual_output: String,
    error: Option<String>,
) -> (r: TestCaseResult)
    ensures
        r@ == graded(
            case@,
            Verdict { passed, actual_output: actual_output@, error: text_of(error) },
        ),
        r@.well_formed(),
{
    let possible = points_for(case);
    TestCaseResult {
        test_case_id: case.id.clone(),
        passed,
        actual_output,
        expected_output: if case.is_hidden {
            String::new()
        } else {
            case.expected_output.clone()
        },
        description: clone_text(&case.description),
        is_hidden: case.is_hidden,
        error,
        points_awarded: if passed {
            possible
        } else {
            0
        },
        points_possible: possible,
    }
}

/// Number of passed tests among `test_results`.
pub fn passed_count(test_results: &[TestCaseResult]) -> (r: usize)
    ensures
        r == count_passed(result_views(test_results@)),
{
    let ghost views = result_views(test_results@);
    let mut count: usize = 0;
    let mut i: usize = 0;
    while i < test_results.len()
        invariant
            i <= test_results.len(),
            views == result_views(test_results@),
            count == count_passed(views.take(i as int)),
            count <= i,
        decreases test_results.len() - i,
    {
        proof {
            assert(views.take(i + 1).drop_last() =~= views.take(i as int));
            assert(views.take(i + 1).last() == test_results@[i as int]@);
        }
        if test_results[i].passed {
            count = count + 1;
        }
        i = i + 1;
    }
    proof {
        assert(views.take(i as int) =~= views);
    }
    count
}

/// Renders the feedback for a graded submission.
///
/// All tests passed: congratulations. Otherwise, from eighty percent on,
/// praise with the count; from fifty percent on, encouragement with the
/// count; below that, a plain request to try again. `percentage` is in
/// thousandths of a percent.
pub fn generate_feedback(test_results: &[TestCaseResult], percentage: u32) -> (r: String)
    ensures
        r@ == feedback_text(
            count_passed(result_views(test_results@)),
            test_results@.len(),
            percentage as nat,
        ),
{
    let passed = passed_count(test_results);
    let total = test_results.len();
    if passed == total {
        "Excellent! All tests passed.".to_string()
    } else if percentage >= 80000 {
        let mut text = "Good job! You passed ".to_string();
        text.append(count_to_string(passed).as_str());
        text.append("/");
        text.append(count_to_string(total).as_str());
        text.append(" tests.");
        text
    } else if percentage >= 50000 {
        let mut text =
            "You're on the right track, but there are still some issues. You passed ".to_string();
        text.append(count_to_string(passed).as_str());
        text.append("/");
        text.append(count_to_string(total).as_str());
        text.append(" tests.");
        text
    } else {
        "Your solution needs more work. Review the test cases and try again.".to_string()
    }
}

/// Computes the percentage that `total` makes of `maximum`, in thousandths of
/// a percent and rounded down; zero where `maximum` is zero.
fn share_of(total: u128, maximum: u128) -> (r: u32)
    requires
        total <= maximum,
        maximum <= usize::MAX * u32::MAX,
    ensures
        r == percentage_of(total as nat, maximum as nat),
        r <= FULL_PERCENTAGE,
{
    if maximum == 0 {
        0
    } else {
        assert(100000 * total <= 100000 * maximum <= u128::MAX) by (nonlinear_arith)
            requires
                total <= maximum,
                maximum <= usize::MAX * u32::MAX,
                usize::MAX <= u64::MAX,
        ;
        let scaled: u128 = 100000 * total;
        let share: u128 = scaled / maximum;
        assert(share <= 100000) by (nonlinear_arith)
            requires
                share == scaled / maximum,
                scaled <= 100000 * maximum,
                maximum > 0,
        ;
        share as u32
    }
}

/// Sums up a graded submission.
///
/// The results are kept as they are and in their order. The totals are the
/// sums of the points awarded and possible, the percentage is the exact
/// share rounded down to a thousandth of a percent (zero where nothing could
/// be won), and the feedback follows from the count of passed tests and the
/// percentage. A graded submission is a successful evaluation, however many
/// tests failed.
pub fn summarize(test_results: Vec<TestCaseResult>, submission_id: String) -> (r: EvaluationResult)
    requires
        all_well_formed(result_views(test_results@)),
    ensures
        r@ == summary_of(result_views(test_results@), submission_id@),
        r.test_results@ == test_results@,
        r.percentage <= FULL_PERCENTAGE,
{
    let ghost views = result_views(test_results@);
    let mut total_points: u128 = 0;
    let mut maximum_points: u128 = 0;
    let mut i: usize = 0;
    while i < test_results.len()
        invariant
            i <= test_results.len(),
            views == result_views(test_results@),
            all_well_formed(views),
            total_points == sum_awarded(views.take(i as int)),
            maximum_points == sum_possible(views.take(i as int)),
            maximum_points <= i * u32::MAX,
        decreases test_results.len() - i,
    {
        proof {
            assert(views.take(i + 1).drop_last() =~= views.take(i as int));
            assert(views.take(i + 1).last() == test_results@[i as int]@);
            assert(views[i as int].well_formed());
            lemma_sum_bounds(views.take(i as int));
            assert((i + 1) * u32::MAX == i * u32::MAX + u32::MAX) by (nonlinear_arith);
            assert(i * u32::MAX <= u64::MAX * u32::MAX) by (nonlinear_arith)
                requires
                    i <= u64::MAX,
            ;
        }
        total_points = total_points + test_results[i].points_awarded as u128;
        maximum_points = maximum_points + test_results[i].points_possible as u128;
        i = i + 1;
    }
    proof {
        assert(views.take(i as int) =~= views);
        lemma_sum_bounds(views);
        assert(i * u32::MAX <= usize::MAX * u32::MAX) by (nonlinear_arith)
            requires
                i <= usize::MAX,
        ;
    }
    let share = share_of(total_points, maximum_points);
    let feedback = generate_feedback(test_results.as_slice(), share);
    EvaluationResult {
        submission_id,
        execution_status: ExecutionStatus::Success,
        test_results,
        total_points,
        maximum_points,
        percentage: share,
        feedback,
    }
}

/// The comparison rule: two outputs match when they are equal once white
/// space is cut from both ends of each.
pub open spec fn outputs_match(actual: Seq<char>, expected: Seq<char>) -> bool {
    trimmed(actual) == trimmed(expected)
}

/// What is reported as the error of a run that ended in `status`: a fixed
/// message where the sandbox killed the program, and else what the program
/// or its compiler wrote to standard error.
pub open spec fn failure_text(status: ExecutionStatus, stderr: Seq<char>) -> Seq<char> {
    match status {
        ExecutionStatus::Timeout => "Error: Execution timed out"@,
        ExecutionStatus::MemoryLimitExceeded => "Error: Memory limit exceeded"@,
        _ => stderr,
    }
}

/// What a run tells about a test that expects `expected`.
///
/// The test passes if and only if the run succeeded and its output matches.
/// A run that did not succeed has no output to show, and its error says why.
pub open spec fn verdict_of(outcome: ExecutionResultView, expected: Seq<char>) -> Verdict {
    if outcome.status == ExecutionStatus::Success {
        Verdict {
            passed: outputs_match(outcome.stdout, expected),
            actual_output: outcome.stdout,
            error: None,
        }
    } else {
        Verdict {
            passed: false,
            actual_output: Seq::empty(),
            error: Some(failure_text(outcome.status, outcome.stderr)),
        }
    }
}

/// The view of a verdict held as the triple of pass flag, output and error.
pub open spec fn verdict_view(v: (bool, String, Option<String>)) -> Verdict {
    Verdict { passed: v.0, actual_output: v.1@, error: text_of(v.2) }
}

/// Whether `actual` and `expected` match under the comparison rule.
pub fn compare_outputs(actual: &str, expected: &str) -> (r: bool)
    ensures
        r == outputs_match(actual@, expected@),
{
    same_trimmed(actual, expected)
}

/// Judges one test from the run made for it: pass flag, output to show, and
/// error if the run did not succeed.
pub fn judge(outcome: &ExecutionResult, expected_output: &str) -> (r: (
    bool,
    String,
    Option<String>,
))
    ensures
        verdict_view(r) == verdict_of(outcome@, expected_output@),
{
    match outcome.status {
        ExecutionStatus::Success => (
            compare_outputs(outcome.stdout.as_str(), expected_output),
            outcome.stdout.clone(),
            None,
        ),
        ExecutionStatus::Timeout => (
            false,
            String::new(),
            Some("Error: Execution timed out".to_string()),
        ),
        ExecutionStatus::MemoryLimitExceeded => (
            false,
            String::new(),
            Some("Error: Memory limit exceeded".to_string()),
        ),
        _ => (false, String::new(), Some(outcome.stderr.clone())),
    }
}

/// Length of `s` in bytes once encoded as UTF-8.
pub open spec fn byte_length(s: Seq<char>) -> nat {
    vstd::utf8::encode_utf8(s).len()
}

/// The marker whose presence makes the canned program of a test fail while
/// it runs.
pub open spec fn runtime_failure_marker(language: Language) -> Seq<char> {
    match language {
        Language::Python => "runtime error"@,
        _ => "error"@,
    }
}

/// What the canned program of a test writes to standard error when it
/// fails while it runs.
pub open spec fn runtime_diagnostic(language: Language) -> Seq<char> {
    match language {
        Language::Python => "RuntimeError: error occurred during execution"@,
        _ => "Error in code execution"@,
    }
}

/// What the canned program of a test prints where it runs to its end.
///
/// Python: a program that prints answers `42` to an input that holds it and
/// greets an input that holds `hello`; any other program prints `Pass`.
/// Other languages: the program prints what the test expects where the
/// input has an even number of bytes, and `Incorrect output` where not.
pub open spec fn canned_test_output(
    language: Language,
    code: Seq<char>,
    input: Seq<char>,
    expected: Seq<char>,
) -> Seq<char> {
    match language {
        Language::Python => {
            if has_infix(input, "42"@) && has_infix(code, "print("@) {
                "42\n"@
            } else if has_infix(input, "hello"@) && has_infix(code, "print("@) {
                "Hello, World!\n"@
            } else {
                "Pass"@
            }
        },
        _ => {
            if byte_length(input) % 2 == 0 {
                expected
            } else {
                "Incorrect output"@
            }
        },
    }
}

/// The canned run made for a test.
///
/// A snippet that the canned sandbox does not run to its end, because it
/// does not build or never ends, gives the run that the canned sandbox
/// gives. Else a marked failure ends the run with a runtime error. Else the
/// run succeeds with the canned output of the test.
pub open spec fn canned_test_run(
    language: Language,
    code: Seq<char>,
    input: Seq<char>,
    expected: Seq<char>,
) -> ExecutionResultView {
    if canned_run(language, code).2 != ExecutionStatus::Success {
        canned_result(language, code, 0)
    } else if has_infix(code, runtime_failure_marker(language)) {
        ExecutionResultView {
            stdout: Seq::empty(),
            stderr: runtime_diagnostic(language),
            execution_time_ms: 0,
            status: ExecutionStatus::RuntimeError,
            memory_usage_kb: Some(CANNED_MEMORY_KB),
        }
    } else {
        ExecutionResultView {
            stdout: canned_test_output(language, code, input, expected),
            stderr: Seq::empty(),
            execution_time_ms: 0,
            status: ExecutionStatus::Success,
            memory_usage_kb: Some(CANNED_MEMORY_KB),
        }
    }
}

/// The canned verdict on a test: the verdict on its canned run, by the
/// rule that holds of every run. The test passes if and only if the run
/// succeeded and its output matches what the test expects; a run that did
/// not succeed shows no output and says why.
pub open spec fn canned_verdict(
    language: Language,
    code: Seq<char>,
    input: Seq<char>,
    expected: Seq<char>,
) -> Verdict {
    verdict_of(canned_test_run(language, code, input, expected), expected)
}

/// Makes the canned run for one test case, answered from the source text
/// and the input.
pub fn simulate_test_run(code: &str, language: &Language, input: &str, expected_output: &str) -> (r:
    ExecutionResult)
    ensures
        r@ == canned_test_run(*language, code@, input@, expected_output@),
{
    let (stdout, stderr, status) = simulate_execution(*language, code, Some(input));
    match status {
        ExecutionStatus::Success => {},
        _ => {
            return ExecutionResult {
                stdout,
                stderr,
                execution_time_ms: 0,
                status,
                memory_usage_kb: Some(CANNED_MEMORY_KB),
            };
        },
    }
    let python = match language {
        Language::Python => true,
        _ => false,
    };
    let failed = if python {
        contains(code, "runtime error")
    } else {
        contains(code, "error")
    };
    if failed {
        return ExecutionResult {
            stdout: String::new(),
            stderr: if python {
                "RuntimeError: error occurred during execution".to_string()
            } else {
                "Error in code execution".to_string()
            },
            execution_time_ms: 0,
            status: ExecutionStatus::RuntimeError,
            memory_usage_kb: Some(CANNED_MEMORY_KB),
        };
    }
    let printed = if python {
        if contains(input, "42") && contains(code, "print(") {
            "42\n".to_string()
        } else if contains(input, "hello") && contains(code, "print(") {
            "Hello, World!\n".to_string()
        } else {
            "Pass".to_string()
        }
    } else if input.as_bytes().len() % 2 == 0 {
        expected_output.to_string()
    } else {
        "Incorrect output".to_string()
    };
    ExecutionResult {
        stdout: printed,
        stderr: String::new(),
        execution_time_ms: 0,
        status: ExecutionStatus::Success,
        memory_usage_kb: Some(CANNED_MEMORY_KB),
    }
}

/// Canned execution of one test case: the stand-in for a sandboxed run and
/// its comparison. The canned run is judged as every run is.
pub fn simulate_test_case_execution(
    code: &str,
    language: &Language,
    input: &str,
    expected_output: &str,
) -> (r: (bool, String, Option<String>))
    ensures
        verdict_view(r) == canned_verdict(*language, code@, input@, expected_output@),
{
    let run = simulate_test_run(code, language, input, expected_output);
    judge(&run, expected_output)
}

/// The canned verdicts on `cases`, in their order.
pub open spec fn canned_verdicts(language: Language, code: Seq<char>, cases: Seq<TestCaseView>) -> Seq<
    Verdict,
> {
    Seq::new(
        cases.len(),
        |i: int| canned_verdict(language, code, cases[i].input, cases[i].expected_output),
    )
}

/// The failure with which an input is rejected before anything is run.
pub open spec fn rejection(detail: Seq<char>) -> AppErrorView {
    AppErrorView { kind: ErrorKind::Validation, detail }
}

/// Why an evaluation of `code` against `cases` test cases is refused, if it
/// is: empty code first, then an empty list of test cases.
pub open spec fn refusal(code: Seq<char>, cases: nat) -> Option<AppErrorView> {
    if code.len() == 0 {
        Some(rejection("Code cannot be empty"@))
    } else if cases == 0 {
        Some(rejection("At least one test case is required"@))
    } else {
        None
    }
}

/// Grades a submission against canned executions of its test cases.
///
/// Empty code is rejected, and so is an empty list of test cases, before
/// anything is run. Otherwise every test case is run once, in order, and
/// graded; the results come in the order of the test cases under a fresh
/// submission id.
pub fn evaluate_simulated(code: &str, language: Language, test_cases: &Vec<TestCase>) -> (r: Result<
    EvaluationResult,
    AppError,
>)
    ensures
        match r {
            Ok(res) => {
                &&& refusal(code@, test_cases@.len()) is None
                &&& is_submission_id(res.submission_id@)
                &&& res@ == summary_of(
                    graded_all(
                        case_views(test_cases@),
                        canned_verdicts(language, code@, case_views(test_cases@)),
                    ),
                    res.submission_id@,
                )
            },
            Err(e) => refusal(code@, test_cases@.len()) == Some(e@),
        },
{
    if code.is_empty() {
        return Err(AppError::Validation("Code cannot be empty".to_string()));
    }
    if test_cases.len() == 0 {
        return Err(AppError::Validation("At least one test case is required".to_string()));
    }
    let ghost cases = case_views(test_cases@);
    let ghost expected = graded_all(cases, canned_verdicts(language, code@, cases));
    let mut test_results: Vec<TestCaseResult> = Vec::new();
    let mut i: usize = 0;
    while i < test_cases.len()
        invariant
            i <= test_cases.len(),
            cases == case_views(test_cases@),
            expected == graded_all(cases, canned_verdicts(language, code@, cases)),
            test_results@.len() == i,
            forall|j: int| 0 <= j < i ==> (#[trigger] test_results@[j])@ == expected[j],
            forall|j: int| 0 <= j < i ==> (#[trigger] test_results@[j])@.well_formed(),
        decreases test_cases.len() - i,
    {
        let case = &test_cases[i];
        let (passed, actual_output, error) = simulate_test_case_execution(
            code,
            &language,
            case.input.as_str(),
            case.expected_output.as_str(),
        );
        let graded_case = grade_test(case, passed, actual_output, error);
        test_results.push(graded_case);
        i = i + 1;
    }
    proof {
        assert(result_views(test_results@) =~= expected);
    }
    Ok(summarize(test_results, new_submission_id()))
}

} // verus!
