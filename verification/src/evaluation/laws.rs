//! What holds of every grading, stated over the models that the contracts
//! of this crate use.

use vstd::prelude::*;
use crate::evaluation::engine::EvaluationView;
use crate::evaluation::{
    all_well_formed, canned_test_run, canned_verdict, graded, graded_all, lemma_sum_bounds,
    outputs_match, percentage_of, sum_awarded, sum_possible, summary_of, verdict_of,
    TestCaseResultView, TestCaseView, Verdict,
};
use crate::execution::simulate::{canned_run, compile_failure_marker, runs_forever};
use crate::execution::{ExecutionResultView, ExecutionStatus, Language};
use crate::text::has_infix;

verus! {

/// There is one result for each test case, in the order of the test cases:
/// the result at a position carries the id of the test case at that
/// position.
pub proof fn law_results_follow_cases(cases: Seq<TestCaseView>, verdicts: Seq<Verdict>)
    ensures
        graded_all(cases, verdicts).len() == cases.len(),
        forall|i: int|
            0 <= i < cases.len() ==> (#[trigger] graded_all(cases, verdicts)[i]).test_case_id
                == cases[i].id,
{
}

/// Grading is all or nothing: every result is awarded either what its test
/// case is worth or nothing.
pub proof fn law_all_or_nothing(cases: Seq<TestCaseView>, verdicts: Seq<Verdict>)
    ensures
        all_well_formed(graded_all(cases, verdicts)),
        forall|i: int|
            0 <= i < cases.len() ==> {
                let result = #[trigger] graded_all(cases, verdicts)[i];
                result.points_awarded == 0 || result.points_awarded == result.points_possible
            },
{
}

/// The total is the sum of the points awarded over the results, and the
/// maximum the sum of the points possible.
pub proof fn law_totals_are_sums(results: Seq<TestCaseResultView>, submission_id: Seq<char>)
    ensures
        summary_of(results, submission_id).total_points == sum_awarded(
            summary_of(results, submission_id).test_results,
        ),
        summary_of(results, submission_id).maximum_points == sum_possible(
            summary_of(results, submission_id).test_results,
        ),
{
}

/// The percentage is zero where nothing could be won. Otherwise it is the
/// share of the maximum that was won, times one hundred, to the thousandth
/// of a percent: it is the integer `p` with
/// `p * maximum <= 100000 * total < (p + 1) * maximum`.
pub proof fn law_percentage_exact(results: Seq<TestCaseResultView>, submission_id: Seq<char>)
    ensures
        ({
            let summary = summary_of(results, submission_id);
            &&& summary.maximum_points == 0 ==> summary.percentage == 0
            &&& summary.maximum_points > 0 ==> {
                &&& summary.percentage == (100000 * summary.total_points) / summary.maximum_points
                &&& summary.percentage * summary.maximum_points <= 100000 * summary.total_points
                &&& 100000 * summary.total_points < (summary.percentage + 1)
                    * summary.maximum_points
            }
        }),
{
    let total = sum_awarded(results);
    let maximum = sum_possible(results);
    if maximum > 0 {
        lemma_share_brackets(total, maximum);
    }
}

/// The quotient of a division brackets the dividend.
proof fn lemma_share_brackets(total: nat, maximum: nat)
    requires
        maximum > 0,
    ensures
        ((100000 * total) / maximum) * maximum <= 100000 * total,
        100000 * total < ((100000 * total) / maximum + 1) * maximum,
{
    let scaled = (100000 * total) as int;
    let m = maximum as int;
    vstd::arithmetic::div_mod::lemma_fundamental_div_mod(scaled, m);
    vstd::arithmetic::div_mod::lemma_mod_bound(scaled, m);
    assert(scaled == m * (scaled / m) + scaled % m);
    assert((scaled / m) * m == m * (scaled / m)) by (nonlinear_arith);
    assert((scaled / m + 1) * m == m * (scaled / m) + m) by (nonlinear_arith);
}

/// Where grading is all or nothing, no more is won than could be, and the
/// percentage does not pass one hundred.
pub proof fn law_percentage_bounded(results: Seq<TestCaseResultView>, submission_id: Seq<char>)
    requires
        all_well_formed(results),
    ensures
        summary_of(results, submission_id).total_points <= summary_of(
            results,
            submission_id,
        ).maximum_points,
        summary_of(results, submission_id).percentage <= 100000,
{
    lemma_sum_bounds(results);
    let total = sum_awarded(results);
    let maximum = sum_possible(results);
    if maximum > 0 {
        lemma_share_brackets(total, maximum);
        let p = (100000 * total) / maximum;
        assert(p <= 100000) by (nonlinear_arith)
            requires
                p * maximum <= 100000 * total,
                total <= maximum,
                maximum > 0,
        ;
    }
}

/// The thresholds of the feedback are exact: the percentage reaches a whole
/// number of percent exactly when the points won reach that share of the
/// maximum. Rounding down never moves a submission across a threshold.
pub proof fn law_thresholds_exact(total: nat, maximum: nat, percent: nat)
    requires
        maximum > 0,
    ensures
        percentage_of(total, maximum) >= 1000 * percent <==> 100 * total >= percent * maximum,
{
    lemma_share_brackets(total, maximum);
    let p = (100000 * total) / maximum;
    if 100 * total >= percent * maximum {
        assert(p >= 1000 * percent) by (nonlinear_arith)
            requires
                100000 * total < (p + 1) * maximum,
                100 * total >= percent * maximum,
                maximum > 0,
        ;
    }
    if p >= 1000 * percent {
        assert(100 * total >= percent * maximum) by (nonlinear_arith)
            requires
                p * maximum <= 100000 * total,
                p >= 1000 * percent,
                maximum > 0,
        ;
    }
}

/// A hidden test case never shows what it expects: the expected output of
/// its result is empty, whether the test passed or failed. What the program
/// printed is shown all the same.
pub proof fn law_hidden_redacted(cases: Seq<TestCaseView>, verdicts: Seq<Verdict>)
    ensures
        forall|i: int|
            0 <= i < cases.len() && cases[i].is_hidden ==> (#[trigger] graded_all(
                cases,
                verdicts,
            )[i]).expected_output == Seq::<char>::empty(),
        forall|i: int|
            0 <= i < cases.len() ==> (#[trigger] graded_all(cases, verdicts)[i]).actual_output
                == verdicts[i].actual_output,
{
}

/// A graded submission is a successful evaluation, however many of its
/// tests failed.
pub proof fn law_failing_tests_are_data(results: Seq<TestCaseResultView>, submission_id: Seq<char>)
    ensures
        summary_of(results, submission_id).execution_status == ExecutionStatus::Success,
        summary_of(results, submission_id).test_results == results,
{
}

/// The results of a complete evaluation follow the test cases, whatever the
/// order in which the runs came back: there is one for each test case, each
/// carries the id of the test case at its position, each is graded all or
/// nothing, and none shows the expected output of a hidden test case.
pub proof fn law_engine_results_follow_cases(evaluation: EvaluationView)
    requires
        evaluation.well_formed(),
        evaluation.complete(),
    ensures
        evaluation.results().len() == evaluation.cases.len(),
        all_well_formed(evaluation.results()),
        forall|i: int|
            0 <= i < evaluation.cases.len() ==> (#[trigger] evaluation.results()[i]).test_case_id
                == evaluation.cases[i].id,
        forall|i: int|
            0 <= i < evaluation.cases.len() && evaluation.cases[i].is_hidden ==> (
            #[trigger] evaluation.results()[i]).expected_output == Seq::<char>::empty(),
{
    assert forall|i: int| 0 <= i < evaluation.cases.len() implies {
        let result = #[trigger] evaluation.results()[i];
        &&& result.well_formed()
        &&& result.test_case_id == evaluation.cases[i].id
        &&& (evaluation.cases[i].is_hidden ==> result.expected_output == Seq::<char>::empty())
    } by {
        assert(evaluation.slots[i] is Done);
    }
}

/// Reports on different test cases commute: which of two runs comes back
/// first makes no difference to the evaluation.
pub proof fn law_completion_order_irrelevant(
    evaluation: EvaluationView,
    first: int,
    first_verdict: Verdict,
    second: int,
    second_verdict: Verdict,
)
    requires
        0 <= first < evaluation.slots.len(),
        0 <= second < evaluation.slots.len(),
        first != second,
    ensures
        evaluation.recorded(first, first_verdict).recorded(second, second_verdict)
            == evaluation.recorded(second, second_verdict).recorded(first, first_verdict),
{
    let one = evaluation.recorded(first, first_verdict).recorded(second, second_verdict);
    let other = evaluation.recorded(second, second_verdict).recorded(first, first_verdict);
    assert(one.slots =~= other.slots);
}

/// The comparison rule holds of every verdict on a run: the test passes if
/// and only if the run succeeded and what it printed matches what the test
/// expects. A run that did not succeed shows no output and has an error; a
/// run that succeeded shows what it printed and has none.
pub proof fn law_verdict_follows_rule(outcome: ExecutionResultView, expected: Seq<char>)
    ensures
        verdict_of(outcome, expected).passed <==> outcome.status == ExecutionStatus::Success
            && outputs_match(outcome.stdout, expected),
        verdict_of(outcome, expected).error is None <==> outcome.status
            == ExecutionStatus::Success,
        verdict_of(outcome, expected).passed <==> verdict_of(outcome, expected).error is None
            && outputs_match(verdict_of(outcome, expected).actual_output, expected),
{
}

/// The canned verdict on a test follows the comparison rule as every
/// verdict does: the test passes if and only if no error is reported and
/// the output shown matches what the test expects.
pub proof fn law_canned_verdict_follows_rule(
    language: Language,
    code: Seq<char>,
    input: Seq<char>,
    expected: Seq<char>,
)
    ensures
        canned_verdict(language, code, input, expected).passed <==> canned_verdict(
            language,
            code,
            input,
            expected,
        ).error is None && outputs_match(
            canned_verdict(language, code, input, expected).actual_output,
            expected,
        ),
        canned_verdict(language, code, input, expected).error is None <==> canned_test_run(
            language,
            code,
            input,
            expected,
        ).status == ExecutionStatus::Success,
{
}

/// A program that the canned sandbox runs without end fails its test,
/// whatever the test feeds and expects: it shows no output, and its error
/// is the timeout message. The canned sandbox takes a snippet for such a
/// program where it builds and is marked as never-ending.
pub proof fn law_never_ending_fails(
    language: Language,
    code: Seq<char>,
    input: Seq<char>,
    expected: Seq<char>,
)
    requires
        runs_forever(language, code),
        !has_infix(code, compile_failure_marker(language)),
    ensures
        canned_run(language, code).2 == ExecutionStatus::Timeout,
        canned_verdict(language, code, input, expected) == (Verdict {
            passed: false,
            actual_output: Seq::empty(),
            error: Some("Error: Execution timed out"@),
        }),
{
}

} // verus!
