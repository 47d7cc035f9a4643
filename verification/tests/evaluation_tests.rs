use kaiju_academy::error::{AppError, ErrorKind};
use kaiju_academy::evaluation::engine::Evaluation;
use kaiju_academy::evaluation::{
    compare_outputs, evaluate_simulated, generate_feedback, grade_test, judge, passed_count,
    points_for, simulate_test_case_execution, simulate_test_run, summarize, TestCase,
    TestCaseResult,
};
use kaiju_academy::execution::service::EngineConfig;
use kaiju_academy::execution::{ExecutionResult, ExecutionStatus, Language};

fn case(id: &str, input: &str, expected: &str, hidden: bool, points: Option<u32>) -> TestCase {
    TestCase {
        id: id.to_string(),
        input: input.to_string(),
        expected_output: expected.to_string(),
        description: Some(format!("case {}", id)),
        is_hidden: hidden,
        points,
    }
}

fn outcome(stdout: &str, stderr: &str, status: ExecutionStatus) -> ExecutionResult {
    ExecutionResult {
        stdout: stdout.to_string(),
        stderr: stderr.to_string(),
        execution_time_ms: 12,
        status,
        memory_usage_kb: Some(2048),
    }
}

fn result(passed: bool, possible: u32) -> TestCaseResult {
    grade_test(&case("x", "", "", false, Some(possible)), passed, String::new(), None)
}

#[test]
fn hello_world_passes_with_full_marks() {
    let cases = vec![case("t1", "say hello", "Hello, World!", false, Some(1000))];
    let r = evaluate_simulated("print('Hello, World!')", Language::Python, &cases).unwrap();
    assert_eq!(r.test_results.len(), 1);
    assert!(r.test_results[0].passed);
    assert_eq!(r.test_results[0].actual_output, "Hello, World!\n");
    assert_eq!(r.total_points, 1000);
    assert_eq!(r.maximum_points, 1000);
    assert_eq!(r.percentage, 100000);
    assert_eq!(r.feedback, "Excellent! All tests passed.");
    assert_eq!(r.execution_status, ExecutionStatus::Success);
}

#[test]
fn timeout_fails_every_dependent_test() {
    let run = outcome("partial", "", ExecutionStatus::Timeout);
    let cases = vec![
        case("a", "1", "1", false, None),
        case("b", "2", "2", true, Some(2500)),
    ];
    let mut ev =
        Evaluation::begin("while True: pass".to_string(), Language::Python, cases, &EngineConfig::standard())
            .unwrap();
    let (i0, _) = ev.start_next().unwrap();
    let (i1, _) = ev.start_next().unwrap();
    ev.record(i1, &run).unwrap();
    ev.record(i0, &run).unwrap();
    let r = ev.finish("sub_x".to_string()).unwrap();
    for t in &r.test_results {
        assert!(!t.passed);
        assert_eq!(t.error.as_deref(), Some("Error: Execution timed out"));
        assert_eq!(t.actual_output, "");
        assert_eq!(t.points_awarded, 0);
    }
    assert_eq!(r.total_points, 0);
    assert_eq!(r.maximum_points, 3500);
    assert_eq!(r.percentage, 0);
    assert_eq!(r.feedback, "Your solution needs more work. Review the test cases and try again.");
    assert_eq!(r.execution_status, ExecutionStatus::Success);
}

#[test]
fn two_of_three_is_on_the_right_track() {
    let cases = vec![
        case("t1", "hello", "Hello, World!", false, Some(1000)),
        case("t2", "42", "42", false, Some(1000)),
        case("t3", "other", "Nope", false, Some(2000)),
    ];
    let r = evaluate_simulated("print(x)", Language::Python, &cases).unwrap();
    assert_eq!(
        r.test_results.iter().map(|t| t.passed).collect::<Vec<_>>(),
        vec![true, true, false]
    );
    assert_eq!(r.total_points, 2000);
    assert_eq!(r.maximum_points, 4000);
    assert_eq!(r.percentage, 50000);
    assert_eq!(
        r.feedback,
        "You're on the right track, but there are still some issues. You passed 2/3 tests."
    );
}

#[test]
fn empty_code_is_rejected_before_anything_runs() {
    let cases = vec![case("t1", "hello", "Hello, World!", false, None)];
    let e = evaluate_simulated("", Language::Python, &cases).unwrap_err();
    assert_eq!(e.kind(), ErrorKind::Validation);
    assert_eq!(e.detail(), "Code cannot be empty");
    assert_eq!(e.status_code(), 400);
    let e = Evaluation::begin(String::new(), Language::Rust, cases, &EngineConfig::standard())
        .unwrap_err();
    assert!(matches!(e, AppError::Validation(_)));
}

#[test]
fn empty_test_cases_are_rejected() {
    let e = evaluate_simulated("print(1)", Language::Python, &Vec::new()).unwrap_err();
    assert_eq!(e.kind(), ErrorKind::Validation);
    assert_eq!(e.detail(), "At least one test case is required");
    let e = Evaluation::begin("x".to_string(), Language::Rust, Vec::new(), &EngineConfig::standard())
        .unwrap_err();
    assert_eq!(e.detail(), "At least one test case is required");
}

#[test]
fn empty_code_wins_over_empty_test_cases() {
    let e = evaluate_simulated("", Language::Python, &Vec::new()).unwrap_err();
    assert_eq!(e.detail(), "Code cannot be empty");
}

#[test]
fn results_keep_the_order_and_ids_of_the_cases() {
    let cases: Vec<TestCase> =
        (0..7).map(|i| case(&format!("id{}", i), "ab", "out", i % 2 == 0, None)).collect();
    let r = evaluate_simulated("fn main() {}", Language::Rust, &cases).unwrap();
    assert_eq!(r.test_results.len(), cases.len());
    for (t, c) in r.test_results.iter().zip(cases.iter()) {
        assert_eq!(t.test_case_id, c.id);
        assert_eq!(t.description, c.description);
        assert_eq!(t.is_hidden, c.is_hidden);
    }
}

#[test]
fn hidden_cases_never_show_what_they_expect() {
    let cases = vec![
        case("pass", "ab", "secret one", true, None),
        case("fail", "abc", "secret two", true, None),
        case("open", "abc", "shown", false, None),
    ];
    let r = evaluate_simulated("fn main() {}", Language::Rust, &cases).unwrap();
    assert!(r.test_results[0].passed);
    assert_eq!(r.test_results[0].expected_output, "");
    assert_eq!(r.test_results[0].actual_output, "secret one");
    assert!(!r.test_results[1].passed);
    assert_eq!(r.test_results[1].expected_output, "");
    assert_eq!(r.test_results[1].actual_output, "Incorrect output");
    assert_eq!(r.test_results[2].expected_output, "shown");
}

#[test]
fn totals_are_the_sums_of_the_results() {
    let results = vec![result(true, 1500), result(false, 700), result(true, 1), result(true, 0)];
    let r = summarize(results, "sub_1".to_string());
    let awarded: u128 = r.test_results.iter().map(|t| t.points_awarded as u128).sum();
    let possible: u128 = r.test_results.iter().map(|t| t.points_possible as u128).sum();
    assert_eq!(r.total_points, awarded);
    assert_eq!(r.maximum_points, possible);
    assert_eq!(r.total_points, 1501);
    assert_eq!(r.maximum_points, 2201);
    assert_eq!(r.percentage, 68196);
    assert_eq!(r.submission_id, "sub_1");
}

#[test]
fn percentage_is_zero_where_nothing_can_be_won() {
    let r = summarize(vec![result(true, 0), result(false, 0)], "s".to_string());
    assert_eq!(r.maximum_points, 0);
    assert_eq!(r.percentage, 0);
    let r = summarize(Vec::new(), "s".to_string());
    assert_eq!(r.percentage, 0);
    assert_eq!(r.feedback, "Excellent! All tests passed.");
}

#[test]
fn percentage_rounds_down() {
    let r = summarize(vec![result(true, 1000), result(false, 2000)], "s".to_string());
    assert_eq!(r.percentage, 33333);
    let r = summarize(vec![result(true, 2000), result(false, 1000)], "s".to_string());
    assert_eq!(r.percentage, 66666);
}

#[test]
fn large_point_values_do_not_overflow() {
    let results: Vec<TestCaseResult> = (0..5).map(|_| result(true, u32::MAX)).collect();
    let r = summarize(results, "s".to_string());
    assert_eq!(r.total_points, 5 * (u32::MAX as u128));
    assert_eq!(r.percentage, 100000);
}

#[test]
fn feedback_thresholds() {
    let four_of_five = vec![
        result(true, 1000),
        result(true, 1000),
        result(true, 1000),
        result(true, 1000),
        result(false, 1000),
    ];
    assert_eq!(generate_feedback(&four_of_five, 80000), "Good job! You passed 4/5 tests.");
    assert_eq!(
        generate_feedback(&four_of_five, 79999),
        "You're on the right track, but there are still some issues. You passed 4/5 tests."
    );
    assert_eq!(
        generate_feedback(&four_of_five, 50000),
        "You're on the right track, but there are still some issues. You passed 4/5 tests."
    );
    assert_eq!(
        generate_feedback(&four_of_five, 49999),
        "Your solution needs more work. Review the test cases and try again."
    );
    let all = vec![result(true, 1000), result(true, 0)];
    assert_eq!(generate_feedback(&all, 0), "Excellent! All tests passed.");
    assert_eq!(passed_count(&four_of_five), 4);
}

#[test]
fn feedback_counts_are_written_in_decimal() {
    let mut results: Vec<TestCaseResult> = (0..120).map(|_| result(true, 1000)).collect();
    results.push(result(false, 1000));
    let r = summarize(results, "s".to_string());
    assert_eq!(r.feedback, "Good job! You passed 120/121 tests.");
}

#[test]
fn comparison_trims_both_sides_and_nothing_else() {
    assert!(compare_outputs("Hello, World!\n", "Hello, World!"));
    assert!(compare_outputs("  \t42\r\n", "\u{a0}42\u{3000}"));
    assert!(compare_outputs("", " \n "));
    assert!(!compare_outputs("4 2", "42"));
    assert!(!compare_outputs("Hello", "hello"));
    assert!(!compare_outputs("a\nb", "a b"));
}

#[test]
fn judge_applies_the_comparison_rule_only_to_successful_runs() {
    let ok = judge(&outcome(" 7 \n", "", ExecutionStatus::Success), "7");
    assert_eq!(ok, (true, " 7 \n".to_string(), None));
    let wrong = judge(&outcome("8", "", ExecutionStatus::Success), "7");
    assert_eq!(wrong, (false, "8".to_string(), None));
    let crashed = judge(&outcome("7", "boom", ExecutionStatus::RuntimeError), "7");
    assert_eq!(crashed, (false, String::new(), Some("boom".to_string())));
    let broken = judge(&outcome("", "error: expected `;`", ExecutionStatus::CompileError), "");
    assert_eq!(broken, (false, String::new(), Some("error: expected `;`".to_string())));
    let slow = judge(&outcome("7", "", ExecutionStatus::Timeout), "7");
    assert_eq!(slow, (false, String::new(), Some("Error: Execution timed out".to_string())));
    let big = judge(&outcome("7", "", ExecutionStatus::MemoryLimitExceeded), "7");
    assert_eq!(big, (false, String::new(), Some("Error: Memory limit exceeded".to_string())));
}

#[test]
fn grading_is_all_or_nothing() {
    let c = case("c", "in", "out", false, Some(2750));
    let won = grade_test(&c, true, "out".to_string(), None);
    assert_eq!((won.points_awarded, won.points_possible), (2750, 2750));
    let lost = grade_test(&c, false, "x".to_string(), Some("e".to_string()));
    assert_eq!((lost.points_awarded, lost.points_possible), (0, 2750));
    assert_eq!(lost.error.as_deref(), Some("e"));
    assert_eq!(points_for(&case("d", "", "", false, None)), 1000);
}

#[test]
fn canned_python_verdicts() {
    let py = Language::Python;
    assert_eq!(
        simulate_test_case_execution("syntax error", &py, "42", "42"),
        (false, String::new(), Some("SyntaxError: invalid syntax".to_string()))
    );
    assert_eq!(
        simulate_test_case_execution("runtime error", &py, "42", "42"),
        (false, String::new(), Some("RuntimeError: error occurred during execution".to_string()))
    );
    assert_eq!(
        simulate_test_case_execution("print(x)", &py, "a 42 b", " 42 "),
        (true, "42\n".to_string(), None)
    );
    assert_eq!(
        simulate_test_case_execution("print(x)", &py, "hello 42", "Hello, World!"),
        (false, "42\n".to_string(), None)
    );
    assert_eq!(
        simulate_test_case_execution("x = 1", &py, "42", "Pass"),
        (true, "Pass".to_string(), None)
    );
    assert_eq!(
        simulate_test_case_execution("x = 1", &py, "42", "Pass\n"),
        (true, "Pass".to_string(), None)
    );
    assert_eq!(
        simulate_test_case_execution("x = 1", &py, "42", "Fail"),
        (false, "Pass".to_string(), None)
    );
}

#[test]
fn a_never_ending_program_fails_whatever_the_test_expects() {
    let timeout = Some("Error: Execution timed out".to_string());
    for expected in ["Pass", "", "42", "Hello, World!", "Error: Execution timed out"] {
        for input in ["", "42", "hello", "x"] {
            assert_eq!(
                simulate_test_case_execution("while True:\n    pass", &Language::Python, input, expected),
                (false, String::new(), timeout.clone())
            );
            assert_eq!(
                simulate_test_case_execution("loop { }", &Language::Rust, input, expected),
                (false, String::new(), timeout.clone())
            );
            assert_eq!(
                simulate_test_case_execution("while(true) {}", &Language::Java, input, expected),
                (false, String::new(), timeout.clone())
            );
        }
    }
    let cases = vec![
        case("a", "42", "42", false, None),
        case("b", "hello", "Pass", true, Some(3000)),
    ];
    let r = evaluate_simulated("while True:\n    print(1)", Language::Python, &cases).unwrap();
    for t in &r.test_results {
        assert!(!t.passed);
        assert_eq!(t.error, timeout);
        assert_eq!(t.actual_output, "");
    }
    assert_eq!((r.total_points, r.maximum_points, r.percentage), (0, 4000, 0));
    assert_eq!(r.feedback, "Your solution needs more work. Review the test cases and try again.");
}

#[test]
fn a_canned_test_passes_exactly_when_it_ran_and_its_output_matches() {
    let languages =
        [Language::Python, Language::Rust, Language::JavaScript, Language::Java, Language::Cpp];
    let codes = [
        "print(x)", "x = 1", "syntax error", "runtime error", "an error", "compile_error",
        "while True:", "while(true)", "loop {", "loop { break }", "fine", "",
    ];
    let inputs = ["", "a", "ab", "42", "say hello", "\u{e9}"];
    let expectations = ["Pass", " Pass\n", "42", "Hello, World!", "Incorrect output", "", "x"];
    for language in languages {
        for code in codes {
            for input in inputs {
                for expected in expectations {
                    let (passed, actual, error) =
                        simulate_test_case_execution(code, &language, input, expected);
                    assert_eq!(
                        passed,
                        error.is_none() && actual.trim() == expected.trim(),
                        "{:?} {:?} {:?} {:?}",
                        language,
                        code,
                        input,
                        expected
                    );
                    let run = simulate_test_run(code, &language, input, expected);
                    assert_eq!(error.is_none(), run.status == ExecutionStatus::Success);
                    assert_eq!((passed, actual, error), judge(&run, expected));
                }
            }
        }
    }
}

#[test]
fn canned_test_runs_follow_the_canned_sandbox() {
    let run = simulate_test_run("syntax error", &Language::Java, "ab", "x");
    assert_eq!(run.status, ExecutionStatus::CompileError);
    assert_eq!(run.stderr, "Main.java:5: error: ';' expected");
    assert_eq!(run.stdout, "");
    let run = simulate_test_run("compile_error", &Language::Rust, "ab", "x");
    assert_eq!(run.status, ExecutionStatus::CompileError);
    let run = simulate_test_run("an error", &Language::Rust, "ab", "x");
    assert_eq!(run.status, ExecutionStatus::RuntimeError);
    assert_eq!(run.stderr, "Error in code execution");
    let run = simulate_test_run("print(1)", &Language::Python, "hello", "x");
    assert_eq!((run.status, run.stdout.as_str()), (ExecutionStatus::Success, "Hello, World!\n"));
    assert_eq!((run.execution_time_ms, run.memory_usage_kb), (0, Some(1024)));
}

#[test]
fn canned_verdicts_of_other_languages() {
    for lang in [Language::Rust, Language::JavaScript, Language::Java, Language::Cpp] {
        assert_eq!(
            simulate_test_case_execution("an error here", &lang, "ab", "x"),
            (false, String::new(), Some("Error in code execution".to_string()))
        );
        assert_eq!(
            simulate_test_case_execution("fine", &lang, "ab", "expected"),
            (true, "expected".to_string(), None)
        );
        assert_eq!(
            simulate_test_case_execution("fine", &lang, "abc", "expected"),
            (false, "Incorrect output".to_string(), None)
        );
        assert_eq!(
            simulate_test_case_execution("fine", &lang, "abc", " Incorrect output\n"),
            (true, "Incorrect output".to_string(), None)
        );
        // parity is counted in bytes: one two-byte character is even
        assert_eq!(
            simulate_test_case_execution("fine", &lang, "\u{e9}", "e"),
            (true, "e".to_string(), None)
        );
        assert_eq!(
            simulate_test_case_execution("fine", &lang, "", "e"),
            (true, "e".to_string(), None)
        );
    }
}

#[test]
fn submission_ids_are_fresh_and_well_formed() {
    let cases = vec![case("t1", "hello", "Hello, World!", false, None)];
    let a = evaluate_simulated("print(1)", Language::Python, &cases).unwrap();
    let b = evaluate_simulated("print(1)", Language::Python, &cases).unwrap();
    assert!(a.submission_id.starts_with("sub_"));
    assert_eq!(a.submission_id.len(), 40);
    assert!(uuid::Uuid::parse_str(&a.submission_id[4..]).is_ok());
    assert_ne!(a.submission_id, b.submission_id);
    let id = kaiju_academy::ids::new_submission_id();
    assert_eq!(uuid::Uuid::parse_str(&id[4..]).unwrap().get_version_num(), 4);
}
