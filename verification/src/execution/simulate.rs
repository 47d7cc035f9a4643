//! Canned runs: a stand-in sandbox that answers from markers in the source
//! text, so that the layers above can be exercised without a toolchain.

use vstd::prelude::*;
use crate::error::AppError;
use crate::execution::service::empty_code_rejection;
use crate::execution::{
    ExecuteCodeRequest, ExecutionResult, ExecutionResultView, ExecutionStatus, Language,
};
use crate::text::{contains, has_infix};

verus! {

/// The marker whose presence makes the canned compiler of `language` fail.
pub open spec fn compile_failure_marker(language: Language) -> Seq<char> {
    match language {
        Language::Rust => "compile_error"@,
        _ => "syntax error"@,
    }
}

/// The diagnostic the canned compiler of `language` prints when it fails.
pub open spec fn compile_diagnostic(language: Language) -> Seq<char> {
    match language {
        Language::Python => "SyntaxError: invalid syntax"@,
        Language::Rust => "error[E0425]: cannot find value `undefined_variable` in this scope"@,
        Language::JavaScript => "SyntaxError: Unexpected token"@,
        Language::Java => "Main.java:5: error: ';' expected"@,
        Language::Cpp => "main.cpp:5:10: error: expected ';' after expression"@,
    }
}

/// Whether the canned sandbox takes `code` for a program that never ends.
pub open spec fn runs_forever(language: Language, code: Seq<char>) -> bool {
    match language {
        Language::Python => has_infix(code, "while True:"@),
        Language::Rust => has_infix(code, "loop {"@) && !has_infix(code, "break"@),
        _ => has_infix(code, "while(true)"@),
    }
}

/// The marker by which the canned sandbox recognises a program that prints.
pub open spec fn print_marker(language: Language) -> Seq<char> {
    match language {
        Language::Python => "print"@,
        Language::Rust => "println!"@,
        Language::JavaScript => "console.log"@,
        Language::Java => "System.out.println"@,
        Language::Cpp => "std::cout"@,
    }
}

/// Standard output, standard error and status of the canned run of `code`.
///
/// A compile failure wins over a timeout, a timeout over output.
pub open spec fn canned_run(language: Language, code: Seq<char>) -> (
    Seq<char>,
    Seq<char>,
    ExecutionStatus,
) {
    if has_infix(code, compile_failure_marker(language)) {
        (Seq::empty(), compile_diagnostic(language), ExecutionStatus::CompileError)
    } else if runs_forever(language, code) {
        (Seq::empty(), "Error: Execution timed out"@, ExecutionStatus::Timeout)
    } else if has_infix(code, print_marker(language)) {
        ("Hello, World!\n"@, Seq::empty(), ExecutionStatus::Success)
    } else {
        (Seq::empty(), Seq::empty(), ExecutionStatus::Success)
    }
}

/// Canned run of a Python snippet. The input is not consulted.
pub fn simulate_python_execution(code: &str, input: Option<&str>) -> (r: (
    String,
    String,
    ExecutionStatus,
))
    ensures
        (r.0@, r.1@, r.2) == canned_run(Language::Python, code@),
{
    if contains(code, "syntax error") {
        return (
            String::new(),
            "SyntaxError: invalid syntax".to_string(),
            ExecutionStatus::CompileError,
        );
    }
    if contains(code, "while True:") {
        return (String::new(), "Error: Execution timed out".to_string(), ExecutionStatus::Timeout);
    }
    if contains(code, "print") {
        return ("Hello, World!\n".to_string(), String::new(), ExecutionStatus::Success);
    }
    (String::new(), String::new(), ExecutionStatus::Success)
}

/// Canned run of a Rust snippet. The input is not consulted.
pub fn simulate_rust_execution(code: &str, input: Option<&str>) -> (r: (
    String,
    String,
    ExecutionStatus,
))
    ensures
        (r.0@, r.1@, r.2) == canned_run(Language::Rust, code@),
{
    if contains(code, "compile_error") {
        return (
            String::new(),
            "error[E0425]: cannot find value `undefined_variable` in this scope".to_string(),
            ExecutionStatus::CompileError,
        );
    }
    if contains(code, "loop {") && !contains(code, "break") {
        return (String::new(), "Error: Execution timed out".to_string(), ExecutionStatus::Timeout);
    }
    if contains(code, "println!") {
        return ("Hello, World!\n".to_string(), String::new(), ExecutionStatus::Success);
    }
    (String::new(), String::new(), ExecutionStatus::Success)
}

/// Canned run of a JavaScript snippet. The input is not consulted.
pub fn simulate_javascript_execution(code: &str, input: Option<&str>) -> (r: (
    String,
    String,
    ExecutionStatus,
))
    ensures
        (r.0@, r.1@, r.2) == canned_run(Language::JavaScript, code@),
{
    if contains(code, "syntax error") {
        return (
            String::new(),
            "SyntaxError: Unexpected token".to_string(),
            ExecutionStatus::CompileError,
        );
    }
    if contains(code, "while(true)") {
        return (String::new(), "Error: Execution timed out".to_string(), ExecutionStatus::Timeout);
    }
    if contains(code, "console.log") {
        return ("Hello, World!\n".to_string(), String::new(), ExecutionStatus::Success);
    }
    (String::new(), String::new(), ExecutionStatus::Success)
}

/// Canned run of a Java snippet. The input is not consulted.
pub fn simulate_java_execution(code: &str, input: Option<&str>) -> (r: (
    String,
    String,
    ExecutionStatus,
))
    ensures
        (r.0@, r.1@, r.2) == canned_run(Language::Java, code@),
{
    if contains(code, "syntax error") {
        return (
            String::new(),
            "Main.java:5: error: ';' expected".to_string(),
            ExecutionStatus::CompileError,
        );
    }
    if contains(code, "while(true)") {
        return (String::new(), "Error: Execution timed out".to_string(), ExecutionStatus::Timeout);
    }
    if contains(code, "System.out.println") {
        return ("Hello, World!\n".to_string(), String::new(), ExecutionStatus::Success);
    }
    (String::new(), String::new(), ExecutionStatus::Success)
}

/// Canned run of a C++ snippet. The input is not consulted.
pub fn simulate_cpp_execution(code: &str, input: Option<&str>) -> (r: (
    String,
    String,
    ExecutionStatus,
))
    ensures
        (r.0@, r.1@, r.2) == canned_run(Language::Cpp, code@),
{
    if contains(code, "syntax error") {
        return (
            String::new(),
            "main.cpp:5:10: error: expected ';' after expression".to_string(),
            ExecutionStatus::CompileError,
        );
    }
    if contains(code, "while(true)") {
        return (String::new(), "Error: Execution timed out".to_string(), ExecutionStatus::Timeout);
    }
    if contains(code, "std::cout") {
        return ("Hello, World!\n".to_string(), String::new(), ExecutionStatus::Success);
    }
    (String::new(), String::new(), ExecutionStatus::Success)
}

/// Canned run of `code` in `language`: the adapter for that language is chosen
/// and asked.
pub fn simulate_execution(language: Language, code: &str, input: Option<&str>) -> (r: (
    String,
    String,
    ExecutionStatus,
))
    ensures
        (r.0@, r.1@, r.2) == canned_run(language, code@),
{
    match language {
        Language::Python => simulate_python_execution(code, input),
        Language::Rust => simulate_rust_execution(code, input),
        Language::JavaScript => simulate_javascript_execution(code, input),
        Language::Java => simulate_java_execution(code, input),
        Language::Cpp => simulate_cpp_execution(code, input),
    }
}

/// Memory, in kilobytes, that every canned run reports.
pub const CANNED_MEMORY_KB: u64 = 1024;

/// The result of the canned run of `code`, with the time the caller
/// measured.
pub open spec fn canned_result(language: Language, code: Seq<char>, elapsed_ms: u64) -> ExecutionResultView {
    ExecutionResultView {
        stdout: canned_run(language, code).0,
        stderr: canned_run(language, code).1,
        execution_time_ms: elapsed_ms,
        status: canned_run(language, code).2,
        memory_usage_kb: Some(CANNED_MEMORY_KB),
    }
}

/// Serves a request from the canned sandbox.
///
/// A request without code is rejected as invalid. Every other request is
/// answered once by the adapter of its language; a failed run is a result
/// like any other. `elapsed_ms` is the wall-clock time that the caller
/// measured around the invocation.
pub fn execute_simulated(request: &ExecuteCodeRequest, elapsed_ms: u64) -> (r: Result<
    ExecutionResult,
    AppError,
>)
    ensures
        match r {
            Ok(result) => request@.code.len() > 0 && result@ == canned_result(
                request@.language,
                request@.code,
                elapsed_ms,
            ),
            Err(e) => request@.code.len() == 0 && e@ == empty_code_rejection(),
        },
{
    if request.code.as_str().is_empty() {
        return Err(AppError::Validation("Code cannot be empty".to_string()));
    }
    let input: Option<&str> = match &request.input {
        Some(text) => Some(text.as_str()),
        None => None,
    };
    let (stdout, stderr, status) = simulate_execution(
        request.language,
        request.code.as_str(),
        input,
    );
    Ok(
        ExecutionResult {
            stdout,
            stderr,
            execution_time_ms: elapsed_ms,
            status,
            memory_usage_kb: Some(CANNED_MEMORY_KB),
        },
    )
}

} // verus!
