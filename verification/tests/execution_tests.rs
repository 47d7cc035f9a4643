use kaiju_academy::error::ErrorKind;
use kaiju_academy::execution::sandbox::{
    capture, capture_room, classify, classify_error, compile_command, conclude, exit_code,
    run_command, KilledReason, Phase, RawOutcome,
};
use kaiju_academy::execution::service::{advance, prepare, CallEvent, CallState, EngineConfig};
use kaiju_academy::execution::simulate::{
    execute_simulated, simulate_cpp_execution, simulate_execution, simulate_java_execution,
    simulate_javascript_execution, simulate_python_execution, simulate_rust_execution,
};
use kaiju_academy::execution::{ExecuteCodeRequest, ExecutionStatus, Language};

fn raw(exit_code: i32, out: &[u8], err: &[u8], killed: KilledReason) -> RawOutcome {
    RawOutcome {
        exit_code,
        stdout_bytes: out.to_vec(),
        stderr_bytes: err.to_vec(),
        wall_time_ms: 3,
        peak_memory_bytes: Some(5 * 1024 * 1024 + 512),
        killed_reason: killed,
    }
}

fn request(code: &str, language: Language, timeout: Option<u64>) -> ExecuteCodeRequest {
    ExecuteCodeRequest {
        code: code.to_string(),
        language,
        input: Some("in".to_string()),
        timeout_seconds: timeout,
    }
}

fn words(list: &[&str]) -> Vec<String> {
    list.iter().map(|w| w.to_string()).collect()
}

fn triple(a: &str, b: &str, s: ExecutionStatus) -> (String, String, ExecutionStatus) {
    (a.to_string(), b.to_string(), s)
}

#[test]
fn canned_python_runs() {
    assert_eq!(
        simulate_python_execution("x syntax error; while True: print", None),
        triple("", "SyntaxError: invalid syntax", ExecutionStatus::CompileError)
    );
    assert_eq!(
        simulate_python_execution("while True: print(1)", Some("in")),
        triple("", "Error: Execution timed out", ExecutionStatus::Timeout)
    );
    assert_eq!(
        simulate_python_execution("print(1)", None),
        triple("Hello, World!\n", "", ExecutionStatus::Success)
    );
    assert_eq!(simulate_python_execution("x = 1", None), triple("", "", ExecutionStatus::Success));
    assert_eq!(simulate_python_execution("", None), triple("", "", ExecutionStatus::Success));
}

#[test]
fn canned_rust_runs() {
    assert_eq!(
        simulate_rust_execution("compile_error!()", None),
        triple(
            "",
            "error[E0425]: cannot find value `undefined_variable` in this scope",
            ExecutionStatus::CompileError
        )
    );
    assert_eq!(
        simulate_rust_execution("loop { println!(\"x\"); }", None),
        triple("", "Error: Execution timed out", ExecutionStatus::Timeout)
    );
    assert_eq!(
        simulate_rust_execution("loop { println!(\"x\"); break; }", None),
        triple("Hello, World!\n", "", ExecutionStatus::Success)
    );
    assert_eq!(
        simulate_rust_execution("fn main() {}", None),
        triple("", "", ExecutionStatus::Success)
    );
}

#[test]
fn canned_javascript_java_and_cpp_runs() {
    assert_eq!(
        simulate_javascript_execution("syntax error", None),
        triple("", "SyntaxError: Unexpected token", ExecutionStatus::CompileError)
    );
    assert_eq!(
        simulate_javascript_execution("while(true) console.log(1)", None),
        triple("", "Error: Execution timed out", ExecutionStatus::Timeout)
    );
    assert_eq!(
        simulate_javascript_execution("console.log(1)", None),
        triple("Hello, World!\n", "", ExecutionStatus::Success)
    );
    assert_eq!(
        simulate_java_execution("syntax error", None),
        triple("", "Main.java:5: error: ';' expected", ExecutionStatus::CompileError)
    );
    assert_eq!(
        simulate_java_execution("while(true) {}", None),
        triple("", "Error: Execution timed out", ExecutionStatus::Timeout)
    );
    assert_eq!(
        simulate_java_execution("System.out.println(1);", None),
        triple("Hello, World!\n", "", ExecutionStatus::Success)
    );
    assert_eq!(
        simulate_cpp_execution("syntax error", None),
        triple(
            "",
            "main.cpp:5:10: error: expected ';' after expression",
            ExecutionStatus::CompileError
        )
    );
    assert_eq!(
        simulate_cpp_execution("while(true) {}", None),
        triple("", "Error: Execution timed out", ExecutionStatus::Timeout)
    );
    assert_eq!(
        simulate_cpp_execution("std::cout << 1;", None),
        triple("Hello, World!\n", "", ExecutionStatus::Success)
    );
    assert_eq!(simulate_cpp_execution("int x;", None), triple("", "", ExecutionStatus::Success));
}

#[test]
fn dispatch_picks_the_adapter_of_the_language() {
    let code = "print println! console.log System.out.println";
    assert_eq!(simulate_execution(Language::Cpp, code, None), triple("", "", ExecutionStatus::Success));
    assert_eq!(
        simulate_execution(Language::Java, code, None),
        triple("Hello, World!\n", "", ExecutionStatus::Success)
    );
    assert_eq!(
        simulate_execution(Language::Rust, "compile_error", None).2,
        ExecutionStatus::CompileError
    );
    assert_eq!(
        simulate_execution(Language::Python, "compile_error", None).2,
        ExecutionStatus::Success
    );
}

#[test]
fn same_snippet_twice_gives_the_same_status() {
    for lang in [Language::Python, Language::Rust, Language::JavaScript, Language::Java, Language::Cpp] {
        for code in ["syntax error", "while(true)", "while True:", "loop {", "print", ""] {
            let a = simulate_execution(lang, code, Some("one"));
            let b = simulate_execution(lang, code, Some("two"));
            assert_eq!(a.2, b.2);
        }
    }
    let first = raw(1, b"a", b"b", KilledReason::NotKilled);
    let second = raw(1, b"other", b"", KilledReason::NotKilled);
    assert_eq!(classify(Phase::Run, &first), classify(Phase::Run, &second));
}

#[test]
fn execute_simulated_validates_and_reports() {
    let e = execute_simulated(&request("", Language::Python, None), 7).unwrap_err();
    assert_eq!(e.kind(), ErrorKind::Validation);
    assert_eq!(e.detail(), "Code cannot be empty");
    let r = execute_simulated(&request("while True: pass", Language::Python, Some(5)), 512).unwrap();
    assert_eq!(r.status, ExecutionStatus::Timeout);
    assert_eq!(r.stdout, "");
    assert_eq!(r.stderr, "Error: Execution timed out");
    assert_eq!(r.execution_time_ms, 512);
    assert_eq!(r.memory_usage_kb, Some(1024));
    let r = execute_simulated(&request("print(1)", Language::Python, None), 1).unwrap();
    assert_eq!(r.status, ExecutionStatus::Success);
    assert_eq!(r.stdout, "Hello, World!\n");
}

#[test]
fn mechanical_classification() {
    assert_eq!(classify(Phase::Run, &raw(0, b"", b"", KilledReason::NotKilled)), ExecutionStatus::Success);
    assert_eq!(classify(Phase::Compile, &raw(0, b"", b"", KilledReason::NotKilled)), ExecutionStatus::Success);
    assert_eq!(classify(Phase::Run, &raw(1, b"", b"", KilledReason::NotKilled)), ExecutionStatus::RuntimeError);
    assert_eq!(classify(Phase::Run, &raw(-9, b"", b"", KilledReason::NotKilled)), ExecutionStatus::RuntimeError);
    assert_eq!(classify(Phase::Compile, &raw(2, b"", b"", KilledReason::NotKilled)), ExecutionStatus::CompileError);
    assert_eq!(classify(Phase::Run, &raw(0, b"", b"", KilledReason::TimedOut)), ExecutionStatus::Timeout);
    assert_eq!(classify(Phase::Compile, &raw(1, b"", b"", KilledReason::TimedOut)), ExecutionStatus::Timeout);
    assert_eq!(classify(Phase::Run, &raw(137, b"", b"", KilledReason::OutOfMemory)), ExecutionStatus::MemoryLimitExceeded);
}

#[test]
fn adapters_read_syntax_errors_of_interpreted_languages() {
    let text = "  File \"main.py\", line 1\nSyntaxError: invalid syntax";
    assert_eq!(classify_error(Language::Python, ExecutionStatus::RuntimeError, text), ExecutionStatus::CompileError);
    assert_eq!(classify_error(Language::JavaScript, ExecutionStatus::RuntimeError, text), ExecutionStatus::CompileError);
    assert_eq!(classify_error(Language::Rust, ExecutionStatus::RuntimeError, text), ExecutionStatus::RuntimeError);
    assert_eq!(classify_error(Language::Java, ExecutionStatus::RuntimeError, text), ExecutionStatus::RuntimeError);
    assert_eq!(classify_error(Language::Cpp, ExecutionStatus::RuntimeError, text), ExecutionStatus::RuntimeError);
    assert_eq!(classify_error(Language::Python, ExecutionStatus::RuntimeError, "ZeroDivisionError"), ExecutionStatus::RuntimeError);
    assert_eq!(classify_error(Language::Python, ExecutionStatus::Success, text), ExecutionStatus::Success);
    assert_eq!(classify_error(Language::Python, ExecutionStatus::Timeout, text), ExecutionStatus::Timeout);
    assert!(!Language::Python.needs_compilation());
    assert!(!Language::JavaScript.needs_compilation());
    assert!(Language::Rust.needs_compilation());
    assert!(Language::Java.needs_compilation());
    assert!(Language::Cpp.needs_compilation());
    assert_eq!(Language::Java.source_file_name(), "Main.java");
    assert_eq!(Language::Python.source_file_name(), "main.py");
    assert_eq!(Language::Rust.source_file_name(), "main.rs");
    assert_eq!(Language::JavaScript.source_file_name(), "main.js");
    assert_eq!(Language::Cpp.source_file_name(), "main.cpp");
}

#[test]
fn capture_cuts_at_the_limit_and_decodes() {
    assert_eq!(capture(b"hello world", 5), "hello");
    assert_eq!(capture(b"hello", 5), "hello");
    assert_eq!(capture(b"hello", 500), "hello");
    assert_eq!(capture(b"hello", 0), "");
    // a malformed byte is replaced, so the text is not the bytes handed in
    assert_eq!(capture(&[b'a', 0xff, b'b'], 10), "a\u{fffd}b");
    // a character cut in two is replaced as well
    assert_eq!(capture("h\u{e9}llo".as_bytes(), 2), "h\u{fffd}");
    assert_eq!(capture("h\u{e9}llo".as_bytes(), 3), "h\u{e9}");
}

#[test]
fn capture_room_never_passes_the_limit() {
    assert_eq!(capture_room(0, 10, 100), 10);
    assert_eq!(capture_room(95, 10, 100), 5);
    assert_eq!(capture_room(100, 10, 100), 0);
    assert_eq!(capture_room(150, 10, 100), 0);
    assert_eq!(capture_room(0, 0, 0), 0);
    assert_eq!(capture_room(usize::MAX - 1, usize::MAX, usize::MAX), 1);
}

#[test]
fn conclude_builds_the_result() {
    let r = conclude(Language::Python, Phase::Run, &raw(0, b"out\n", b"warn", KilledReason::NotKilled), 42, 1024);
    assert_eq!(r.status, ExecutionStatus::Success);
    assert_eq!(r.stdout, "out\n");
    assert_eq!(r.stderr, "warn");
    assert_eq!(r.execution_time_ms, 42);
    assert_eq!(r.memory_usage_kb, Some(5 * 1024));

    let r = conclude(Language::Rust, Phase::Compile, &raw(1, b"noise", b"error[E0001]", KilledReason::NotKilled), 1, 1024);
    assert_eq!(r.status, ExecutionStatus::CompileError);
    assert_eq!(r.stdout, "");
    assert_eq!(r.stderr, "error[E0001]");

    let r = conclude(Language::Rust, Phase::Run, &raw(101, b"partial", b"panicked", KilledReason::NotKilled), 1, 4);
    assert_eq!(r.status, ExecutionStatus::RuntimeError);
    assert_eq!(r.stdout, "part");
    assert_eq!(r.stderr, "pani");

    let r = conclude(Language::Python, Phase::Run, &raw(1, b"", b"SyntaxError: bad", KilledReason::NotKilled), 1, 1024);
    assert_eq!(r.status, ExecutionStatus::CompileError);
    assert_eq!(r.stderr, "SyntaxError: bad");

    let r = conclude(Language::Java, Phase::Run, &raw(0, b"so far", b"x", KilledReason::TimedOut), 5000, 1024);
    assert_eq!(r.status, ExecutionStatus::Timeout);
    assert_eq!(r.stdout, "");
    assert_eq!(r.stderr, "Error: Execution timed out");

    let r = conclude(Language::Cpp, Phase::Run, &raw(137, b"so far", b"x", KilledReason::OutOfMemory), 5, 1024);
    assert_eq!(r.status, ExecutionStatus::MemoryLimitExceeded);
    assert_eq!(r.stdout, "");
    assert_eq!(r.stderr, "Error: Memory limit exceeded");
}

#[test]
fn timeouts_are_clamped() {
    let c = EngineConfig::standard();
    assert_eq!(c.effective_timeout(None), 5);
    assert_eq!(c.effective_timeout(Some(0)), 1);
    assert_eq!(c.effective_timeout(Some(1)), 1);
    assert_eq!(c.effective_timeout(Some(17)), 17);
    assert_eq!(c.effective_timeout(Some(30)), 30);
    assert_eq!(c.effective_timeout(Some(31)), 30);
    assert_eq!(c.effective_timeout(Some(u64::MAX)), 30);
    let tight = EngineConfig { default_timeout: 60, max_timeout: 10, ..c };
    assert_eq!(tight.effective_timeout(None), 10);
    assert_eq!(tight.effective_timeout(Some(20)), 10);
    let loose = EngineConfig { default_timeout: 0, max_timeout: 500, ..c };
    assert_eq!(loose.effective_timeout(None), 1);
    assert_eq!(loose.effective_timeout(Some(400)), 30);
    let none = EngineConfig { max_timeout: 0, ..c };
    assert_eq!(none.effective_timeout(Some(9)), 1);
    assert_eq!(c.concurrency(), 4);
    assert_eq!(EngineConfig { max_concurrent_executions: 0, ..c }.concurrency(), 1);
}

#[test]
fn prepare_rejects_empty_code_and_builds_the_job() {
    let c = EngineConfig::standard();
    let e = prepare(&request("", Language::Rust, None), &c).unwrap_err();
    assert_eq!(e.kind(), ErrorKind::Validation);
    assert_eq!(e.detail(), "Code cannot be empty");
    let job = prepare(&request("fn main() {}", Language::Rust, Some(99)), &c).unwrap();
    assert_eq!(job.language, Language::Rust);
    assert_eq!(job.source_file, "main.rs");
    assert_eq!(job.code, "fn main() {}");
    assert!(job.compile_first);
    assert_eq!(job.stdin, "in");
    assert_eq!(job.timeout_seconds, 30);
    assert_eq!(job.memory_ceiling, 268435456);
    assert_eq!(job.output_byte_limit, 65536);
    assert_eq!(job.compile_command, Some(words(&["rustc", "-O", "-o", "main", "main.rs"])));
    assert_eq!(job.run_command, words(&["./main"]));
    let mut r = request("x", Language::Python, None);
    r.input = None;
    let job = prepare(&r, &c).unwrap();
    assert_eq!(job.stdin, "");
    assert!(!job.compile_first);
    assert_eq!(job.compile_command, None);
    assert_eq!(job.run_command, words(&["python3", "main.py"]));
    assert_eq!(job.timeout_seconds, 5);
}

#[test]
fn a_call_passes_its_stages_in_order_and_once() {
    assert_eq!(advance(CallState::Received, CallEvent::AdapterSelected), Some(CallState::Dispatched));
    assert_eq!(advance(CallState::Dispatched, CallEvent::SandboxExited), Some(CallState::Sandboxed));
    assert_eq!(advance(CallState::Sandboxed, CallEvent::StatusAssigned), Some(CallState::Classified));
    assert_eq!(advance(CallState::Classified, CallEvent::ResultDelivered), Some(CallState::Returned));
    let states = [CallState::Received, CallState::Dispatched, CallState::Sandboxed, CallState::Classified, CallState::Returned];
    let events = [CallEvent::AdapterSelected, CallEvent::SandboxExited, CallEvent::StatusAssigned, CallEvent::ResultDelivered];
    let mut accepted = 0;
    for (i, s) in states.iter().enumerate() {
        for (j, e) in events.iter().enumerate() {
            match advance(*s, *e) {
                Some(next) => {
                    accepted += 1;
                    assert_eq!(i, j);
                    assert_eq!(next, states[i + 1]);
                }
                None => assert_ne!(i, j),
            }
        }
    }
    assert_eq!(accepted, 4);
}

#[test]
fn adapters_name_their_commands() {
    assert_eq!(compile_command(Language::Python, "main.py"), None);
    assert_eq!(compile_command(Language::JavaScript, "main.js"), None);
    assert_eq!(
        compile_command(Language::Rust, "main.rs"),
        Some(words(&["rustc", "-O", "-o", "main", "main.rs"]))
    );
    assert_eq!(compile_command(Language::Java, "Main.java"), Some(words(&["javac", "Main.java"])));
    assert_eq!(
        compile_command(Language::Cpp, "main.cpp"),
        Some(words(&["g++", "-O2", "-o", "main", "main.cpp"]))
    );
    assert_eq!(run_command(Language::Python, "main.py"), words(&["python3", "main.py"]));
    assert_eq!(run_command(Language::JavaScript, "main.js"), words(&["node", "main.js"]));
    assert_eq!(run_command(Language::Java, "Main.java"), words(&["java", "-cp", ".", "Main"]));
    assert_eq!(run_command(Language::Rust, "main.rs"), words(&["./main"]));
    assert_eq!(run_command(Language::Cpp, "main.cpp"), words(&["./main"]));
    for language in [Language::Python, Language::Rust, Language::JavaScript, Language::Java, Language::Cpp] {
        assert_eq!(
            compile_command(language, language.source_file_name()).is_some(),
            language.needs_compilation()
        );
    }
}

#[test]
fn a_crash_is_no_kill() {
    assert_eq!(KilledReason::from_exit(false, None), KilledReason::NotKilled);
    assert_eq!(KilledReason::from_exit(true, None), KilledReason::TimedOut);
    assert_eq!(KilledReason::from_exit(true, Some(9)), KilledReason::TimedOut);
    assert_eq!(KilledReason::from_exit(false, Some(9)), KilledReason::OutOfMemory);
    for signal in [1, 2, 6, 8, 11, 13, 15] {
        assert_eq!(KilledReason::from_exit(false, Some(signal)), KilledReason::NotKilled);
        let code = exit_code(None, Some(signal));
        assert_eq!(code, 128 + signal);
        let crashed = raw(code, b"out", b"Segmentation fault", KilledReason::NotKilled);
        assert_eq!(classify(Phase::Run, &crashed), ExecutionStatus::RuntimeError);
    }
    assert_eq!(exit_code(Some(0), None), 0);
    assert_eq!(exit_code(Some(3), Some(9)), 3);
    assert_eq!(exit_code(None, None), -1);
    assert_eq!(exit_code(None, Some(-1)), -1);
    assert_eq!(exit_code(None, Some(i32::MAX)), -1);
    assert_eq!(exit_code(None, Some(0)), 128);
}

#[test]
fn memory_is_reported_only_where_it_was_measured() {
    let mut measured = raw(0, b"", b"", KilledReason::NotKilled);
    measured.peak_memory_bytes = Some(2047);
    assert_eq!(conclude(Language::Python, Phase::Run, &measured, 1, 10).memory_usage_kb, Some(1));
    measured.peak_memory_bytes = None;
    assert_eq!(conclude(Language::Python, Phase::Run, &measured, 1, 10).memory_usage_kb, None);
}
