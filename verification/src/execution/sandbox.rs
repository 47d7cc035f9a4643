//! What the sandbox hands back from one process, and how it is read: the
//! mechanical status, the bounded capture of its output, and the result
//! that the adapter of a language makes of it.

use vstd::prelude::*;
use vstd::slice::slice_subrange;
use vstd::utf8::{decode_utf8, valid_utf8};
use crate::execution::{ExecutionResult, ExecutionResultView, ExecutionStatus, Language};
use crate::text::{contains, has_infix, texts_of};

verus! {

/// Why the sandbox ended a process, if it did.
#[derive(Debug, Clone, Copy, PartialEq, Eq, Structural)]
pub enum KilledReason {
    /// The process ended by itself.
    NotKilled,
    /// The wall-clock limit ran out.
    TimedOut,
    /// The memory ceiling was hit.
    OutOfMemory,
}

/// The signal with which the system ends a process that it may not let
/// go on: the kill signal.
pub const KILL_SIGNAL: i32 = 9;

/// Why a process ended, from what the runner saw of it.
///
/// The runner's own kill at the deadline decides first. A kill signal that
/// the runner did not send came from the system holding the memory ceiling.
/// A process that ended by itself, or that another signal ended, was not
/// killed: a crash is the program's own failure.
pub open spec fn reason_of(timed_out: bool, signal: Option<i32>) -> KilledReason {
    if timed_out {
        KilledReason::TimedOut
    } else if signal == Some(KILL_SIGNAL) {
        KilledReason::OutOfMemory
    } else {
        KilledReason::NotKilled
    }
}

impl KilledReason {
    /// Why a process ended, from whether the runner killed it at the
    /// deadline and from the signal that ended it, if one did.
    pub fn from_exit(timed_out: bool, signal: Option<i32>) -> (r: KilledReason)
        ensures
            r == reason_of(timed_out, signal),
    {
        if timed_out {
            return KilledReason::TimedOut;
        }
        match signal {
            Some(number) => if number == KILL_SIGNAL {
                KilledReason::OutOfMemory
            } else {
                KilledReason::NotKilled
            },
            None => KilledReason::NotKilled,
        }
    }
}

/// The exit code recorded for a process: its own where it ended by
/// itself, and where a signal ended it, 128 more than the number of the
/// signal, as a shell reports it.
pub open spec fn exit_code_of(code: Option<i32>, signal: Option<i32>) -> i32 {
    match code {
        Some(c) => c,
        None => match signal {
            Some(number) => if 0 <= number <= 127 {
                (128 + number) as i32
            } else {
                -1i32
            },
            None => -1i32,
        },
    }
}

/// The exit code recorded for a process. It is zero only where the
/// process ended by itself with zero.
pub fn exit_code(code: Option<i32>, signal: Option<i32>) -> (r: i32)
    ensures
        r == exit_code_of(code, signal),
        r == 0 <==> code == Some(0i32),
{
    match code {
        Some(c) => c,
        None => match signal {
            Some(number) => if 0 <= number && number <= 127 {
                128 + number
            } else {
                -1
            },
            None => -1,
        },
    }
}

/// Which step of an adapter a process belongs to.
#[derive(Debug, Clone, Copy, PartialEq, Eq, Structural)]
pub enum Phase {
    Compile,
    Run,
}

/// The raw outcome of one sandboxed process.
#[derive(Debug, Clone)]
pub struct RawOutcome {
    pub exit_code: i32,
    pub stdout_bytes: Vec<u8>,
    pub stderr_bytes: Vec<u8>,
    pub wall_time_ms: u64,
    /// Peak memory in bytes, where the runner could measure it.
    pub peak_memory_bytes: Option<u64>,
    pub killed_reason: KilledReason,
}

/// Mathematical content of a [`RawOutcome`].
pub struct RawOutcomeView {
    pub exit_code: i32,
    pub stdout_bytes: Seq<u8>,
    pub stderr_bytes: Seq<u8>,
    pub wall_time_ms: u64,
    pub peak_memory_bytes: Option<u64>,
    pub killed_reason: KilledReason,
}

impl View for RawOutcome {
    type V = RawOutcomeView;

    open spec fn view(&self) -> RawOutcomeView {
        RawOutcomeView {
            exit_code: self.exit_code,
            stdout_bytes: self.stdout_bytes@,
            stderr_bytes: self.stderr_bytes@,
            wall_time_ms: self.wall_time_ms,
            peak_memory_bytes: self.peak_memory_bytes,
            killed_reason: self.killed_reason,
        }
    }
}

/// The status that follows mechanically from how a process ended: a kill
/// decides first, then the exit code, read by the phase.
pub open spec fn status_of(phase: Phase, exit_code: i32, killed: KilledReason) -> ExecutionStatus {
    match killed {
        KilledReason::TimedOut => ExecutionStatus::Timeout,
        KilledReason::OutOfMemory => ExecutionStatus::MemoryLimitExceeded,
        KilledReason::NotKilled => {
            if exit_code == 0 {
                ExecutionStatus::Success
            } else {
                match phase {
                    Phase::Compile => ExecutionStatus::CompileError,
                    Phase::Run => ExecutionStatus::RuntimeError,
                }
            }
        },
    }
}

/// Classifies a raw outcome mechanically. No output text is read.
pub fn classify(phase: Phase, raw: &RawOutcome) -> (r: ExecutionStatus)
    ensures
        r == status_of(phase, raw@.exit_code, raw@.killed_reason),
{
    match raw.killed_reason {
        KilledReason::TimedOut => ExecutionStatus::Timeout,
        KilledReason::OutOfMemory => ExecutionStatus::MemoryLimitExceeded,
        KilledReason::NotKilled => {
            if raw.exit_code == 0 {
                ExecutionStatus::Success
            } else {
                match phase {
                    Phase::Compile => ExecutionStatus::CompileError,
                    Phase::Run => ExecutionStatus::RuntimeError,
                }
            }
        },
    }
}

/// Classification is repeatable: two processes of one phase that exit with
/// the same code and were killed for the same reason get the same status,
/// whatever they printed, however long they ran and whatever memory they
/// took.
pub proof fn law_classification_repeatable(phase: Phase, first: RawOutcomeView, second: RawOutcomeView)
    requires
        first.exit_code == second.exit_code,
        first.killed_reason == second.killed_reason,
    ensures
        status_of(phase, first.exit_code, first.killed_reason) == status_of(
            phase,
            second.exit_code,
            second.killed_reason,
        ),
{
}

/// Whether a language is compiled in a step of its own before it is run.
pub open spec fn compiles_ahead(language: Language) -> bool {
    language == Language::Rust || language == Language::Java || language == Language::Cpp
}

impl Language {
    /// Whether the adapter of this language compiles before it runs.
    pub fn needs_compilation(&self) -> (r: bool)
        ensures
            r == compiles_ahead(*self),
    {
        match self {
            Language::Rust | Language::Java | Language::Cpp => true,
            Language::Python | Language::JavaScript => false,
        }
    }

    /// Name of the file that the snippet is written to in its working
    /// directory.
    pub fn source_file_name(&self) -> (r: &'static str)
        ensures
            r@ == source_file_of(*self),
    {
        match self {
            Language::Python => "main.py",
            Language::Rust => "main.rs",
            Language::JavaScript => "main.js",
            Language::Java => "Main.java",
            Language::Cpp => "main.cpp",
        }
    }
}

/// Name of the source file of a snippet in `language`.
pub open spec fn source_file_of(language: Language) -> Seq<char> {
    match language {
        Language::Python => "main.py"@,
        Language::Rust => "main.rs"@,
        Language::JavaScript => "main.js"@,
        Language::Java => "Main.java"@,
        Language::Cpp => "main.cpp"@,
    }
}

/// The command that builds the snippet in the file `source`, for a
/// language that is compiled in a step of its own.
pub open spec fn compile_words(language: Language, source: Seq<char>) -> Option<Seq<Seq<char>>> {
    match language {
        Language::Rust => Some(seq!["rustc"@, "-O"@, "-o"@, "main"@, source]),
        Language::Java => Some(seq!["javac"@, source]),
        Language::Cpp => Some(seq!["g++"@, "-O2"@, "-o"@, "main"@, source]),
        _ => None,
    }
}

/// The command that runs the snippet in the file `source`, once it is
/// built where its language asks for that.
pub open spec fn run_words(language: Language, source: Seq<char>) -> Seq<Seq<char>> {
    match language {
        Language::Python => seq!["python3"@, source],
        Language::JavaScript => seq!["node"@, source],
        Language::Java => seq!["java"@, "-cp"@, "."@, "Main"@],
        _ => seq!["./main"@],
    }
}

/// View of an optional command.
pub open spec fn command_of(words: Option<Vec<String>>) -> Option<Seq<Seq<char>>> {
    match words {
        Some(list) => Some(texts_of(list@)),
        None => None,
    }
}

/// A command made of the given words.
fn command(words: &[&str]) -> (r: Vec<String>)
    ensures
        r@.len() == words@.len(),
        forall|i: int| 0 <= i < words@.len() ==> (#[trigger] r@[i])@ == words@[i]@,
{
    let mut out: Vec<String> = Vec::new();
    let mut i: usize = 0;
    while i < words.len()
        invariant
            i <= words@.len(),
            out@.len() == i,
            forall|j: int| 0 <= j < i ==> (#[trigger] out@[j])@ == words@[j]@,
        decreases words@.len() - i,
    {
        out.push(words[i].to_string());
        i = i + 1;
    }
    out
}

/// The command that builds the snippet in the file `source`; none for a
/// language that has no compile step.
pub fn compile_command(language: Language, source: &str) -> (r: Option<Vec<String>>)
    ensures
        command_of(r) == compile_words(language, source@),
        r is Some <==> compiles_ahead(language),
{
    match language {
        Language::Rust => {
            let words = command(&["rustc", "-O", "-o", "main", source]);
            proof {
                assert(texts_of(words@) =~= seq!["rustc"@, "-O"@, "-o"@, "main"@, source@]);
            }
            Some(words)
        },
        Language::Java => {
            let words = command(&["javac", source]);
            proof {
                assert(texts_of(words@) =~= seq!["javac"@, source@]);
            }
            Some(words)
        },
        Language::Cpp => {
            let words = command(&["g++", "-O2", "-o", "main", source]);
            proof {
                assert(texts_of(words@) =~= seq!["g++"@, "-O2"@, "-o"@, "main"@, source@]);
            }
            Some(words)
        },
        Language::Python | Language::JavaScript => None,
    }
}

/// The command that runs the snippet in the file `source`.
pub fn run_command(language: Language, source: &str) -> (r: Vec<String>)
    ensures
        texts_of(r@) == run_words(language, source@),
{
    match language {
        Language::Python => {
            let words = command(&["python3", source]);
            proof {
                assert(texts_of(words@) =~= seq!["python3"@, source@]);
            }
            words
        },
        Language::JavaScript => {
            let words = command(&["node", source]);
            proof {
                assert(texts_of(words@) =~= seq!["node"@, source@]);
            }
            words
        },
        Language::Java => {
            let words = command(&["java", "-cp", ".", "Main"]);
            proof {
                assert(texts_of(words@) =~= seq!["java"@, "-cp"@, "."@, "Main"@]);
            }
            words
        },
        Language::Rust | Language::Cpp => {
            let words = command(&["./main"]);
            proof {
                assert(texts_of(words@) =~= seq!["./main"@]);
            }
            words
        },
    }
}

/// The status that the adapter of `language` gives a process, from its
/// mechanical status and what it wrote to standard error.
///
/// A language without a compile step reports its syntax errors when run:
/// there a failed run whose error text names a `SyntaxError` counts as a
/// compile error. Everything else keeps its mechanical status.
pub open spec fn adapter_status(
    language: Language,
    mechanical: ExecutionStatus,
    stderr: Seq<char>,
) -> ExecutionStatus {
    if mechanical == ExecutionStatus::RuntimeError && !compiles_ahead(language) && has_infix(
        stderr,
        "SyntaxError"@,
    ) {
        ExecutionStatus::CompileError
    } else {
        mechanical
    }
}

/// Reads the error text of a process as the adapter of `language` does.
pub fn classify_error(language: Language, mechanical: ExecutionStatus, stderr: &str) -> (r:
    ExecutionStatus)
    ensures
        r == adapter_status(language, mechanical, stderr@),
{
    match mechanical {
        ExecutionStatus::RuntimeError => {
            if !language.needs_compilation() && contains(stderr, "SyntaxError") {
                ExecutionStatus::CompileError
            } else {
                ExecutionStatus::RuntimeError
            }
        },
        _ => mechanical,
    }
}

/// The first `limit` bytes of `bytes`, or all of them where there are fewer.
pub open spec fn bounded(bytes: Seq<u8>, limit: nat) -> Seq<u8> {
    if bytes.len() <= limit {
        bytes
    } else {
        bytes.take(limit as int)
    }
}

/// How many of `incoming` further bytes a capture that holds `captured`
/// bytes may still take under `limit`.
pub fn capture_room(captured: usize, incoming: usize, limit: usize) -> (r: usize)
    ensures
        r <= incoming,
        captured >= limit ==> r == 0,
        captured < limit ==> r == if incoming <= limit - captured {
            incoming
        } else {
            (limit - captured) as usize
        },
{
    if captured >= limit {
        0
    } else if incoming <= limit - captured {
        incoming
    } else {
        limit - captured
    }
}

/// The text that `String::from_utf8_lossy` makes of `bytes`.
pub uninterp spec fn lossy_text(bytes: Seq<u8>) -> Seq<char>;

/// `String::from_utf8_lossy`: the text of `bytes`, with each malformed
/// stretch replaced. Bytes that are valid UTF-8 decode to the text they
/// encode.
#[verifier::external_body]
fn decode_lossy(bytes: &[u8]) -> (r: String)
    ensures
        r@ == lossy_text(bytes@),
        valid_utf8(bytes@) ==> r@ == decode_utf8(bytes@),
{
    String::from_utf8_lossy(bytes).into_owned()
}

/// The text of a captured stream: what lies beyond `limit` bytes is cut
/// off, the rest is decoded.
pub fn capture(bytes: &[u8], limit: usize) -> (r: String)
    ensures
        r@ == lossy_text(bounded(bytes@, limit as nat)),
{
    if bytes.len() <= limit {
        decode_lossy(bytes)
    } else {
        decode_lossy(slice_subrange(bytes, 0, limit))
    }
}

/// The result of a process of `language`, given the texts captured from it.
///
/// The status is the adapter's. Standard output is kept where the program
/// ran to its end, and dropped where it was killed or never built. Standard
/// error is a fixed message where the sandbox killed the process, and the
/// captured text otherwise. The time is the caller's measurement, the
/// memory the peak in whole kilobytes, where a peak was measured.
pub open spec fn concluded(
    language: Language,
    phase: Phase,
    raw: RawOutcomeView,
    stdout: Seq<char>,
    stderr: Seq<char>,
    elapsed_ms: u64,
) -> ExecutionResultView {
    let status = adapter_status(
        language,
        status_of(phase, raw.exit_code, raw.killed_reason),
        stderr,
    );
    ExecutionResultView {
        stdout: if status == ExecutionStatus::Success || status == ExecutionStatus::RuntimeError {
            stdout
        } else {
            Seq::empty()
        },
        stderr: match status {
            ExecutionStatus::Timeout => "Error: Execution timed out"@,
            ExecutionStatus::MemoryLimitExceeded => "Error: Memory limit exceeded"@,
            _ => stderr,
        },
        execution_time_ms: elapsed_ms,
        status,
        memory_usage_kb: match raw.peak_memory_bytes {
            Some(bytes) => Some((bytes / 1024) as u64),
            None => None,
        },
    }
}

/// Makes the result of one run from the raw outcome of its last process.
///
/// Both streams are cut at `output_byte_limit` bytes and decoded; the rest
/// is as [`concluded`] says. `elapsed_ms` is the wall-clock time that the
/// caller measured around the whole invocation.
pub fn conclude(
    language: Language,
    phase: Phase,
    raw: &RawOutcome,
    elapsed_ms: u64,
    output_byte_limit: usize,
) -> (r: ExecutionResult)
    ensures
        r@ == concluded(
            language,
            phase,
            raw@,
            lossy_text(bounded(raw@.stdout_bytes, output_byte_limit as nat)),
            lossy_text(bounded(raw@.stderr_bytes, output_byte_limit as nat)),
            elapsed_ms,
        ),
{
    let stdout = capture(raw.stdout_bytes.as_slice(), output_byte_limit);
    let stderr = capture(raw.stderr_bytes.as_slice(), output_byte_limit);
    let status = classify_error(language, classify(phase, raw), stderr.as_str());
    let shown_stdout = match status {
        ExecutionStatus::Success | ExecutionStatus::RuntimeError => stdout,
        _ => String::new(),
    };
    let shown_stderr = match status {
        ExecutionStatus::Timeout => "Error: Execution timed out".to_string(),
        ExecutionStatus::MemoryLimitExceeded => "Error: Memory limit exceeded".to_string(),
        _ => stderr,
    };
    ExecutionResult {
        stdout: shown_stdout,
        stderr: shown_stderr,
        execution_time_ms: elapsed_ms,
        status,
        memory_usage_kb: match raw.peak_memory_bytes {
            Some(bytes) => Some(bytes / 1024),
            None => None,
        },
    }
}

} // verus!
