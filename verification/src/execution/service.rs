//! One submission, one run: the limits a run is given, the job handed to the
//! sandbox, and the stages a call goes through.

use vstd::prelude::*;
use crate::error::{AppError, AppErrorView, ErrorKind};
use crate::execution::sandbox::{
    command_of, compile_command, compile_words, compiles_ahead, run_command, run_words,
    source_file_of,
};
use crate::text::texts_of;
use crate::execution::{ExecuteCodeRequest, ExecuteCodeRequestView, Language};

verus! {

/// Shortest wall-clock limit a run can have, in seconds.
pub const MIN_TIMEOUT_SECS: u64 = 1;

/// Longest wall-clock limit a run can have, in seconds, whatever is
/// configured or asked for.
pub const MAX_TIMEOUT_SECS: u64 = 30;

/// Wall-clock limit of a run that asks for none, in seconds.
pub const DEFAULT_TIMEOUT_SECS: u64 = 5;

/// The limits that executions and evaluations work under.
#[derive(Debug, Clone, Copy, PartialEq, Eq, Structural)]
pub struct EngineConfig {
    /// Wall-clock limit, in seconds, of a run that asks for none.
    pub default_timeout: u64,
    /// Longest wall-clock limit, in seconds, that a run may ask for.
    pub max_timeout: u64,
    /// How many sandboxed processes one evaluation may have at a time.
    pub max_concurrent_executions: usize,
    /// How many bytes of each output stream are kept.
    pub output_byte_limit: usize,
    /// Memory ceiling of a sandboxed process, in bytes.
    pub memory_ceiling: u64,
}

/// `value`, brought into the range from `low` to `high`.
pub open spec fn clamped(value: u64, low: u64, high: u64) -> u64 {
    if value < low {
        low
    } else if value > high {
        high
    } else {
        value
    }
}

/// The wall-clock limit, in seconds, of a run that asks for `requested`.
///
/// A run that asks for nothing gets the configured default. The limit never
/// leaves the range from one second to the configured maximum, and the
/// configured maximum itself counts for no more than thirty seconds.
pub open spec fn timeout_for(config: EngineConfig, requested: Option<u64>) -> u64 {
    clamped(
        match requested {
            Some(seconds) => seconds,
            None => config.default_timeout,
        },
        MIN_TIMEOUT_SECS,
        clamped(config.max_timeout, MIN_TIMEOUT_SECS, MAX_TIMEOUT_SECS),
    )
}

/// How many processes an evaluation may have in flight: what is configured,
/// and one where nothing is.
pub open spec fn concurrency_of(config: EngineConfig) -> usize {
    if config.max_concurrent_executions == 0 {
        1
    } else {
        config.max_concurrent_executions
    }
}

fn clamp(value: u64, low: u64, high: u64) -> (r: u64)
    ensures
        r == clamped(value, low, high),
{
    if value < low {
        low
    } else if value > high {
        high
    } else {
        value
    }
}

impl EngineConfig {
    /// The limits in use where nothing else is configured: five seconds by
    /// default and thirty at most, four processes at a time, 64 KiB of each
    /// output stream, 256 MiB of memory.
    pub fn standard() -> (r: EngineConfig)
        ensures
            r == (EngineConfig {
                default_timeout: DEFAULT_TIMEOUT_SECS,
                max_timeout: MAX_TIMEOUT_SECS,
                max_concurrent_executions: 4,
                output_byte_limit: 65536,
                memory_ceiling: 268435456,
            }),
    {
        EngineConfig {
            default_timeout: DEFAULT_TIMEOUT_SECS,
            max_timeout: MAX_TIMEOUT_SECS,
            max_concurrent_executions: 4,
            output_byte_limit: 65536,
            memory_ceiling: 268435456,
        }
    }

    /// The wall-clock limit, in seconds, of a run that asks for `requested`.
    pub fn effective_timeout(&self, requested: Option<u64>) -> (r: u64)
        ensures
            r == timeout_for(*self, requested),
            MIN_TIMEOUT_SECS <= r <= MAX_TIMEOUT_SECS,
    {
        let asked = match requested {
            Some(seconds) => seconds,
            None => self.default_timeout,
        };
        clamp(asked, MIN_TIMEOUT_SECS, clamp(self.max_timeout, MIN_TIMEOUT_SECS, MAX_TIMEOUT_SECS))
    }

    /// How many processes an evaluation may have in flight.
    pub fn concurrency(&self) -> (r: usize)
        ensures
            r == concurrency_of(*self),
            r >= 1,
    {
        if self.max_concurrent_executions == 0 {
            1
        } else {
            self.max_concurrent_executions
        }
    }
}

/// What the sandbox is asked to do for one run.
#[derive(Debug, Clone)]
pub struct SandboxJob {
    pub language: Language,
    /// Name of the file the snippet goes to, in a fresh working directory.
    pub source_file: String,
    pub code: String,
    /// Whether the snippet is compiled before it is run.
    pub compile_first: bool,
    /// The command that builds the snippet, where it is compiled first.
    pub compile_command: Option<Vec<String>>,
    /// The command that runs the snippet.
    pub run_command: Vec<String>,
    /// What the program reads from standard input.
    pub stdin: String,
    /// Wall-clock limit in seconds.
    pub timeout_seconds: u64,
    /// Memory ceiling in bytes.
    pub memory_ceiling: u64,
    /// How many bytes of each output stream are kept.
    pub output_byte_limit: usize,
}

/// Mathematical content of a [`SandboxJob`].
pub struct SandboxJobView {
    pub language: Language,
    pub source_file: Seq<char>,
    pub code: Seq<char>,
    pub compile_first: bool,
    pub compile_command: Option<Seq<Seq<char>>>,
    pub run_command: Seq<Seq<char>>,
    pub stdin: Seq<char>,
    pub timeout_seconds: u64,
    pub memory_ceiling: u64,
    pub output_byte_limit: usize,
}

impl View for SandboxJob {
    type V = SandboxJobView;

    open spec fn view(&self) -> SandboxJobView {
        SandboxJobView {
            language: self.language,
            source_file: self.source_file@,
            code: self.code@,
            compile_first: self.compile_first,
            compile_command: command_of(self.compile_command),
            run_command: texts_of(self.run_command@),
            stdin: self.stdin@,
            timeout_seconds: self.timeout_seconds,
            memory_ceiling: self.memory_ceiling,
            output_byte_limit: self.output_byte_limit,
        }
    }
}

/// The job that a valid request amounts to under `config`.
///
/// The adapter is that of the request's language: it names the file that
/// the snippet goes to and the commands that build and run it. A request
/// without input gives the program an empty standard input.
pub open spec fn job_for(request: ExecuteCodeRequestView, config: EngineConfig) -> SandboxJobView {
    SandboxJobView {
        language: request.language,
        source_file: source_file_of(request.language),
        code: request.code,
        compile_first: compiles_ahead(request.language),
        compile_command: compile_words(request.language, source_file_of(request.language)),
        run_command: run_words(request.language, source_file_of(request.language)),
        stdin: match request.input {
            Some(text) => text,
            None => Seq::empty(),
        },
        timeout_seconds: timeout_for(config, request.timeout_seconds),
        memory_ceiling: config.memory_ceiling,
        output_byte_limit: config.output_byte_limit,
    }
}

/// The failure that a request without code is rejected with.
pub open spec fn empty_code_rejection() -> AppErrorView {
    AppErrorView { kind: ErrorKind::Validation, detail: "Code cannot be empty"@ }
}

/// Accepts a request and selects its adapter.
///
/// A request without code is rejected as invalid, and nothing is run for
/// it. Every other request gives the one job that the sandbox is to do.
pub fn prepare(request: &ExecuteCodeRequest, config: &EngineConfig) -> (r: Result<
    SandboxJob,
    AppError,
>)
    ensures
        match r {
            Ok(job) => request@.code.len() > 0 && job@ == job_for(request@, *config),
            Err(e) => request@.code.len() == 0 && e@ == empty_code_rejection(),
        },
{
    if request.code.as_str().is_empty() {
        return Err(AppError::Validation("Code cannot be empty".to_string()));
    }
    let stdin = match &request.input {
        Some(text) => text.clone(),
        None => String::new(),
    };
    let source_file = request.language.source_file_name();
    Ok(
        SandboxJob {
            language: request.language,
            source_file: source_file.to_string(),
            code: request.code.clone(),
            compile_first: request.language.needs_compilation(),
            compile_command: compile_command(request.language, source_file),
            run_command: run_command(request.language, source_file),
            stdin,
            timeout_seconds: config.effective_timeout(request.timeout_seconds),
            memory_ceiling: config.memory_ceiling,
            output_byte_limit: config.output_byte_limit,
        },
    )
}

/// The stages of one call, in the order they are passed.
#[derive(Debug, Clone, Copy, PartialEq, Eq, Structural)]
pub enum CallState {
    /// The request has come in.
    Received,
    /// The adapter is chosen and the sandbox has its job.
    Dispatched,
    /// The sandbox has handed back its raw outcome.
    Sandboxed,
    /// The outcome has its status.
    Classified,
    /// The result has gone back to the caller.
    Returned,
}

/// What moves a call from one stage to the next.
#[derive(Debug, Clone, Copy, PartialEq, Eq, Structural)]
pub enum CallEvent {
    AdapterSelected,
    SandboxExited,
    StatusAssigned,
    ResultDelivered,
}

/// How far a call has come.
pub open spec fn stage_number(state: CallState) -> nat {
    match state {
        CallState::Received => 0,
        CallState::Dispatched => 1,
        CallState::Sandboxed => 2,
        CallState::Classified => 3,
        CallState::Returned => 4,
    }
}

/// The stage that `event` takes a call in `state` to, if it is the event
/// that this stage waits for.
pub open spec fn successor(state: CallState, event: CallEvent) -> Option<CallState> {
    match (state, event) {
        (CallState::Received, CallEvent::AdapterSelected) => Some(CallState::Dispatched),
        (CallState::Dispatched, CallEvent::SandboxExited) => Some(CallState::Sandboxed),
        (CallState::Sandboxed, CallEvent::StatusAssigned) => Some(CallState::Classified),
        (CallState::Classified, CallEvent::ResultDelivered) => Some(CallState::Returned),
        _ => None,
    }
}

/// Moves a call on by one event. An event that the stage does not wait for
/// is refused, and the call stays where it is.
pub fn advance(state: CallState, event: CallEvent) -> (r: Option<CallState>)
    ensures
        r == successor(state, event),
{
    match (state, event) {
        (CallState::Received, CallEvent::AdapterSelected) => Some(CallState::Dispatched),
        (CallState::Dispatched, CallEvent::SandboxExited) => Some(CallState::Sandboxed),
        (CallState::Sandboxed, CallEvent::StatusAssigned) => Some(CallState::Classified),
        (CallState::Classified, CallEvent::ResultDelivered) => Some(CallState::Returned),
        _ => None,
    }
}

/// A call only moves forward, one stage at a time. So no stage is entered
/// twice: a run that failed is reported, never dispatched again.
pub proof fn law_no_stage_twice(state: CallState, event: CallEvent)
    ensures
        successor(state, event) matches Some(next) ==> stage_number(next) == stage_number(state)
            + 1,
        successor(CallState::Returned, event) is None,
{
}

} // verus!
