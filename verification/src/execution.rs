//! Running one submission: the request and result shapes, and the closed sets
//! of languages and outcomes.

use vstd::prelude::*;

pub mod sandbox;
pub mod service;
pub mod simulate;

verus! {

/// Programming languages a submission may be written in.
#[derive(Debug, Clone, Copy, PartialEq, Eq, Structural)]
pub enum Language {
    Python,
    Rust,
    JavaScript,
    Java,
    Cpp,
}

/// How a run ended. Exactly one status belongs to each run.
#[derive(Debug, Clone, Copy, PartialEq, Eq, Structural)]
pub enum ExecutionStatus {
    Success,
    CompileError,
    RuntimeError,
    Timeout,
    MemoryLimitExceeded,
}

/// A request to run one snippet once.
#[derive(Debug, Clone)]
pub struct ExecuteCodeRequest {
    pub code: String,
    pub language: Language,
    pub input: Option<String>,
    pub timeout_seconds: Option<u64>,
}

/// What one run produced.
#[derive(Debug, Clone)]
pub struct ExecutionResult {
    pub stdout: String,
    pub stderr: String,
    pub execution_time_ms: u64,
    pub status: ExecutionStatus,
    pub memory_usage_kb: Option<u64>,
}

/// Mathematical content of an [`ExecuteCodeRequest`].
pub struct ExecuteCodeRequestView {
    pub code: Seq<char>,
    pub language: Language,
    pub input: Option<Seq<char>>,
    pub timeout_seconds: Option<u64>,
}

impl View for ExecuteCodeRequest {
    type V = ExecuteCodeRequestView;

    open spec fn view(&self) -> ExecuteCodeRequestView {
        ExecuteCodeRequestView {
            code: self.code@,
            language: self.language,
            input: match self.input {
                Some(text) => Some(text@),
                None => None,
            },
            timeout_seconds: self.timeout_seconds,
        }
    }
}

/// Mathematical content of an [`ExecutionResult`].
pub struct ExecutionResultView {
    pub stdout: Seq<char>,
    pub stderr: Seq<char>,
    pub execution_time_ms: u64,
    pub status: ExecutionStatus,
    pub memory_usage_kb: Option<u64>,
}

impl View for ExecutionResult {
    type V = ExecutionResultView;

    open spec fn view(&self) -> ExecutionResultView {
        ExecutionResultView {
            stdout: self.stdout@,
            stderr: self.stderr@,
            execution_time_ms: self.execution_time_ms,
            status: self.status,
            memory_usage_kb: self.memory_usage_kb,
        }
    }
}

} // verus!
