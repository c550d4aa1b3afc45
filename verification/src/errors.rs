//! The error kinds the pipeline can surface: illegal flag combinations,
//! failing captured executions, missing source files, file-system failures,
//! and flag shapes the driver's dispatch table does not cover.

use vstd::prelude::*;

verus! {

/// Every failure the tool reports. Each variant carries a human-readable
/// message; the process prints it and exits non-zero.
#[derive(Debug, PartialEq, Eq)]
pub enum AppError {
    /// An illegal flag combination, detected before any side effect.
    Validation(String),
    /// A capturing run's interpreter exited with a non-zero status.
    ExecutionFailure(String),
    /// A required source file does not exist.
    FileNotFound(String),
    /// Writing, reading or deleting a file failed.
    IoFailure(String),
    /// A flag shape the dispatch table does not cover; unreachable after
    /// validation, treated as fatal rather than silently ignored.
    InternalLogic(String),
}

impl AppError {
    /// The message carried by this error, for reporting on the error stream.
    pub fn message(&self) -> (m: &str)
        ensures
            m@ == match self {
                AppError::Validation(s) => s@,
                AppError::ExecutionFailure(s) => s@,
                AppError::FileNotFound(s) => s@,
                AppError::IoFailure(s) => s@,
                AppError::InternalLogic(s) => s@,
            },
    {
        match self {
            AppError::Validation(s) => s.as_str(),
            AppError::ExecutionFailure(s) => s.as_str(),
            AppError::FileNotFound(s) => s.as_str(),
            AppError::IoFailure(s) => s.as_str(),
            AppError::InternalLogic(s) => s.as_str(),
        }
    }
}

/// The process exit status for an overall pipeline outcome: zero on success,
/// one on any reported error.
pub fn exit_code(outcome: &Result<(), AppError>) -> (c: i32)
    ensures
        c == 0 <==> outcome is Ok,
        c == 0 || c == 1,
{
    match outcome {
        Ok(_) => 0,
        Err(_) => 1,
    }
}

} // verus!
