//! Verified core of a "catbash" command-line tool: write a shell command to a
//! file, pipe that file's contents into an interpreter, and optionally capture,
//! post-process and persist the output.
//!
//! The library holds everything with real logic: flag validation, resolution of
//! the flag set into an execution mode, construction of the step-by-step
//! pipeline plan for each mode, the interpreter command lines, the failure
//! policy, and a verified model of the file staging/retrieval the pipeline
//! performs. The surrounding binary parses arguments and interprets the plan
//! with real file and process operations.

pub mod driver;
pub mod errors;
pub mod flags;
pub mod mode;
pub mod plan;
pub mod store;
pub mod text;
