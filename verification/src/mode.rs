//! The mode resolver: classifies a validated flag set into exactly one
//! execution mode, using only the presence or absence of each flag and the
//! number of positional file arguments.

use crate::errors::AppError;
use crate::flags::{flags_valid, has_flags, shape_ok, validate_flags, validation_error_message,
    FlagSet, FlagSetView};
use crate::text::{too_many_files_message, too_many_files_text};
use vstd::prelude::*;

verus! {

/// The closed set of execution modes one invocation can resolve to. Created
/// once per invocation, consumed exactly once by the pipeline driver.
#[derive(Debug, PartialEq, Eq)]
pub enum ExecutionMode {
    /// Nothing was given; the tool only reports that there is nothing to do.
    NoArgs,
    /// A single positional file: execute that file directly, with no capture
    /// or post-processing.
    DefaultBehavior(String),
    /// One or more flags: the flag set drives the pipeline.
    DefinedFlags(FlagSet),
    /// A flag/file shape outside the legal ones, with the message to report.
    InvalidCombination(String),
}

/// The mathematical model of an `ExecutionMode`.
#[verifier::ext_equal]
pub enum ModeView {
    NoArgs,
    DefaultBehavior(Seq<char>),
    DefinedFlags(FlagSetView),
    InvalidCombination(Seq<char>),
}

impl View for ExecutionMode {
    type V = ModeView;

    open spec fn view(&self) -> ModeView {
        match self {
            ExecutionMode::NoArgs => ModeView::NoArgs,
            ExecutionMode::DefaultBehavior(p) => ModeView::DefaultBehavior(p@),
            ExecutionMode::DefinedFlags(f) => ModeView::DefinedFlags(f@),
            ExecutionMode::InvalidCombination(m) => ModeView::InvalidCombination(m@),
        }
    }
}

/// The mode a flag set classifies into, assuming its interdependency
/// invariants hold: no flags and no file is the informational mode, no flags
/// and one file is default behavior, and any other mix of positional files
/// with flags (or more than one file) is an invalid combination.
pub open spec fn resolve(f: FlagSetView) -> ModeView {
    if !has_flags(f) && f.files.len() == 0 {
        ModeView::NoArgs
    } else if !has_flags(f) && f.files.len() == 1 {
        ModeView::DefaultBehavior(f.files[0])
    } else if !has_flags(f) {
        ModeView::InvalidCombination(too_many_files_message(f.files))
    } else if f.files.len() == 0 {
        ModeView::DefinedFlags(f)
    } else {
        ModeView::InvalidCombination(
            "Cannot mix positional files with flags. Use either flags OR a single file."@,
        )
    }
}

/// The mode resolver: validates the flag set's interdependency invariants,
/// then classifies it into exactly one execution mode. It is a pure function
/// of the flag set — no file-system operation happens here, so a rejected
/// invocation has had no side effect.
pub fn determine_app_mode(flags: FlagSet) -> (r: Result<ExecutionMode, AppError>)
    ensures
        r is Ok <==> flags_valid(flags@),
        r matches Ok(m) ==> m@ == resolve(flags@),
        r matches Err(e) ==> e matches AppError::Validation(m) && m@ == validation_error_message(
            flags@,
        ),
{
    match validate_flags(&flags) {
        Err(e) => {
            return Err(e);
        },
        Ok(_) => {},
    }
    let any_flag = flags.input.is_some() || flags.output.is_some() || flags.capture
        || flags.target.is_some() || flags.arguments.is_some()
        || flags.arguments_from_file.is_some();
    let file_count = flags.files.len();
    if !any_flag && file_count == 0 {
        Ok(ExecutionMode::NoArgs)
    } else if !any_flag && file_count == 1 {
        let path = flags.files[0].clone();
        Ok(ExecutionMode::DefaultBehavior(path))
    } else if !any_flag {
        Ok(ExecutionMode::InvalidCombination(too_many_files_text(&flags.files)))
    } else if file_count == 0 {
        Ok(ExecutionMode::DefinedFlags(flags))
    } else {
        Ok(ExecutionMode::InvalidCombination(String::from_str(
            "Cannot mix positional files with flags. Use either flags OR a single file.",
        )))
    }
}

/// Every flag set that breaks an invariant — an illegal flag interdependency,
/// or a shape mixing positional files with flags or naming several files — is
/// rejected: the resolver either fails validation or resolves to an invalid
/// combination, never to a runnable mode. The resolver itself performs no
/// file-system operation, so rejection happens with zero side effects.
pub proof fn lemma_invalid_flag_sets_rejected(f: FlagSetView)
    requires
        !(flags_valid(f) && shape_ok(f)),
    ensures
        !flags_valid(f) || resolve(f) is InvalidCombination,
{
}

} // verus!
