//! The validated set of command-line inputs and the rules that constrain it.
//!
//! A `FlagSet` is what the argument parser hands over: each optional flag
//! value, the capture toggle, and the positional file arguments. The flags
//! constrain one another: capture needs an output file, and the target,
//! arguments and arguments-from-file flags each need both an output file and
//! capture; the two argument sources are mutually exclusive.

use crate::errors::AppError;
use vstd::prelude::*;

verus! {

/// The optional inputs of one invocation, as handed over by argument parsing.
#[derive(Debug, PartialEq, Eq)]
pub struct FlagSet {
    /// Text to stage into a file before execution.
    pub input: Option<String>,
    /// The file to execute (and to overwrite with `input` first, if given).
    pub output: Option<String>,
    /// Whether the executed output is captured.
    pub capture: bool,
    /// The file where the final captured or post-processed value is persisted.
    pub target: Option<String>,
    /// An inline shell expression to post-process the captured value.
    pub arguments: Option<String>,
    /// A file holding the post-processing expression.
    pub arguments_from_file: Option<String>,
    /// Positional file arguments, mutually exclusive with all flags.
    pub files: Vec<String>,
}

/// The mathematical model of a `FlagSet`: every text as a sequence of
/// characters.
#[verifier::ext_equal]
pub struct FlagSetView {
    pub input: Option<Seq<char>>,
    pub output: Option<Seq<char>>,
    pub capture: bool,
    pub target: Option<Seq<char>>,
    pub arguments: Option<Seq<char>>,
    pub arguments_from_file: Option<Seq<char>>,
    pub files: Seq<Seq<char>>,
}

impl View for FlagSet {
    type V = FlagSetView;

    open spec fn view(&self) -> FlagSetView {
        FlagSetView {
            input: self.input.deep_view(),
            output: self.output.deep_view(),
            capture: self.capture,
            target: self.target.deep_view(),
            arguments: self.arguments.deep_view(),
            arguments_from_file: self.arguments_from_file.deep_view(),
            files: self.files.deep_view(),
        }
    }
}

/// Whether any recognized flag (excluding the positional files) is present.
pub open spec fn has_flags(f: FlagSetView) -> bool {
    ||| f.input is Some
    ||| f.output is Some
    ||| f.capture
    ||| f.target is Some
    ||| f.arguments is Some
    ||| f.arguments_from_file is Some
}

/// The flag-interdependency invariants: capture requires an output file;
/// target, arguments and arguments-from-file each require both an output file
/// and capture; the two argument sources exclude one another.
pub open spec fn flags_valid(f: FlagSetView) -> bool {
    &&& f.capture ==> f.output is Some
    &&& f.target is Some ==> f.output is Some && f.capture
    &&& f.arguments is Some ==> f.output is Some && f.capture
    &&& f.arguments_from_file is Some ==> f.output is Some && f.capture
    &&& !(f.arguments is Some && f.arguments_from_file is Some)
}

/// The legal overall shapes: either no flags and at most one positional file,
/// or at least one flag and no positional file.
pub open spec fn shape_ok(f: FlagSetView) -> bool {
    ||| !has_flags(f) && f.files.len() <= 1
    ||| has_flags(f) && f.files.len() == 0
}

/// The message of the first flag-interdependency check that fails, in the
/// fixed order the validator applies them.
pub open spec fn validation_error_message(f: FlagSetView) -> Seq<char> {
    if f.capture && f.output is None {
        "Capture flag requires an output file to catbash"@
    } else if f.target is Some && !(f.output is Some && f.capture) {
        "Target flag requires an output file to catbash and capture flag to be present"@
    } else if f.arguments is Some && !(f.output is Some && f.capture) {
        "Arguments flag requires an output file to catbash and capture flag to be present"@
    } else if f.arguments_from_file is Some && !(f.output is Some && f.capture) {
        "Arguments from file flag requires an output file to catbash and capture flag to be present"@
    } else {
        "Cannot provide arguments from -a and -f flags simultaneously"@
    }
}

/// Checks the flag-interdependency invariants, reporting the first violation
/// in a fixed order so error messages are deterministic.
pub fn validate_flags(f: &FlagSet) -> (r: Result<(), AppError>)
    ensures
        r is Ok <==> flags_valid(f@),
        r matches Err(e) ==> e matches AppError::Validation(m) && m@ == validation_error_message(
            f@,
        ),
{
    if f.capture && f.output.is_none() {
        return Err(AppError::Validation(String::from_str(
            "Capture flag requires an output file to catbash",
        )));
    }
    if f.target.is_some() && !(f.output.is_some() && f.capture) {
        return Err(AppError::Validation(String::from_str(
            "Target flag requires an output file to catbash and capture flag to be present",
        )));
    }
    if f.arguments.is_some() && !(f.output.is_some() && f.capture) {
        return Err(AppError::Validation(String::from_str(
            "Arguments flag requires an output file to catbash and capture flag to be present",
        )));
    }
    if f.arguments_from_file.is_some() && !(f.output.is_some() && f.capture) {
        return Err(AppError::Validation(String::from_str(
            "Arguments from file flag requires an output file to catbash and capture flag to be present",
        )));
    }
    if f.arguments.is_some() && f.arguments_from_file.is_some() {
        return Err(AppError::Validation(String::from_str(
            "Cannot provide arguments from -a and -f flags simultaneously",
        )));
    }
    Ok(())
}

} // verus!
