//! The pipeline driver: for each resolved execution mode, the fixed sequence
//! of side-effecting steps to perform — staging, execution, capture,
//! post-processing, persistence — and the failure policy for each step.
//!
//! The driver's decisions are all here, verified; the binary around the
//! library walks the returned plan in order and performs each step with real
//! file and process operations, aborting at the first failure of a step whose
//! failure is fatal.

use crate::errors::AppError;
use crate::flags::{flags_valid, has_flags, FlagSet, FlagSetView};
use crate::mode::{resolve, ExecutionMode, ModeView};
use vstd::prelude::*;

verus! {

/// The fixed path used to stage input given without an output file; deleted
/// again once execution completes.
pub open spec fn temp_path() -> Seq<char> {
    "temp.txt"@
}

/// Where a post-processing shell expression comes from: given inline, or read
/// from a named file just before use.
#[derive(Debug, PartialEq, Eq)]
pub enum ArgsSource {
    Inline(String),
    FromFile(String),
}

/// The model of an `ArgsSource`.
#[verifier::ext_equal]
pub enum ArgsSourceView {
    Inline(Seq<char>),
    FromFile(Seq<char>),
}

impl View for ArgsSource {
    type V = ArgsSourceView;

    open spec fn view(&self) -> ArgsSourceView {
        match self {
            ArgsSource::Inline(a) => ArgsSourceView::Inline(a@),
            ArgsSource::FromFile(p) => ArgsSourceView::FromFile(p@),
        }
    }
}

impl DeepView for ArgsSource {
    type V = ArgsSourceView;

    open spec fn deep_view(&self) -> ArgsSourceView {
        self.view()
    }
}

/// One step of a pipeline run. Steps are performed strictly in order; each
/// completes fully before the next begins.
#[derive(Debug, PartialEq, Eq)]
pub enum Step {
    /// Print an informational message on standard output.
    Notice { message: String },
    /// Overwrite the file at `dest` with `content`, creating it if absent.
    Stage { content: String, dest: String },
    /// Execute the file at `path` for its side effects only; a non-zero exit
    /// status is advisory, reported but not fatal.
    Execute { path: String },
    /// Execute the file at `path` and capture its combined output, mirroring
    /// it to the terminal when `mirror` holds; a non-zero exit status aborts
    /// the pipeline.
    CaptureExecute { path: String, mirror: bool },
    /// Run the post-processing expression over the captured value, replacing
    /// the captured value with the result; mirrors it when `mirror` holds.
    PostProcess { source: ArgsSource, mirror: bool },
    /// Overwrite the file at `target` with the current captured value.
    Persist { target: String },
    /// Delete the file at `path`.
    Delete { path: String },
}

/// The model of a `Step`.
#[verifier::ext_equal]
pub enum StepView {
    Notice { message: Seq<char> },
    Stage { content: Seq<char>, dest: Seq<char> },
    Execute { path: Seq<char> },
    CaptureExecute { path: Seq<char>, mirror: bool },
    PostProcess { source: ArgsSourceView, mirror: bool },
    Persist { target: Seq<char> },
    Delete { path: Seq<char> },
}

impl View for Step {
    type V = StepView;

    open spec fn view(&self) -> StepView {
        match self {
            Step::Notice { message } => StepView::Notice { message: message@ },
            Step::Stage { content, dest } => StepView::Stage { content: content@, dest: dest@ },
            Step::Execute { path } => StepView::Execute { path: path@ },
            Step::CaptureExecute { path, mirror } => StepView::CaptureExecute {
                path: path@,
                mirror: *mirror,
            },
            Step::PostProcess { source, mirror } => StepView::PostProcess {
                source: source@,
                mirror: *mirror,
            },
            Step::Persist { target } => StepView::Persist { target: target@ },
            Step::Delete { path } => StepView::Delete { path: path@ },
        }
    }
}

impl DeepView for Step {
    type V = StepView;

    open spec fn deep_view(&self) -> StepView {
        self.view()
    }
}

/// The caution emitted when input is staged to the fixed temporary path.
pub open spec fn temp_file_caution() -> Seq<char> {
    "Avoid using -i flag alone, the application might not be able to create or remove the temporary file created to execute"@
}

/// The informational message for an invocation without any argument.
pub open spec fn no_args_message() -> Seq<char> {
    "No arguments given, nothing to do."@
}

/// The dispatch table of the defined-flags mode: for each legal combination of
/// input, output, capture, target and argument source, the fixed step sequence
/// to run. A combination outside the table has no plan; the driver treats it
/// as a fatal internal-logic error.
pub open spec fn defined_flags_plan(f: FlagSetView) -> Option<Seq<StepView>> {
    match (f.input, f.output, f.capture, f.target, f.arguments, f.arguments_from_file) {
        (Some(i), None, false, None, None, None) => Some(
            seq![
                StepView::Notice { message: temp_file_caution() },
                StepView::Stage { content: i, dest: temp_path() },
                StepView::Execute { path: temp_path() },
                StepView::Delete { path: temp_path() },
            ],
        ),
        (None, Some(o), false, None, None, None) => Some(seq![StepView::Execute { path: o }]),
        (Some(i), Some(o), false, None, None, None) => Some(
            seq![
                StepView::Stage { content: i, dest: o },
                StepView::Execute { path: o },
            ],
        ),
        (Some(i), Some(o), true, None, None, None) => Some(
            seq![
                StepView::Stage { content: i, dest: o },
                StepView::CaptureExecute { path: o, mirror: true },
            ],
        ),
        (Some(i), Some(o), true, Some(t), None, None) => Some(
            seq![
                StepView::Stage { content: i, dest: o },
                StepView::CaptureExecute { path: o, mirror: false },
                StepView::Persist { target: t },
            ],
        ),
        (None, Some(o), true, None, Some(a), None) => Some(
            seq![
                StepView::CaptureExecute { path: o, mirror: false },
                StepView::PostProcess { source: ArgsSourceView::Inline(a), mirror: true },
            ],
        ),
        (None, Some(o), true, Some(t), Some(a), None) => Some(
            seq![
                StepView::CaptureExecute { path: o, mirror: false },
                StepView::PostProcess { source: ArgsSourceView::Inline(a), mirror: false },
                StepView::Persist { target: t },
            ],
        ),
        (Some(i), Some(o), true, None, Some(a), None) => Some(
            seq![
                StepView::Stage { content: i, dest: o },
                StepView::CaptureExecute { path: o, mirror: false },
                StepView::PostProcess { source: ArgsSourceView::Inline(a), mirror: true },
            ],
        ),
        (Some(i), Some(o), true, Some(t), Some(a), None) => Some(
            seq![
                StepView::Stage { content: i, dest: o },
                StepView::CaptureExecute { path: o, mirror: false },
                StepView::PostProcess { source: ArgsSourceView::Inline(a), mirror: false },
                StepView::Persist { target: t },
            ],
        ),
        (None, Some(o), true, None, None, Some(af)) => Some(
            seq![
                StepView::CaptureExecute { path: o, mirror: false },
                StepView::PostProcess { source: ArgsSourceView::FromFile(af), mirror: true },
            ],
        ),
        (None, Some(o), true, Some(t), None, Some(af)) => Some(
            seq![
                StepView::CaptureExecute { path: o, mirror: false },
                StepView::PostProcess { source: ArgsSourceView::FromFile(af), mirror: false },
                StepView::Persist { target: t },
            ],
        ),
        (Some(i), Some(o), true, None, None, Some(af)) => Some(
            seq![
                StepView::Stage { content: i, dest: o },
                StepView::CaptureExecute { path: o, mirror: false },
                StepView::PostProcess { source: ArgsSourceView::FromFile(af), mirror: true },
            ],
        ),
        (Some(i), Some(o), true, Some(t), None, Some(af)) => Some(
            seq![
                StepView::Stage { content: i, dest: o },
                StepView::CaptureExecute { path: o, mirror: false },
                StepView::PostProcess { source: ArgsSourceView::FromFile(af), mirror: false },
                StepView::Persist { target: t },
            ],
        ),
        _ => None,
    }
}

/// The plan of a resolved mode: the informational message for no arguments,
/// direct execution for a single positional file, the dispatch table for
/// defined flags. An invalid combination has no plan; it is reported instead.
pub open spec fn mode_plan(m: ModeView) -> Option<Seq<StepView>> {
    match m {
        ModeView::NoArgs => Some(seq![StepView::Notice { message: no_args_message() }]),
        ModeView::DefaultBehavior(p) => Some(seq![StepView::Execute { path: p }]),
        ModeView::DefinedFlags(f) => defined_flags_plan(f),
        ModeView::InvalidCombination(_) => None,
    }
}

/// Builds the step sequence for the defined-flags mode from the dispatch
/// table. Fails with an internal-logic error on any combination outside the
/// table, rather than ignoring it.
pub fn plan_defined_flags(f: &FlagSet) -> (r: Result<Vec<Step>, AppError>)
    ensures
        r is Ok <==> defined_flags_plan(f@) is Some,
        r matches Ok(steps) ==> defined_flags_plan(f@) == Some(steps.deep_view()),
        r matches Err(e) ==> e matches AppError::InternalLogic(_),
{
    match (&f.input, &f.output, f.capture, &f.target, &f.arguments, &f.arguments_from_file) {
        (Some(i), None, false, None, None, None) => {
            let mut steps: Vec<Step> = Vec::new();
            steps.push(Step::Notice {
                message: String::from_str(
                    "Avoid using -i flag alone, the application might not be able to create or remove the temporary file created to execute",
                ),
            });
            steps.push(Step::Stage { content: i.clone(), dest: String::from_str("temp.txt") });
            steps.push(Step::Execute { path: String::from_str("temp.txt") });
            steps.push(Step::Delete { path: String::from_str("temp.txt") });
            proof {
                assert(defined_flags_plan(f@) == Some(steps.deep_view())) by {
                    assert(defined_flags_plan(f@)->Some_0 =~~= steps.deep_view());
                }
            }
            Ok(steps)
        },
        (None, Some(o), false, None, None, None) => {
            let mut steps: Vec<Step> = Vec::new();
            steps.push(Step::Execute { path: o.clone() });
            proof {
                assert(defined_flags_plan(f@) == Some(steps.deep_view())) by {
                    assert(defined_flags_plan(f@)->Some_0 =~~= steps.deep_view());
                }
            }
            Ok(steps)
        },
        (Some(i), Some(o), false, None, None, None) => {
            let mut steps: Vec<Step> = Vec::new();
            steps.push(Step::Stage { content: i.clone(), dest: o.clone() });
            steps.push(Step::Execute { path: o.clone() });
            proof {
                assert(defined_flags_plan(f@) == Some(steps.deep_view())) by {
                    assert(defined_flags_plan(f@)->Some_0 =~~= steps.deep_view());
                }
            }
            Ok(steps)
        },
        (Some(i), Some(o), true, None, None, None) => {
            let mut steps: Vec<Step> = Vec::new();
            steps.push(Step::Stage { content: i.clone(), dest: o.clone() });
            steps.push(Step::CaptureExecute { path: o.clone(), mirror: true });
            proof {
                assert(defined_flags_plan(f@) == Some(steps.deep_view())) by {
                    assert(defined_flags_plan(f@)->Some_0 =~~= steps.deep_view());
                }
            }
            Ok(steps)
        },
        (Some(i), Some(o), true, Some(t), None, None) => {
            let mut steps: Vec<Step> = Vec::new();
            steps.push(Step::Stage { content: i.clone(), dest: o.clone() });
            steps.push(Step::CaptureExecute { path: o.clone(), mirror: false });
            steps.push(Step::Persist { target: t.clone() });
            proof {
                assert(defined_flags_plan(f@) == Some(steps.deep_view())) by {
                    assert(defined_flags_plan(f@)->Some_0 =~~= steps.deep_view());
                }
            }
            Ok(steps)
        },
        (None, Some(o), true, None, Some(a), None) => {
            let mut steps: Vec<Step> = Vec::new();
            steps.push(Step::CaptureExecute { path: o.clone(), mirror: false });
            steps.push(Step::PostProcess { source: ArgsSource::Inline(a.clone()), mirror: true });
            proof {
                assert(defined_flags_plan(f@) == Some(steps.deep_view())) by {
                    assert(defined_flags_plan(f@)->Some_0 =~~= steps.deep_view());
                }
            }
            Ok(steps)
        },
        (None, Some(o), true, Some(t), Some(a), None) => {
            let mut steps: Vec<Step> = Vec::new();
            steps.push(Step::CaptureExecute { path: o.clone(), mirror: false });
            steps.push(Step::PostProcess { source: ArgsSource::Inline(a.clone()), mirror: false });
            steps.push(Step::Persist { target: t.clone() });
            proof {
                assert(defined_flags_plan(f@) == Some(steps.deep_view())) by {
                    assert(defined_flags_plan(f@)->Some_0 =~~= steps.deep_view());
                }
            }
            Ok(steps)
        },
        (Some(i), Some(o), true, None, Some(a), None) => {
            let mut steps: Vec<Step> = Vec::new();
            steps.push(Step::Stage { content: i.clone(), dest: o.clone() });
            steps.push(Step::CaptureExecute { path: o.clone(), mirror: false });
            steps.push(Step::PostProcess { source: ArgsSource::Inline(a.clone()), mirror: true });
            proof {
                assert(defined_flags_plan(f@) == Some(steps.deep_view())) by {
                    assert(defined_flags_plan(f@)->Some_0 =~~= steps.deep_view());
                }
            }
            Ok(steps)
        },
        (Some(i), Some(o), true, Some(t), Some(a), None) => {
            let mut steps: Vec<Step> = Vec::new();
            steps.push(Step::Stage { content: i.clone(), dest: o.clone() });
            steps.push(Step::CaptureExecute { path: o.clone(), mirror: false });
            steps.push(Step::PostProcess { source: ArgsSource::Inline(a.clone()), mirror: false });
            steps.push(Step::Persist { target: t.clone() });
            proof {
                assert(defined_flags_plan(f@) == Some(steps.deep_view())) by {
                    assert(defined_flags_plan(f@)->Some_0 =~~= steps.deep_view());
                }
            }
            Ok(steps)
        },
        (None, Some(o), true, None, None, Some(af)) => {
            let mut steps: Vec<Step> = Vec::new();
            steps.push(Step::CaptureExecute { path: o.clone(), mirror: false });
            steps.push(Step::PostProcess {
                source: ArgsSource::FromFile(af.clone()),
                mirror: true,
            });
            proof {
                assert(defined_flags_plan(f@) == Some(steps.deep_view())) by {
                    assert(defined_flags_plan(f@)->Some_0 =~~= steps.deep_view());
                }
            }
            Ok(steps)
        },
        (None, Some(o), true, Some(t), None, Some(af)) => {
            let mut steps: Vec<Step> = Vec::new();
            steps.push(Step::CaptureExecute { path: o.clone(), mirror: false });
            steps.push(Step::PostProcess {
                source: ArgsSource::FromFile(af.clone()),
                mirror: false,
            });
            steps.push(Step::Persist { target: t.clone() });
            proof {
                assert(defined_flags_plan(f@) == Some(steps.deep_view())) by {
                    assert(defined_flags_plan(f@)->Some_0 =~~= steps.deep_view());
                }
            }
            Ok(steps)
        },
        (Some(i), Some(o), true, None, None, Some(af)) => {
            let mut steps: Vec<Step> = Vec::new();
            steps.push(Step::Stage { content: i.clone(), dest: o.clone() });
            steps.push(Step::CaptureExecute { path: o.clone(), mirror: false });
            steps.push(Step::PostProcess {
                source: ArgsSource::FromFile(af.clone()),
                mirror: true,
            });
            proof {
                assert(defined_flags_plan(f@) == Some(steps.deep_view())) by {
                    assert(defined_flags_plan(f@)->Some_0 =~~= steps.deep_view());
                }
            }
            Ok(steps)
        },
        (Some(i), Some(o), true, Some(t), None, Some(af)) => {
            let mut steps: Vec<Step> = Vec::new();
            steps.push(Step::Stage { content: i.clone(), dest: o.clone() });
            steps.push(Step::CaptureExecute { path: o.clone(), mirror: false });
            steps.push(Step::PostProcess {
                source: ArgsSource::FromFile(af.clone()),
                mirror: false,
            });
            steps.push(Step::Persist { target: t.clone() });
            proof {
                assert(defined_flags_plan(f@) == Some(steps.deep_view())) by {
                    assert(defined_flags_plan(f@)->Some_0 =~~= steps.deep_view());
                }
            }
            Ok(steps)
        },
        _ => Err(AppError::InternalLogic(String::from_str(
            "Flag combination outside the dispatch table",
        ))),
    }
}

/// The plan of the default-behavior mode: execute the named file directly,
/// with no staging, capture or post-processing.
pub fn handle_default_behavior(filename: &str) -> (steps: Vec<Step>)
    ensures
        steps.deep_view() == seq![StepView::Execute { path: filename@ }],
{
    let mut steps: Vec<Step> = Vec::new();
    steps.push(Step::Execute { path: String::from_str(filename) });
    proof {
        assert(steps.deep_view() =~~= seq![StepView::Execute { path: filename@ }]);
    }
    steps
}

/// Turns a resolved mode into its step sequence, or into the error to report:
/// an invalid combination becomes a validation error carrying its message, and
/// a defined-flags shape outside the dispatch table a fatal internal error.
pub fn plan_for_mode(mode: ExecutionMode) -> (r: Result<Vec<Step>, AppError>)
    ensures
        r is Ok <==> mode_plan(mode@) is Some,
        r matches Ok(steps) ==> mode_plan(mode@) == Some(steps.deep_view()),
        r matches Err(e) ==> match mode@ {
            ModeView::InvalidCombination(msg) => e matches AppError::Validation(m) && m@ == msg,
            ModeView::DefinedFlags(_) => e matches AppError::InternalLogic(_),
            _ => false,
        },
{
    match mode {
        ExecutionMode::NoArgs => {
            let mut steps: Vec<Step> = Vec::new();
            steps.push(Step::Notice {
                message: String::from_str("No arguments given, nothing to do."),
            });
            proof {
                assert(steps.deep_view() =~~= seq![
                    StepView::Notice { message: no_args_message() },
                ]);
            }
            Ok(steps)
        },
        ExecutionMode::DefaultBehavior(p) => Ok(handle_default_behavior(p.as_str())),
        ExecutionMode::DefinedFlags(f) => plan_defined_flags(&f),
        ExecutionMode::InvalidCombination(msg) => Err(AppError::Validation(msg)),
    }
}

/// The failure policy of a step, following the error-handling design: a plain
/// fire-and-forget execution's non-zero exit status is advisory (reported as a
/// warning, the run goes on), while a failure of any other step — staging,
/// capturing execution, post-processing, persisting, deleting — aborts the
/// remaining pipeline. Files already written stay on disk; nothing is rolled
/// back.
pub fn failure_aborts(step: &Step) -> (b: bool)
    ensures
        b == !(step@ is Execute || step@ is Notice),
{
    match step {
        Step::Execute { .. } => false,
        Step::Notice { .. } => false,
        _ => true,
    }
}

/// With no flags and no positional file, the flag set is valid, resolves to
/// the no-arguments mode, and its whole plan is one informational notice: no
/// step writes, executes or deletes anything, and the run succeeds with exit
/// status zero.
pub proof fn lemma_no_args_runs_nothing(f: FlagSetView)
    requires
        !has_flags(f),
        f.files.len() == 0,
    ensures
        flags_valid(f),
        resolve(f) is NoArgs,
        mode_plan(resolve(f)) == Some(seq![StepView::Notice { message: no_args_message() }]),
        mode_plan(resolve(f))->Some_0.len() == 1,
        forall|i: int|
            0 <= i < mode_plan(resolve(f))->Some_0.len() ==> mode_plan(resolve(f))->Some_0[i]
                is Notice,
{
}

/// With no flags and exactly one positional file, the flag set is valid,
/// resolves to the default behavior on that file, and its whole plan is one
/// fire-and-forget execution of exactly that file — no staging beforehand, so
/// the file's content is executed as it stands.
pub proof fn lemma_default_behavior_executes_file(f: FlagSetView)
    requires
        !has_flags(f),
        f.files.len() == 1,
    ensures
        flags_valid(f),
        resolve(f) == ModeView::DefaultBehavior(f.files[0]),
        mode_plan(resolve(f)) == Some(seq![StepView::Execute { path: f.files[0] }]),
{
}

/// The outcome of a capturing run, decided from what the interpreter reported:
/// on success the captured text is returned exactly as read; a non-zero exit
/// status is a hard failure.
pub fn capture_outcome(success: bool, stdout: String) -> (r: Result<String, AppError>)
    ensures
        r is Ok <==> success,
        r matches Ok(s) ==> s@ == stdout@,
        r matches Err(e) ==> e matches AppError::ExecutionFailure(m) && m@
            == "Command exited with non-zero status"@,
{
    if success {
        Ok(stdout)
    } else {
        Err(AppError::ExecutionFailure(String::from_str("Command exited with non-zero status")))
    }
}

} // verus!
