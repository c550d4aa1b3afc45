//! The pipeline run itself, over the file-store model: each step applied in
//! order, strictly sequentially, stopping at the first fatal failure, with no
//! rollback of files already written.
//!
//! The interpreter is outside the model: what each executing step's command
//! exited with and printed is an input here, and the run's outcome is stated
//! for every such behavior. The binary performs the same walk with real file
//! and process operations.

use crate::errors::AppError;
use crate::flags::FlagSetView;
use crate::plan::{capture_outcome, defined_flags_plan, ArgsSource, ArgsSourceView, Step, StepView};
use crate::store::FileStore;
use vstd::prelude::*;

verus! {

/// What one step does to the run's state, given the interpreter's behavior
/// for it: `exec_ok` is whether the step's command (if it runs one) exited
/// with status zero, `exec_out` what it printed. The result is the new files
/// and captured value, or nothing when the step fails fatally. A plain
/// execution's exit status is advisory, so that step never fails; a failing
/// step leaves the files as they are.
pub open spec fn step_effect(
    files: Map<Seq<char>, Seq<char>>,
    captured: Seq<char>,
    step: StepView,
    exec_ok: bool,
    exec_out: Seq<char>,
) -> Option<(Map<Seq<char>, Seq<char>>, Seq<char>)> {
    match step {
        StepView::Notice { .. } => Some((files, captured)),
        StepView::Stage { content, dest } => Some((files.insert(dest, content), captured)),
        StepView::Execute { .. } => Some((files, captured)),
        StepView::CaptureExecute { .. } => if exec_ok {
            Some((files, exec_out))
        } else {
            None
        },
        StepView::PostProcess { source, .. } => match source {
            ArgsSourceView::Inline(_) => if exec_ok {
                Some((files, exec_out))
            } else {
                None
            },
            ArgsSourceView::FromFile(p) => if files.contains_key(p) && exec_ok {
                Some((files, exec_out))
            } else {
                None
            },
        },
        StepView::Persist { target } => Some((files.insert(target, captured), captured)),
        StepView::Delete { path } => if files.contains_key(path) {
            Some((files.remove(path), captured))
        } else {
            None
        },
    }
}

/// A whole run: the steps applied in order, each with its interpreter
/// behavior (`outs[i]` pairs the exit success and printed output of step
/// `i`'s command, and is ignored by steps that run none). The result is the
/// final files, the final captured value, and whether the run completed; a
/// run stopped by a fatal failure keeps the files written so far.
pub open spec fn pipeline_run(
    files: Map<Seq<char>, Seq<char>>,
    captured: Seq<char>,
    steps: Seq<StepView>,
    outs: Seq<(bool, Seq<char>)>,
) -> (Map<Seq<char>, Seq<char>>, Seq<char>, bool)
    decreases steps.len(),
{
    if steps.len() == 0 {
        (files, captured, true)
    } else {
        match step_effect(files, captured, steps[0], outs[0].0, outs[0].1) {
            None => (files, captured, false),
            Some(next) => pipeline_run(next.0, next.1, steps.drop_first(), outs.drop_first()),
        }
    }
}

/// Applies one step to the model store, given the interpreter's behavior for
/// it, returning the new captured value or the step's failure: a failing
/// capturing run is an execution failure, a missing arguments file or a
/// deletion of a missing file is a not-found failure, and no other step
/// fails.
pub fn apply_step(
    store: &mut FileStore,
    captured: String,
    step: &Step,
    exec_ok: bool,
    exec_out: String,
) -> (r: Result<String, AppError>)
    ensures
        ({
            let effect = step_effect(old(store)@, captured@, step@, exec_ok, exec_out@);
            &&& r is Ok <==> effect is Some
            &&& r matches Ok(c) ==> final(store)@ == (effect->0).0 && c@ == (effect->0).1
            &&& r is Err ==> final(store)@ == old(store)@
            &&& r matches Err(e) ==> match step@ {
                StepView::CaptureExecute { .. } => e matches AppError::ExecutionFailure(_),
                StepView::PostProcess { source, .. } => match source {
                    ArgsSourceView::Inline(_) => e matches AppError::ExecutionFailure(_),
                    ArgsSourceView::FromFile(p) => if old(store)@.contains_key(p) {
                        e matches AppError::ExecutionFailure(_)
                    } else {
                        e matches AppError::FileNotFound(_)
                    },
                },
                StepView::Delete { .. } => e matches AppError::FileNotFound(_),
                _ => false,
            }
        }),
{
    match step {
        Step::Notice { .. } => Ok(captured),
        Step::Stage { content, dest } => {
            store.write_to_file(content.as_str(), dest.as_str());
            Ok(captured)
        },
        Step::Execute { .. } => Ok(captured),
        Step::CaptureExecute { .. } => capture_outcome(exec_ok, exec_out),
        Step::PostProcess { source, .. } => match source {
            ArgsSource::Inline(_) => capture_outcome(exec_ok, exec_out),
            ArgsSource::FromFile(p) => match store.read_from_file(p.as_str()) {
                Err(e) => Err(e),
                Ok(_) => capture_outcome(exec_ok, exec_out),
            },
        },
        Step::Persist { target } => {
            store.write_to_file(captured.as_str(), target.as_str());
            Ok(captured)
        },
        Step::Delete { path } => match store.delete_file(path.as_str()) {
            Ok(_) => Ok(captured),
            Err(e) => {
                proof {
                    assert(old(store)@.remove(path@) =~= old(store)@);
                }
                Err(e)
            },
        },
    }
}

/// Runs a plan against the model store, strictly in order, stopping at the
/// first fatal failure and rolling nothing back: the files written by earlier
/// steps remain. Returns the final captured value of a completed run.
pub fn run_pipeline(
    store: &mut FileStore,
    captured: String,
    steps: &Vec<Step>,
    outcomes: &Vec<(bool, String)>,
) -> (r: Result<String, AppError>)
    requires
        steps@.len() == outcomes@.len(),
    ensures
        ({
            let run = pipeline_run(old(store)@, captured@, steps.deep_view(), outcomes.deep_view());
            &&& final(store)@ == run.0
            &&& r is Ok <==> run.2
            &&& r matches Ok(c) ==> c@ == run.1
            &&& r matches Err(e) ==> e matches AppError::ExecutionFailure(_) || e matches AppError::FileNotFound(_)
        }),
{
    let ghost all_steps = steps.deep_view();
    let ghost all_outs = outcomes.deep_view();
    let mut cur = captured;
    let mut i: usize = 0;
    proof {
        assert(all_steps.skip(0) =~= all_steps);
        assert(all_outs.skip(0) =~= all_outs);
    }
    while i < steps.len()
        invariant
            i <= steps@.len(),
            steps@.len() == outcomes@.len(),
            all_steps == steps.deep_view(),
            all_outs == outcomes.deep_view(),
            all_steps.len() == steps@.len(),
            all_outs.len() == outcomes@.len(),
            pipeline_run(old(store)@, captured@, all_steps, all_outs) == pipeline_run(
                store@,
                cur@,
                all_steps.skip(i as int),
                all_outs.skip(i as int),
            ),
        decreases steps@.len() - i,
    {
        let ghost rest_steps = all_steps.skip(i as int);
        let ghost rest_outs = all_outs.skip(i as int);
        proof {
            assert(rest_steps[0] == all_steps[i as int]);
            assert(rest_outs[0] == all_outs[i as int]);
            assert(rest_steps.drop_first() =~= all_steps.skip(i + 1));
            assert(rest_outs.drop_first() =~= all_outs.skip(i + 1));
        }
        let exec_ok = outcomes[i].0;
        let exec_out = outcomes[i].1.clone();
        match apply_step(store, cur, &steps[i], exec_ok, exec_out) {
            Ok(next) => {
                cur = next;
            },
            Err(e) => {
                return Err(e);
            },
        }
        i = i + 1;
    }
    proof {
        assert(all_steps.skip(steps@.len() as int) =~= Seq::<StepView>::empty());
        assert(all_outs.skip(outcomes@.len() as int) =~= Seq::<(bool, Seq<char>)>::empty());
    }
    Ok(cur)
}

/// For the stage–capture–persist flag shape — input, output, capture and
/// target given, no post-processing — a run whose capturing execution
/// succeeds stages the input into the output file, and persists the captured
/// execution output verbatim to the target: the final files are the starting
/// ones with the output file holding the input and the target holding exactly
/// what the execution printed.
pub proof fn lemma_capture_persisted_verbatim(
    files: Map<Seq<char>, Seq<char>>,
    captured: Seq<char>,
    f: FlagSetView,
    outs: Seq<(bool, Seq<char>)>,
)
    requires
        f.input is Some,
        f.output is Some,
        f.capture,
        f.target is Some,
        f.arguments is None,
        f.arguments_from_file is None,
        outs.len() == 3,
        outs[1].0,
    ensures
        defined_flags_plan(f) is Some,
        pipeline_run(files, captured, defined_flags_plan(f)->0, outs) == (
            files.insert(f.output->0, f.input->0).insert(f.target->0, outs[1].1),
            outs[1].1,
            true,
        ),
{
    let i = f.input->0;
    let o = f.output->0;
    let t = f.target->0;
    let plan = defined_flags_plan(f)->0;
    let s1 = seq![
        StepView::CaptureExecute { path: o, mirror: false },
        StepView::Persist { target: t },
    ];
    let s2 = seq![StepView::Persist { target: t }];
    assert(plan =~= seq![
        StepView::Stage { content: i, dest: o },
        StepView::CaptureExecute { path: o, mirror: false },
        StepView::Persist { target: t },
    ]);
    assert(plan.drop_first() =~= s1);
    assert(s1.drop_first() =~= s2);
    assert(s2.drop_first() =~= Seq::<StepView>::empty());
    let o1 = outs.drop_first();
    let o2 = o1.drop_first();
    assert(o1[0] == outs[1]);
    let staged = files.insert(o, i);
    let persisted = staged.insert(t, outs[1].1);
    assert(step_effect(files, captured, plan[0], outs[0].0, outs[0].1) == Some((staged, captured)));
    assert(pipeline_run(files, captured, plan, outs) == pipeline_run(staged, captured, s1, o1));
    assert(step_effect(staged, captured, s1[0], o1[0].0, o1[0].1) == Some((staged, outs[1].1)));
    assert(pipeline_run(staged, captured, s1, o1) == pipeline_run(staged, outs[1].1, s2, o2));
    assert(step_effect(staged, outs[1].1, s2[0], o2[0].0, o2[0].1) == Some((persisted, outs[1].1)));
    assert(pipeline_run(staged, outs[1].1, s2, o2) == pipeline_run(
        persisted,
        outs[1].1,
        s2.drop_first(),
        o2.drop_first(),
    ));
    assert(pipeline_run(persisted, outs[1].1, s2.drop_first(), o2.drop_first()) == (
        persisted,
        outs[1].1,
        true,
    ));
}

} // verus!
