use catbash::errors::AppError;
use catbash::flags::FlagSet;
use catbash::mode::{determine_app_mode, ExecutionMode};
use catbash::plan::{
    capture_outcome, failure_aborts, handle_default_behavior, plan_defined_flags, plan_for_mode,
    ArgsSource, Step,
};

fn flags(
    input: Option<&str>,
    output: Option<&str>,
    capture: bool,
    target: Option<&str>,
    arguments: Option<&str>,
    arguments_from_file: Option<&str>,
) -> FlagSet {
    FlagSet {
        input: input.map(|s| s.to_string()),
        output: output.map(|s| s.to_string()),
        capture,
        target: target.map(|s| s.to_string()),
        arguments: arguments.map(|s| s.to_string()),
        arguments_from_file: arguments_from_file.map(|s| s.to_string()),
        files: Vec::new(),
    }
}

#[test]
fn output_only_executes_in_place() {
    let steps = plan_defined_flags(&flags(None, Some("run.sh"), false, None, None, None)).unwrap();
    assert_eq!(
        steps,
        vec![Step::Execute {
            path: "run.sh".to_string()
        }]
    );
}

#[test]
fn input_only_stages_to_temporary_file() {
    let steps =
        plan_defined_flags(&flags(Some("echo hi"), None, false, None, None, None)).unwrap();
    assert_eq!(steps.len(), 4);
    assert!(matches!(steps[0], Step::Notice { .. }));
    assert_eq!(
        steps[1],
        Step::Stage {
            content: "echo hi".to_string(),
            dest: "temp.txt".to_string()
        }
    );
    assert_eq!(
        steps[2],
        Step::Execute {
            path: "temp.txt".to_string()
        }
    );
    assert_eq!(
        steps[3],
        Step::Delete {
            path: "temp.txt".to_string()
        }
    );
}

#[test]
fn input_and_output_stage_then_execute() {
    let steps =
        plan_defined_flags(&flags(Some("echo hi"), Some("run.sh"), false, None, None, None))
            .unwrap();
    assert_eq!(
        steps,
        vec![
            Step::Stage {
                content: "echo hi".to_string(),
                dest: "run.sh".to_string()
            },
            Step::Execute {
                path: "run.sh".to_string()
            },
        ]
    );
}

#[test]
fn capture_without_target_mirrors_to_terminal() {
    let steps =
        plan_defined_flags(&flags(Some("echo hi"), Some("run.sh"), true, None, None, None))
            .unwrap();
    assert_eq!(
        steps,
        vec![
            Step::Stage {
                content: "echo hi".to_string(),
                dest: "run.sh".to_string()
            },
            Step::CaptureExecute {
                path: "run.sh".to_string(),
                mirror: true
            },
        ]
    );
}

#[test]
fn stage_capture_persist_pipeline() {
    let steps = plan_defined_flags(&flags(
        Some("echo hi"),
        Some("run.sh"),
        true,
        Some("out.txt"),
        None,
        None,
    ))
    .unwrap();
    assert_eq!(
        steps,
        vec![
            Step::Stage {
                content: "echo hi".to_string(),
                dest: "run.sh".to_string()
            },
            Step::CaptureExecute {
                path: "run.sh".to_string(),
                mirror: false
            },
            Step::Persist {
                target: "out.txt".to_string()
            },
        ]
    );
}

#[test]
fn capture_with_inline_arguments_post_processes() {
    let steps =
        plan_defined_flags(&flags(None, Some("run.sh"), true, None, Some("| grep hi"), None))
            .unwrap();
    assert_eq!(
        steps,
        vec![
            Step::CaptureExecute {
                path: "run.sh".to_string(),
                mirror: false
            },
            Step::PostProcess {
                source: ArgsSource::Inline("| grep hi".to_string()),
                mirror: true
            },
        ]
    );
}

#[test]
fn capture_post_process_persist_pipeline() {
    let steps = plan_defined_flags(&flags(
        None,
        Some("run.sh"),
        true,
        Some("out.txt"),
        Some("| grep hi"),
        None,
    ))
    .unwrap();
    assert_eq!(
        steps,
        vec![
            Step::CaptureExecute {
                path: "run.sh".to_string(),
                mirror: false
            },
            Step::PostProcess {
                source: ArgsSource::Inline("| grep hi".to_string()),
                mirror: false
            },
            Step::Persist {
                target: "out.txt".to_string()
            },
        ]
    );
}

#[test]
fn file_sourced_arguments_post_process() {
    let steps = plan_defined_flags(&flags(
        Some("ls"),
        Some("run.sh"),
        true,
        Some("out.txt"),
        None,
        Some("args.txt"),
    ))
    .unwrap();
    assert_eq!(
        steps,
        vec![
            Step::Stage {
                content: "ls".to_string(),
                dest: "run.sh".to_string()
            },
            Step::CaptureExecute {
                path: "run.sh".to_string(),
                mirror: false
            },
            Step::PostProcess {
                source: ArgsSource::FromFile("args.txt".to_string()),
                mirror: false
            },
            Step::Persist {
                target: "out.txt".to_string()
            },
        ]
    );
}

#[test]
fn capture_without_other_flags_is_internal_error() {
    let err = plan_defined_flags(&flags(None, Some("run.sh"), true, None, None, None)).unwrap_err();
    assert!(matches!(err, AppError::InternalLogic(_)));
}

#[test]
fn no_args_plan_is_one_notice() {
    let steps = plan_for_mode(ExecutionMode::NoArgs).unwrap();
    assert_eq!(
        steps,
        vec![Step::Notice {
            message: "No arguments given, nothing to do.".to_string()
        }]
    );
}

#[test]
fn default_behavior_plan_executes_the_file() {
    let steps = handle_default_behavior("script.sh");
    assert_eq!(
        steps,
        vec![Step::Execute {
            path: "script.sh".to_string()
        }]
    );
    let via_mode =
        plan_for_mode(ExecutionMode::DefaultBehavior("script.sh".to_string())).unwrap();
    assert_eq!(steps, via_mode);
}

#[test]
fn defined_flags_mode_plans_through_the_table() {
    let mode = determine_app_mode(flags(None, Some("run.sh"), false, None, None, None)).unwrap();
    let steps = plan_for_mode(mode).unwrap();
    assert_eq!(
        steps,
        vec![Step::Execute {
            path: "run.sh".to_string()
        }]
    );
}

#[test]
fn invalid_combination_plan_is_a_validation_error() {
    let err =
        plan_for_mode(ExecutionMode::InvalidCombination("bad mix".to_string())).unwrap_err();
    assert_eq!(err, AppError::Validation("bad mix".to_string()));
}

#[test]
fn only_plain_execution_failures_are_advisory() {
    let advisory = Step::Execute {
        path: "run.sh".to_string(),
    };
    let notice = Step::Notice {
        message: "hello".to_string(),
    };
    let fatal = Step::CaptureExecute {
        path: "run.sh".to_string(),
        mirror: false,
    };
    let staging = Step::Stage {
        content: "x".to_string(),
        dest: "y".to_string(),
    };
    assert!(!failure_aborts(&advisory));
    assert!(!failure_aborts(&notice));
    assert!(failure_aborts(&fatal));
    assert!(failure_aborts(&staging));
}

#[test]
fn capture_outcome_returns_output_exactly_on_success() {
    assert_eq!(
        capture_outcome(true, "hi\n".to_string()),
        Ok("hi\n".to_string())
    );
    assert_eq!(
        capture_outcome(false, "partial".to_string()),
        Err(AppError::ExecutionFailure(
            "Command exited with non-zero status".to_string()
        ))
    );
}
