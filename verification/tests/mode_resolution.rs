use catbash::errors::{exit_code, AppError};
use catbash::flags::{validate_flags, FlagSet};
use catbash::mode::{determine_app_mode, ExecutionMode};

fn empty_flags() -> FlagSet {
    FlagSet {
        input: None,
        output: None,
        capture: false,
        target: None,
        arguments: None,
        arguments_from_file: None,
        files: Vec::new(),
    }
}

#[test]
fn no_args_resolves_to_no_args() {
    let mode = determine_app_mode(empty_flags()).unwrap();
    assert_eq!(mode, ExecutionMode::NoArgs);
}

#[test]
fn single_file_resolves_to_default_behavior() {
    let mut f = empty_flags();
    f.files = vec!["script.sh".to_string()];
    let mode = determine_app_mode(f).unwrap();
    assert_eq!(mode, ExecutionMode::DefaultBehavior("script.sh".to_string()));
}

#[test]
fn flags_without_files_resolve_to_defined_flags() {
    let mut f = empty_flags();
    f.output = Some("run.sh".to_string());
    let expected = FlagSet {
        input: None,
        output: Some("run.sh".to_string()),
        capture: false,
        target: None,
        arguments: None,
        arguments_from_file: None,
        files: Vec::new(),
    };
    let mode = determine_app_mode(f).unwrap();
    assert_eq!(mode, ExecutionMode::DefinedFlags(expected));
}

#[test]
fn capture_without_output_is_rejected() {
    let mut f = empty_flags();
    f.capture = true;
    let err = determine_app_mode(f).unwrap_err();
    assert_eq!(
        err,
        AppError::Validation("Capture flag requires an output file to catbash".to_string())
    );
    assert_eq!(exit_code(&Err(err)), 1);
}

#[test]
fn target_without_capture_is_rejected() {
    let mut f = empty_flags();
    f.output = Some("run.sh".to_string());
    f.target = Some("out.txt".to_string());
    let err = validate_flags(&f).unwrap_err();
    assert_eq!(
        err.message(),
        "Target flag requires an output file to catbash and capture flag to be present"
    );
}

#[test]
fn arguments_without_capture_is_rejected() {
    let mut f = empty_flags();
    f.output = Some("run.sh".to_string());
    f.arguments = Some("| grep hi".to_string());
    let err = validate_flags(&f).unwrap_err();
    assert_eq!(
        err.message(),
        "Arguments flag requires an output file to catbash and capture flag to be present"
    );
}

#[test]
fn arguments_from_file_without_capture_is_rejected() {
    let mut f = empty_flags();
    f.output = Some("run.sh".to_string());
    f.arguments_from_file = Some("args.txt".to_string());
    let err = validate_flags(&f).unwrap_err();
    assert_eq!(
        err.message(),
        "Arguments from file flag requires an output file to catbash and capture flag to be present"
    );
}

#[test]
fn both_argument_sources_are_rejected() {
    let mut f = empty_flags();
    f.output = Some("run.sh".to_string());
    f.capture = true;
    f.arguments = Some("| grep hi".to_string());
    f.arguments_from_file = Some("args.txt".to_string());
    let err = validate_flags(&f).unwrap_err();
    assert_eq!(
        err.message(),
        "Cannot provide arguments from -a and -f flags simultaneously"
    );
}

#[test]
fn valid_flags_pass_validation() {
    let mut f = empty_flags();
    f.input = Some("echo hi".to_string());
    f.output = Some("run.sh".to_string());
    f.capture = true;
    f.target = Some("out.txt".to_string());
    f.arguments = Some("| grep hi".to_string());
    assert!(validate_flags(&f).is_ok());
}

#[test]
fn two_files_report_both_filenames() {
    let mut f = empty_flags();
    f.files = vec!["file1".to_string(), "file2".to_string()];
    let mode = determine_app_mode(f).unwrap();
    match mode {
        ExecutionMode::InvalidCombination(msg) => {
            assert_eq!(
                msg,
                "Too many files for default behavior: [\"file1\", \"file2\"]. \
                 Please use flags or provide only one file."
            );
            assert!(msg.contains("file1"));
            assert!(msg.contains("file2"));
        }
        other => panic!("expected an invalid combination, got {:?}", other),
    }
}

#[test]
fn file_mixed_with_flags_is_invalid() {
    let mut f = empty_flags();
    f.output = Some("run.sh".to_string());
    f.files = vec!["also.sh".to_string()];
    let mode = determine_app_mode(f).unwrap();
    assert_eq!(
        mode,
        ExecutionMode::InvalidCombination(
            "Cannot mix positional files with flags. Use either flags OR a single file."
                .to_string()
        )
    );
}

#[test]
fn exit_codes_are_zero_and_one() {
    assert_eq!(exit_code(&Ok(())), 0);
    assert_eq!(
        exit_code(&Err(AppError::IoFailure("disk full".to_string()))),
        1
    );
}
