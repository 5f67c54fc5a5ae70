use git_progress_sync::config::Config;
use git_progress_sync::error::{RunGitError, RunGitErrorKind, StdErr};
use git_progress_sync::git::{classify, git_args, git_stash, run_result, CommandOutcome, GitOp, Severity};
use git_progress_sync::workflow::{LoadState, LoadWorkflow, SaveState, SaveWorkflow};

fn failed_step(exit_code: i32) -> Result<(), RunGitError> {
    Err(RunGitError {
        args: vec![String::from("stash")],
        kind: RunGitErrorKind::NonZeroExitCode {
            exit_code,
            stderr: StdErr::new(Vec::new()),
        },
    })
}

fn launch_failed_step() -> Result<(), RunGitError> {
    Err(RunGitError {
        args: vec![String::from("stash")],
        kind: RunGitErrorKind::StdioError(String::from("no such binary")),
    })
}

#[test]
fn classify_code_one_benign_only_for_drop_and_restore() {
    assert_eq!(classify(&GitOp::DropTopSnapshot, 1), Severity::Benign);
    assert_eq!(classify(&GitOp::RestoreTopSnapshot, 1), Severity::Benign);
    assert_eq!(classify(&GitOp::CaptureChanges, 1), Severity::Fatal);
    assert_eq!(classify(&GitOp::ShowTopSnapshot, 1), Severity::Fatal);
    assert_eq!(classify(&GitOp::ApplySnapshotFile, 1), Severity::Fatal);
    assert_eq!(classify(&GitOp::QueryTopLevelDirectory, 1), Severity::Fatal);
    assert_eq!(classify(&GitOp::QueryCurrentBranch, 1), Severity::Fatal);
}

#[test]
fn classify_other_codes_fatal_everywhere() {
    assert_eq!(classify(&GitOp::DropTopSnapshot, 2), Severity::Fatal);
    assert_eq!(classify(&GitOp::RestoreTopSnapshot, 128), Severity::Fatal);
    assert_eq!(classify(&GitOp::DropTopSnapshot, -1), Severity::Fatal);
    assert_eq!(classify(&GitOp::ApplySnapshotFile, 255), Severity::Fatal);
}

#[test]
fn run_result_success_on_exit_zero() {
    let args = vec![String::from("stash"), String::from("drop")];
    let outcome = CommandOutcome::Completed {
        exit_code: Some(0),
        stderr: Vec::new(),
    };
    assert!(run_result(args, outcome).is_ok());
}

#[test]
fn run_result_carries_code_args_and_stderr() {
    let args = vec![String::from("stash"), String::from("drop")];
    let outcome = CommandOutcome::Completed {
        exit_code: Some(3),
        stderr: b"bad".to_vec(),
    };
    let err = run_result(args, outcome).unwrap_err();
    assert_eq!(err.args, vec![String::from("stash"), String::from("drop")]);
    match err.kind {
        RunGitErrorKind::NonZeroExitCode { exit_code, stderr } => {
            assert_eq!(exit_code, 3);
            assert_eq!(stderr.to_text(), "bad");
        }
        RunGitErrorKind::StdioError(_) => panic!("expected an exit-code failure"),
    }
}

#[test]
fn run_result_signal_termination_reports_minus_one() {
    let outcome = CommandOutcome::Completed {
        exit_code: None,
        stderr: Vec::new(),
    };
    let err = run_result(Vec::new(), outcome).unwrap_err();
    match err.kind {
        RunGitErrorKind::NonZeroExitCode { exit_code, .. } => assert_eq!(exit_code, -1),
        RunGitErrorKind::StdioError(_) => panic!("expected an exit-code failure"),
    }
}

#[test]
fn run_result_launch_failure_is_distinct() {
    let outcome = CommandOutcome::LaunchFailed {
        message: String::from("No such file or directory"),
    };
    let err = run_result(Vec::new(), outcome).unwrap_err();
    match err.kind {
        RunGitErrorKind::StdioError(message) => {
            assert_eq!(message, "No such file or directory");
        }
        RunGitErrorKind::NonZeroExitCode { .. } => panic!("expected a launch failure"),
    }
}

#[test]
fn capture_arguments_exact() {
    let args = git_stash();
    assert_eq!(
        args,
        vec![
            String::from("stash"),
            String::from("push"),
            String::from("-k"),
            String::from("-u"),
            String::from("-m"),
            String::from("git_progress_sync stash (temporary)"),
        ]
    );
    assert_eq!(git_args(&GitOp::CaptureChanges, ""), args);
}

#[test]
fn other_arguments_exact() {
    assert_eq!(
        git_args(&GitOp::DropTopSnapshot, ""),
        vec![String::from("stash"), String::from("drop")]
    );
    assert_eq!(
        git_args(&GitOp::RestoreTopSnapshot, ""),
        vec![String::from("stash"), String::from("pop")]
    );
    assert_eq!(
        git_args(&GitOp::ShowTopSnapshot, ""),
        vec![
            String::from("stash"),
            String::from("show"),
            String::from("--binary"),
            String::from("-u"),
        ]
    );
    assert_eq!(
        git_args(&GitOp::ApplySnapshotFile, "/r/foo - main.stash"),
        vec![
            String::from("apply"),
            String::from("--binary"),
            String::from("/r/foo - main.stash"),
        ]
    );
    assert_eq!(
        git_args(&GitOp::QueryTopLevelDirectory, ""),
        vec![String::from("rev-parse"), String::from("--show-toplevel")]
    );
    assert_eq!(
        git_args(&GitOp::QueryCurrentBranch, ""),
        vec![
            String::from("rev-parse"),
            String::from("--abbrev-ref"),
            String::from("HEAD"),
        ]
    );
}

#[test]
fn save_workflow_happy_path() {
    let mut workflow = SaveWorkflow::new();
    assert_eq!(workflow.next_op(), Some(GitOp::CaptureChanges));
    assert!(workflow.advance(Ok(())).is_ok());
    assert_eq!(workflow.next_op(), Some(GitOp::ShowTopSnapshot));
    assert!(workflow.advance(Ok(())).is_ok());
    assert_eq!(workflow.next_op(), Some(GitOp::RestoreTopSnapshot));
    assert!(workflow.advance(Ok(())).is_ok());
    assert_eq!(workflow.next_op(), None);
    assert_eq!(workflow.state, SaveState::Done);
}

#[test]
fn save_workflow_swallows_benign_pop_failure() {
    let mut workflow = SaveWorkflow::new();
    assert!(workflow.advance(Ok(())).is_ok());
    assert!(workflow.advance(Ok(())).is_ok());
    assert!(workflow.advance(failed_step(1)).is_ok());
    assert_eq!(workflow.state, SaveState::Done);
}

#[test]
fn save_workflow_surfaces_other_pop_failures() {
    let mut workflow = SaveWorkflow::new();
    assert!(workflow.advance(Ok(())).is_ok());
    assert!(workflow.advance(Ok(())).is_ok());
    let err = workflow.advance(failed_step(2)).unwrap_err();
    match err.kind {
        RunGitErrorKind::NonZeroExitCode { exit_code, .. } => assert_eq!(exit_code, 2),
        RunGitErrorKind::StdioError(_) => panic!("expected an exit-code failure"),
    }
    assert_eq!(workflow.state, SaveState::Restoring);
}

#[test]
fn save_workflow_code_one_fatal_while_persisting() {
    let mut workflow = SaveWorkflow::new();
    assert!(workflow.advance(Ok(())).is_ok());
    assert!(workflow.advance(failed_step(1)).is_err());
    assert_eq!(workflow.state, SaveState::Persisting);
}

#[test]
fn save_workflow_capture_failure_fatal() {
    let mut workflow = SaveWorkflow::new();
    assert!(workflow.advance(failed_step(1)).is_err());
    assert!(SaveWorkflow::new().advance(launch_failed_step()).is_err());
}

#[test]
fn load_workflow_happy_path() {
    let mut workflow = LoadWorkflow::new();
    assert_eq!(workflow.next_op(), Some(GitOp::CaptureChanges));
    assert!(workflow.advance(Ok(())).is_ok());
    assert_eq!(workflow.next_op(), Some(GitOp::DropTopSnapshot));
    assert!(workflow.advance(Ok(())).is_ok());
    assert_eq!(workflow.next_op(), Some(GitOp::ApplySnapshotFile));
    assert!(workflow.advance(Ok(())).is_ok());
    assert_eq!(workflow.next_op(), None);
    assert_eq!(workflow.state, LoadState::Done);
}

#[test]
fn load_workflow_swallows_benign_drop_failure() {
    let mut workflow = LoadWorkflow::new();
    assert!(workflow.advance(Ok(())).is_ok());
    assert!(workflow.advance(failed_step(1)).is_ok());
    assert_eq!(workflow.state, LoadState::Applying);
}

#[test]
fn load_workflow_apply_failure_always_fatal() {
    let mut workflow = LoadWorkflow::new();
    assert!(workflow.advance(Ok(())).is_ok());
    assert!(workflow.advance(Ok(())).is_ok());
    let err = workflow.advance(failed_step(1)).unwrap_err();
    match err.kind {
        RunGitErrorKind::NonZeroExitCode { exit_code, .. } => assert_eq!(exit_code, 1),
        RunGitErrorKind::StdioError(_) => panic!("expected an exit-code failure"),
    }
    assert_eq!(workflow.state, LoadState::Applying);
}

#[test]
fn scenario_foo_on_main_save_then_load() {
    // Repository `foo` on branch `main`, one modified tracked file.
    let config = Config::new(String::from("/stash-root"));
    let path = config.get_stash_filepath("foo", "main");
    assert_eq!(path, "/stash-root/foo - main.stash");

    // Save: the modification is captured, written out, and popped back.
    let mut save = SaveWorkflow::new();
    assert_eq!(save.next_op(), Some(GitOp::CaptureChanges));
    assert!(save.advance(Ok(())).is_ok());
    assert_eq!(save.next_op(), Some(GitOp::ShowTopSnapshot));
    assert!(save.advance(Ok(())).is_ok());
    assert_eq!(save.next_op(), Some(GitOp::RestoreTopSnapshot));
    assert!(save.advance(Ok(())).is_ok());
    assert_eq!(save.next_op(), None);

    // Load in a clean checkout of the same repository and branch: the
    // safety capture is a no-op, so the drop fails benignly, and the apply
    // step replays the stash file at the computed path.
    let mut load = LoadWorkflow::new();
    assert!(load.advance(Ok(())).is_ok());
    assert!(load.advance(failed_step(1)).is_ok());
    assert_eq!(load.next_op(), Some(GitOp::ApplySnapshotFile));
    let apply_args = git_args(&GitOp::ApplySnapshotFile, &path);
    assert_eq!(
        apply_args,
        vec![
            String::from("apply"),
            String::from("--binary"),
            String::from("/stash-root/foo - main.stash"),
        ]
    );
    assert!(load.advance(Ok(())).is_ok());
    assert_eq!(load.state, LoadState::Done);
}

#[test]
fn load_workflow_drop_launch_failure_fatal() {
    let mut workflow = LoadWorkflow::new();
    assert!(workflow.advance(Ok(())).is_ok());
    assert!(workflow.advance(launch_failed_step()).is_err());
    assert_eq!(workflow.state, LoadState::Dropping);
}
