//! The version-control operations the workflows issue, the exact argument
//! lists they are invoked with, the interpretation of a finished process,
//! and the policy that decides whether a failed sub-step is fatal or a
//! benign no-op.

use vstd::prelude::*;

use crate::error::{RunGitError, RunGitErrorKind, StdErr};
use crate::text::{lossy_decoding, spec_file_name, spec_trim, file_name_of, trim_spaces, lossy_utf8};

verus! {

/// One of the subcommands this crate issues to the external version-control
/// tool. The workflows never run anything else.
#[derive(Clone, Copy, Debug, PartialEq, Eq, Structural)]
pub enum GitOp {
    /// `stash push`: capture working tree, index and untracked files into the
    /// tool's internal snapshot list.
    CaptureChanges,
    /// `stash drop`: delete the most recent internal snapshot entry.
    DropTopSnapshot,
    /// `stash pop`: restore the most recent internal snapshot entry into the
    /// working tree and delete it.
    RestoreTopSnapshot,
    /// `stash show --binary`: print the most recent snapshot as a binary
    /// patch on standard output (redirected into the stash file).
    ShowTopSnapshot,
    /// `apply --binary <file>`: replay a binary patch file onto the tree.
    ApplySnapshotFile,
    /// `rev-parse --show-toplevel`: print the repository's root directory.
    QueryTopLevelDirectory,
    /// `rev-parse --abbrev-ref HEAD`: print the current branch name.
    QueryCurrentBranch,
}

/// How a non-zero exit code from one sub-step is to be treated.
#[derive(Clone, Copy, Debug, PartialEq, Eq, Structural)]
pub enum Severity {
    /// An expected empty-state condition: the step is treated as a success.
    Benign,
    /// A real failure: the workflow aborts and the error is surfaced.
    Fatal,
}

/// The error-classification policy: the tool exits with code 1 from `stash
/// drop` and `stash pop` exactly when its snapshot list is empty, which is a
/// routine condition for a clean tree. Every other non-zero exit code, and
/// code 1 from any other subcommand, is a real failure.
pub open spec fn spec_classify(op: GitOp, exit_code: i32) -> Severity {
    if (op is DropTopSnapshot || op is RestoreTopSnapshot) && exit_code == 1 {
        Severity::Benign
    } else {
        Severity::Fatal
    }
}

/// Classifies a non-zero exit code from the given operation.
pub fn classify(op: &GitOp, exit_code: i32) -> (s: Severity)
    ensures
        s == spec_classify(*op, exit_code),
{
    match op {
        GitOp::DropTopSnapshot | GitOp::RestoreTopSnapshot => {
            if exit_code == 1 {
                Severity::Benign
            } else {
                Severity::Fatal
            }
        },
        _ => Severity::Fatal,
    }
}

/// What became of one spawned external process, as the surrounding binary
/// reports it back.
#[derive(Debug)]
pub enum CommandOutcome {
    /// The process started and terminated. `exit_code` is `None` when it was
    /// terminated by a signal instead of exiting.
    Completed { exit_code: Option<i32>, stderr: Vec<u8> },
    /// The process could not be started at all; carries the reported reason.
    LaunchFailed { message: String },
}

/// The exit code recorded in a failure: the process's own code, or `-1`
/// when it was terminated by a signal and has none.
pub open spec fn spec_effective_exit_code(exit_code: Option<i32>) -> i32 {
    match exit_code {
        Some(c) => c,
        None => -1i32,
    }
}

/// Turns the outcome of one invocation into the command's result: success
/// exactly when the process exited with code 0; otherwise the failure
/// carries the argument list, the exit code and the captured standard-error
/// bytes, and a process that never started is a distinct launch failure.
pub fn run_result(args: Vec<String>, outcome: CommandOutcome) -> (r: Result<(), RunGitError>)
    ensures
        r is Ok <==> (outcome matches CommandOutcome::Completed { exit_code, .. } && exit_code
            == Some(0i32)),
        outcome matches CommandOutcome::Completed { exit_code, stderr } ==> exit_code
            != Some(0i32) ==> ({
            &&& r matches Err(e)
            &&& e.args == args
            &&& e.kind matches RunGitErrorKind::NonZeroExitCode { exit_code: c, stderr: se }
            &&& c == spec_effective_exit_code(exit_code)
            &&& se@ == stderr@
        }),
        outcome matches CommandOutcome::LaunchFailed { message } ==> ({
            &&& r matches Err(e)
            &&& e.args == args
            &&& e.kind matches RunGitErrorKind::StdioError(m)
            &&& m == message
        }),
{
    match outcome {
        CommandOutcome::Completed { exit_code, stderr } => {
            match exit_code {
                Some(0) => Ok(()),
                Some(c) => Err(
                    RunGitError {
                        args,
                        kind: RunGitErrorKind::NonZeroExitCode {
                            exit_code: c,
                            stderr: StdErr::new(stderr),
                        },
                    },
                ),
                None => Err(
                    RunGitError {
                        args,
                        kind: RunGitErrorKind::NonZeroExitCode {
                            exit_code: -1,
                            stderr: StdErr::new(stderr),
                        },
                    },
                ),
            }
        },
        CommandOutcome::LaunchFailed { message } => Err(
            RunGitError { args, kind: RunGitErrorKind::StdioError(message) },
        ),
    }
}

/// The argument list each operation is invoked with. The capture invocation
/// keeps the index (`-k`), includes untracked files (`-u`) and labels the
/// snapshot with a recognizable message; only the apply invocation takes the
/// stash file path.
pub open spec fn spec_git_args(op: GitOp, stash_filepath: Seq<char>) -> Seq<Seq<char>> {
    match op {
        GitOp::CaptureChanges => seq![
            "stash"@,
            "push"@,
            "-k"@,
            "-u"@,
            "-m"@,
            "git_progress_sync stash (temporary)"@,
        ],
        GitOp::DropTopSnapshot => seq!["stash"@, "drop"@],
        GitOp::RestoreTopSnapshot => seq!["stash"@, "pop"@],
        GitOp::ShowTopSnapshot => seq!["stash"@, "show"@, "--binary"@, "-u"@],
        GitOp::ApplySnapshotFile => seq!["apply"@, "--binary"@, stash_filepath],
        GitOp::QueryTopLevelDirectory => seq!["rev-parse"@, "--show-toplevel"@],
        GitOp::QueryCurrentBranch => seq!["rev-parse"@, "--abbrev-ref"@, "HEAD"@],
    }
}

/// Builds the argument list for one operation. `stash_filepath` is read only
/// for the apply operation.
pub fn git_args(op: &GitOp, stash_filepath: &str) -> (args: Vec<String>)
    ensures
        args@.map_values(|s: String| s@) == spec_git_args(*op, stash_filepath@),
{
    let mut args: Vec<String> = Vec::new();
    match op {
        GitOp::CaptureChanges => {
            args.push(String::from_str("stash"));
            args.push(String::from_str("push"));
            args.push(String::from_str("-k"));
            args.push(String::from_str("-u"));
            args.push(String::from_str("-m"));
            args.push(String::from_str("git_progress_sync stash (temporary)"));
        },
        GitOp::DropTopSnapshot => {
            args.push(String::from_str("stash"));
            args.push(String::from_str("drop"));
        },
        GitOp::RestoreTopSnapshot => {
            args.push(String::from_str("stash"));
            args.push(String::from_str("pop"));
        },
        GitOp::ShowTopSnapshot => {
            args.push(String::from_str("stash"));
            args.push(String::from_str("show"));
            args.push(String::from_str("--binary"));
            args.push(String::from_str("-u"));
        },
        GitOp::ApplySnapshotFile => {
            args.push(String::from_str("apply"));
            args.push(String::from_str("--binary"));
            args.push(String::from_str(stash_filepath));
        },
        GitOp::QueryTopLevelDirectory => {
            args.push(String::from_str("rev-parse"));
            args.push(String::from_str("--show-toplevel"));
        },
        GitOp::QueryCurrentBranch => {
            args.push(String::from_str("rev-parse"));
            args.push(String::from_str("--abbrev-ref"));
            args.push(String::from_str("HEAD"));
        },
    }
    proof {
        assert(args@.map_values(|s: String| s@) =~= spec_git_args(*op, stash_filepath@));
    }
    args
}

/// The arguments of the capture invocation, the one operation whose exact
/// shape outside tooling recognizes this tool's snapshots by.
pub fn git_stash() -> (args: Vec<String>)
    ensures
        args@.map_values(|s: String| s@) == spec_git_args(
            GitOp::CaptureChanges,
            Seq::<char>::empty(),
        ),
{
    git_args(&GitOp::CaptureChanges, "")
}

/// Decodes the standard output of one of the query operations and trims
/// surrounding whitespace (the tool terminates the value with a newline).
pub fn parse_query_output(stdout: &Vec<u8>) -> (r: String)
    ensures
        r@ == spec_trim(lossy_decoding(stdout@)),
{
    let s = lossy_utf8(stdout);
    trim_spaces(s.as_str())
}

/// The repository's name: the final path component of its root directory.
/// When the root path has no final component, no name can be derived and
/// the identity resolution fails.
pub fn get_git_current_repo_name(root_directory: &str) -> (r: Result<String, RunGitError>)
    ensures
        r is Ok <==> spec_file_name(root_directory@) is Some,
        r matches Ok(n) ==> spec_file_name(root_directory@) == Some(n@),
        r matches Err(e) ==> ({
            &&& e.args@ == Seq::<String>::empty()
            &&& e.kind matches RunGitErrorKind::StdioError(m)
            &&& m@ == "failed to get root git repo directory filename"@
        }),
{
    match file_name_of(root_directory) {
        Some(name) => Ok(name),
        None => Err(
            RunGitError {
                args: Vec::new(),
                kind: RunGitErrorKind::StdioError(
                    String::from_str("failed to get root git repo directory filename"),
                ),
            },
        ),
    }
}

} // verus!
