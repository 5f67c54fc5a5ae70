//! The two workflows, each a fixed linear sequence of operations. The
//! engine decides which operation to run next and how to move on once its
//! result is in; the surrounding binary performs the actual invocation and
//! hands the result back. A failed sub-step whose exit code the policy
//! classifies as benign is treated as a success; every other failure aborts
//! the workflow and is returned unchanged.

use vstd::prelude::*;

use crate::error::{RunGitError, RunGitErrorKind};
use crate::git::{classify, GitOp, Severity, spec_classify};

verus! {

/// A finished sub-step counts as passed when it succeeded outright, or when
/// it failed with an exit code the policy classifies as benign for its
/// operation. A launch failure is never benign.
pub open spec fn step_accepted(op: GitOp, step_result: Result<(), RunGitError>) -> bool {
    ||| step_result is Ok
    ||| {
        &&& step_result matches Err(e)
        &&& e.kind matches RunGitErrorKind::NonZeroExitCode { exit_code, .. }
        &&& spec_classify(op, exit_code) is Benign
    }
}

/// Decides whether the finished sub-step counts as passed.
fn step_passes(op: &GitOp, step_result: &Result<(), RunGitError>) -> (b: bool)
    ensures
        b == step_accepted(*op, *step_result),
{
    match step_result {
        Ok(_) => true,
        Err(e) => match &e.kind {
            RunGitErrorKind::NonZeroExitCode { exit_code, .. } => {
                matches!(classify(op, *exit_code), Severity::Benign)
            },
            RunGitErrorKind::StdioError(_) => false,
        },
    }
}

/// Where the save workflow stands: capture the changes, persist the
/// snapshot to the stash file, restore the changes into the tree.
#[derive(Clone, Copy, Debug, PartialEq, Eq, Structural)]
pub enum SaveState {
    Capturing,
    Persisting,
    Restoring,
    Done,
}

/// The operation each save state runs, and `None` once the workflow is over.
pub open spec fn save_op(st: SaveState) -> Option<GitOp> {
    match st {
        SaveState::Capturing => Some(GitOp::CaptureChanges),
        SaveState::Persisting => Some(GitOp::ShowTopSnapshot),
        SaveState::Restoring => Some(GitOp::RestoreTopSnapshot),
        SaveState::Done => None,
    }
}

/// The state the save workflow moves to when its current step passes.
pub open spec fn save_next(st: SaveState) -> SaveState {
    match st {
        SaveState::Capturing => SaveState::Persisting,
        SaveState::Persisting => SaveState::Restoring,
        SaveState::Restoring => SaveState::Done,
        SaveState::Done => SaveState::Done,
    }
}

/// One transition of the save workflow: a passed step advances the state
/// and reports success; any other failure leaves the state alone and is
/// handed back unchanged.
pub open spec fn save_step(st: SaveState, step_result: Result<(), RunGitError>) -> (
    SaveState,
    Result<(), RunGitError>,
) {
    match save_op(st) {
        Some(op) => if step_accepted(op, step_result) {
            (save_next(st), Ok(()))
        } else {
            (st, step_result)
        },
        None => (st, step_result),
    }
}

/// The save workflow: capture the working tree's changes into the tool's
/// internal snapshot list, write the snapshot out to the stash file, then
/// pop the snapshot back into the tree so the tree ends as it began. A
/// benign failure of the final pop means there were no changes at all, and
/// the workflow still finishes successfully.
pub struct SaveWorkflow {
    pub state: SaveState,
}

impl SaveWorkflow {
    pub fn new() -> (w: SaveWorkflow)
        ensures
            w.state is Capturing,
    {
        SaveWorkflow { state: SaveState::Capturing }
    }

    /// The operation to run next, or `None` once the workflow is finished.
    pub fn next_op(&self) -> (op: Option<GitOp>)
        ensures
            op == save_op(self.state),
    {
        match self.state {
            SaveState::Capturing => Some(GitOp::CaptureChanges),
            SaveState::Persisting => Some(GitOp::ShowTopSnapshot),
            SaveState::Restoring => Some(GitOp::RestoreTopSnapshot),
            SaveState::Done => None,
        }
    }

    /// Feeds the current step's result back into the workflow.
    pub fn advance(&mut self, step_result: Result<(), RunGitError>) -> (r: Result<
        (),
        RunGitError,
    >)
        requires
            old(self).state !is Done,
        ensures
            final(self).state == save_step(old(self).state, step_result).0,
            r == save_step(old(self).state, step_result).1,
    {
        let op = match self.state {
            SaveState::Capturing => GitOp::CaptureChanges,
            SaveState::Persisting => GitOp::ShowTopSnapshot,
            _ => GitOp::RestoreTopSnapshot,
        };
        if step_passes(&op, &step_result) {
            self.state = match self.state {
                SaveState::Capturing => SaveState::Persisting,
                SaveState::Persisting => SaveState::Restoring,
                _ => SaveState::Done,
            };
            Ok(())
        } else {
            step_result
        }
    }
}

/// Where the load workflow stands: capture whatever is in the tree as a
/// safety snapshot, drop that snapshot so the tree is clean, then apply the
/// stash file onto it.
#[derive(Clone, Copy, Debug, PartialEq, Eq, Structural)]
pub enum LoadState {
    Clearing,
    Dropping,
    Applying,
    Done,
}

/// The operation each load state runs, and `None` once the workflow is over.
pub open spec fn load_op(st: LoadState) -> Option<GitOp> {
    match st {
        LoadState::Clearing => Some(GitOp::CaptureChanges),
        LoadState::Dropping => Some(GitOp::DropTopSnapshot),
        LoadState::Applying => Some(GitOp::ApplySnapshotFile),
        LoadState::Done => None,
    }
}

/// The state the load workflow moves to when its current step passes.
pub open spec fn load_next(st: LoadState) -> LoadState {
    match st {
        LoadState::Clearing => LoadState::Dropping,
        LoadState::Dropping => LoadState::Applying,
        LoadState::Applying => LoadState::Done,
        LoadState::Done => LoadState::Done,
    }
}

/// One transition of the load workflow, under the same acceptance rule as
/// the save workflow's.
pub open spec fn load_step(st: LoadState, step_result: Result<(), RunGitError>) -> (
    LoadState,
    Result<(), RunGitError>,
) {
    match load_op(st) {
        Some(op) => if step_accepted(op, step_result) {
            (load_next(st), Ok(()))
        } else {
            (st, step_result)
        },
        None => (st, step_result),
    }
}

/// The load workflow: capture any current changes as a safety snapshot,
/// drop it so the tree is clean (a benign failure of the drop means the
/// tree already was), then apply the stash file's contents. Whatever was in
/// the tree before is intentionally discarded; a failure of the apply step
/// is always surfaced.
pub struct LoadWorkflow {
    pub state: LoadState,
}

impl LoadWorkflow {
    pub fn new() -> (w: LoadWorkflow)
        ensures
            w.state is Clearing,
    {
        LoadWorkflow { state: LoadState::Clearing }
    }

    /// The operation to run next, or `None` once the workflow is finished.
    pub fn next_op(&self) -> (op: Option<GitOp>)
        ensures
            op == load_op(self.state),
    {
        match self.state {
            LoadState::Clearing => Some(GitOp::CaptureChanges),
            LoadState::Dropping => Some(GitOp::DropTopSnapshot),
            LoadState::Applying => Some(GitOp::ApplySnapshotFile),
            LoadState::Done => None,
        }
    }

    /// Feeds the current step's result back into the workflow.
    pub fn advance(&mut self, step_result: Result<(), RunGitError>) -> (r: Result<
        (),
        RunGitError,
    >)
        requires
            old(self).state !is Done,
        ensures
            final(self).state == load_step(old(self).state, step_result).0,
            r == load_step(old(self).state, step_result).1,
    {
        let op = match self.state {
            LoadState::Clearing => GitOp::CaptureChanges,
            LoadState::Dropping => GitOp::DropTopSnapshot,
            _ => GitOp::ApplySnapshotFile,
        };
        if step_passes(&op, &step_result) {
            self.state = match self.state {
                LoadState::Clearing => LoadState::Dropping,
                LoadState::Dropping => LoadState::Applying,
                _ => LoadState::Done,
            };
            Ok(())
        } else {
            step_result
        }
    }
}

/// A failed sub-step is swallowed exactly when it is a non-zero exit with
/// code 1 from the drop or restore operation: no launch failure, no other
/// exit code, and no failure of any other operation is.
pub proof fn lemma_benign_is_exactly_drop_restore_code_one(op: GitOp, e: RunGitError)
    ensures
        step_accepted(op, Err(e)) <==> ({
            &&& e.kind matches RunGitErrorKind::NonZeroExitCode { exit_code, .. }
            &&& op is DropTopSnapshot || op is RestoreTopSnapshot
            &&& exit_code == 1
        }),
{
}

/// A failure of the apply sub-step always propagates as fatal, whatever its
/// exit code: the benign reclassification never applies to it.
pub proof fn lemma_apply_failure_is_fatal(e: RunGitError)
    ensures
        !step_accepted(GitOp::ApplySnapshotFile, Err(e)),
{
}

/// In the load workflow, a failed apply aborts the workflow: the state does
/// not move and the failure comes back unchanged.
pub proof fn lemma_load_surfaces_apply_failure(e: RunGitError)
    ensures
        load_step(LoadState::Applying, Err(e)) == (LoadState::Applying, Err::<
            (),
            RunGitError,
        >(e)),
{
    lemma_apply_failure_is_fatal(e);
}

} // verus!
