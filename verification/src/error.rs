//! The error taxonomy: a launch failure or a classified non-zero exit from
//! one external invocation, and the top-level error that the workflows and
//! the configuration store report.

use vstd::prelude::*;

use crate::config::{LoadConfigError, SaveConfigError};
use crate::text::{lossy_decoding, lossy_utf8};

verus! {

/// The captured standard-error stream of a failed invocation, kept as raw
/// bytes and decoded leniently only when shown.
#[derive(Debug)]
pub struct StdErr(Vec<u8>);

impl View for StdErr {
    type V = Seq<u8>;

    closed spec fn view(&self) -> Seq<u8> {
        self.0@
    }
}

impl StdErr {
    pub fn new(stderr: Vec<u8>) -> (r: StdErr)
        ensures
            r@ == stderr@,
    {
        StdErr(stderr)
    }

    /// The captured bytes decoded leniently: invalid sequences are replaced,
    /// never rejected.
    pub fn to_text(&self) -> (r: String)
        ensures
            r@ == lossy_decoding(self@),
    {
        lossy_utf8(&self.0)
    }
}

/// Why one external invocation failed.
#[derive(Debug)]
pub enum RunGitErrorKind {
    /// The process could not be started at all (missing binary, permission
    /// denied); carries the reported reason. Never downgraded.
    StdioError(String),
    /// The process ran and exited with a failure status.
    NonZeroExitCode { exit_code: i32, stderr: StdErr },
}

/// A failed external invocation, carrying the argument list that produced it
/// for diagnostics.
#[derive(Debug)]
pub struct RunGitError {
    pub args: Vec<String>,
    pub kind: RunGitErrorKind,
}

/// Any fatal failure of the save and load workflows or of the configuration
/// store.
#[derive(Debug)]
pub enum GitProgressSyncError {
    RunGit(RunGitError),
    /// An input/output failure outside an external invocation; carries the
    /// reported reason.
    Stdio(String),
    /// The stash file could not be created; carries the reported reason.
    SaveFile(String),
    SaveConfig(SaveConfigError),
    LoadConfig(LoadConfigError),
}

} // verus!
