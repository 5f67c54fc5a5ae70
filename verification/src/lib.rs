//! Moves uncommitted working-directory changes between machines by capturing
//! them with the version-control tool's stash facility, serializing the
//! snapshot to a portable file, and later replaying it.
//!
//! This crate holds the decision logic: which subcommands the two workflows
//! (save and load) issue, in which order, how each sub-step's exit code is
//! classified, and how the stash file path is computed. Running the external
//! processes and reading or writing files is left to the surrounding binary.

pub mod config;
pub mod error;
pub mod git;
pub mod model;
pub mod text;
pub mod workflow;
