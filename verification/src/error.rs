//! Errors of the git helpers.

use std::path::PathBuf;

use vstd::prelude::*;

verus! {

/// Why a git operation failed.
#[derive(Debug)]
pub enum GitError {
    /// git is not installed (not found on `PATH`, or could not be run).
    NotAvailable,
    /// git could not be executed.
    Exec(std::io::Error),
    /// git ran and reported a failure.
    Command { command: String, stderr: String },
    /// The directory is not inside a git repository.
    NotARepo(PathBuf),
}

} // verus!
