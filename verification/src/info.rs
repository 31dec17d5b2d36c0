//! Whether and where git is installed.

use std::path::PathBuf;

use vstd::prelude::*;

use crate::builder::version::Version;
use crate::error::GitError;
use crate::host::{find_program, found_on_path};

verus! {

/// Whether git is found on `PATH`: the answer of a lookup of `git` (which
/// answer the machine gives is not promised).
pub fn available() -> (r: bool)
    ensures
        found_on_path("git"@, r),
{
    find_program("git").is_some()
}

/// Where git is installed; `NotAvailable` when a lookup of `git` on `PATH`
/// finds nothing.
pub fn path() -> (r: Result<PathBuf, GitError>)
    ensures
        found_on_path("git"@, r is Ok),
        r is Err ==> r matches Err(GitError::NotAvailable),
{
    match find_program("git") {
        Some(p) => Ok(p),
        None => Err(GitError::NotAvailable),
    }
}

/// Where git is installed and which version it is.
pub struct GitInfo {
    pub path: PathBuf,
    pub version: Version,
}

/// Where git is and which version it is, from the answers of the two
/// probes: the first error, when there is one, else both together.
pub fn git_info_from(path: Result<PathBuf, GitError>, version: Result<Version, GitError>) -> (r: Result<
    GitInfo,
    GitError,
>)
    ensures
        match path {
            Err(e) => r == Err::<GitInfo, GitError>(e),
            Ok(p) => match version {
                Err(e) => r == Err::<GitInfo, GitError>(e),
                Ok(v) => r == Ok::<GitInfo, GitError>(GitInfo { path: p, version: v }),
            },
        },
{
    match path {
        Err(e) => Err(e),
        Ok(p) => match version {
            Err(e) => Err(e),
            Ok(v) => Ok(GitInfo { path: p, version: v }),
        },
    }
}

} // verus!
