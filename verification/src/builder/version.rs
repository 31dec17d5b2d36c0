//! git's version, as `git --version` reports it.

use vstd::prelude::*;
use vstd::string::*;

use crate::error::GitError;
use crate::text::{split_first, split_once, strip_prefix, trim, trim_str};

verus! {

/// A git version: the version number and the platform note after it.
pub struct Version {
    pub number: String,
    pub platform: String,
}

/// The text every `git --version` output starts with (after trimming).
pub open spec fn version_prefix() -> Seq<char> {
    "git version "@
}

/// Whether `output` is shaped like `git --version` output.
pub open spec fn is_version_output(output: Seq<char>) -> bool {
    version_prefix().is_prefix_of(trim(trim(output)))
}

/// The number and platform read from `git --version` output: after the
/// prefix, the text up to the first space is the number and the rest is the
/// platform, `"unknown"` when there is no space.
pub open spec fn parsed_version(output: Seq<char>) -> (Seq<char>, Seq<char>) {
    let raw = trim(trim(output)).skip(version_prefix().len() as int);
    let (number, rest) = split_first(raw, ' ');
    (
        number,
        match rest {
            Some(p) => p,
            None => "unknown"@,
        },
    )
}

/// Reads `git version 2.50.1 (Apple Git-155)` or `git version 2.50.1`.
pub fn parse_git_version(version_str: String) -> (v: Version)
    requires
        is_version_output(version_str@),
    ensures
        (v.number@, v.platform@) == parsed_version(version_str@),
{
    let raw = trim_str(version_str.as_str());
    let raw = trim_str(raw);
    let prefix = "git version ";
    proof {
        reveal_strlit("git version ");
    }
    match strip_prefix(raw, prefix) {
        Some(rest) => {
            let (number, platform) = split_once(rest, ' ');
            let platform = match platform {
                Some(p) => p,
                None => "unknown",
            };
            Version { number: number.to_owned(), platform: platform.to_owned() }
        },
        None => {
            assert(false);
            Version { number: String::new(), platform: String::new() }
        },
    }
}

/// The version from the outcome of running `git --version`: its output
/// parsed, a failure to execute git reported as git not being available,
/// and any other error passed on.
pub fn version_from(run: Result<String, GitError>) -> (r: Result<Version, GitError>)
    requires
        run matches Ok(output) ==> is_version_output(output@),
    ensures
        match run {
            Ok(output) => r matches Ok(v) && (v.number@, v.platform@) == parsed_version(output@),
            Err(GitError::Exec(_)) => r matches Err(GitError::NotAvailable),
            Err(e) => r == Err::<Version, GitError>(e),
        },
{
    match run {
        Ok(output) => Ok(parse_git_version(output)),
        Err(e) => match e {
            GitError::Exec(_) => Err(GitError::NotAvailable),
            other => Err(other),
        },
    }
}

} // verus!
