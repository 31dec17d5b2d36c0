//! A repository to run git commands in.

use vstd::prelude::*;
use vstd::string::*;

pub mod worktree;

use worktree::WorktreeBuilder;

verus! {

/// A repository, identified by the directory git runs in.
pub struct Repo {
    cwd: String,
}

impl View for Repo {
    type V = Seq<char>;

    /// The directory git runs in.
    closed spec fn view(&self) -> Seq<char> {
        self.cwd@
    }
}

impl Repo {
    pub fn new(cwd: &str) -> (r: Repo)
        ensures
            r@ == cwd@,
    {
        Repo { cwd: cwd.to_owned() }
    }

    /// `git worktree` commands in this repository.
    pub fn worktree(self) -> (w: WorktreeBuilder)
        ensures
            w@ == self@,
    {
        WorktreeBuilder::new(self.cwd)
    }
}

/// The repository at `path`.
pub fn repo(path: &str) -> (r: Repo)
    ensures
        r@ == path@,
{
    Repo::new(path)
}

} // verus!
