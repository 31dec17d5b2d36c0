//! `git worktree add` and `git worktree remove`, as argument lists.

use vstd::prelude::*;
use vstd::string::*;

use crate::text::views;

verus! {

/// `git worktree` commands run in a repository directory.
pub struct WorktreeBuilder {
    cwd: String,
}

impl View for WorktreeBuilder {
    type V = Seq<char>;

    /// The directory git runs in.
    closed spec fn view(&self) -> Seq<char> {
        self.cwd@
    }
}

/// A git invocation: the directory it runs in and its arguments (after
/// `git`).
pub struct GitCommand {
    pub dir: String,
    pub args: Vec<String>,
}

impl View for GitCommand {
    type V = (Seq<char>, Seq<Seq<char>>);

    open spec fn view(&self) -> (Seq<char>, Seq<Seq<char>>) {
        (self.dir@, views(self.args@))
    }
}

impl WorktreeBuilder {
    pub(crate) fn new(cwd: String) -> (w: WorktreeBuilder)
        ensures
            w@ == cwd@,
    {
        WorktreeBuilder { cwd }
    }

    /// `git worktree add <path> [options]`, with no options set yet.
    pub fn add(self, path: &str) -> (a: Add)
        ensures
            a@ == (AddView {
                cwd: self@,
                path: path@,
                branch: BranchView::Unset,
                detach: false,
                no_checkout: false,
                force: false,
            }),
    {
        Add {
            cwd: self.cwd,
            path: path.to_owned(),
            branch_mode: BranchMode::Unset,
            detach: false,
            no_checkout: false,
            force: false,
        }
    }

    /// `git worktree remove [--force] <path>`, without `--force` yet.
    pub fn remove(self, path: &str) -> (r: Remove)
        ensures
            r@ == (RemoveView { cwd: self@, path: path@, force: false }),
    {
        Remove { cwd: self.cwd, path: path.to_owned(), force: false }
    }
}

/// How the branch is chosen when adding a worktree.
enum BranchMode {
    /// No branch given: git creates one from the directory name.
    Unset,
    /// `-b <name>`: create a new branch.
    New(String),
    /// Positional `<branch>`: check out an existing branch.
    Existing(String),
}

/// The branch choice of an [`Add`].
pub enum BranchView {
    Unset,
    New(Seq<char>),
    Existing(Seq<char>),
}

/// The settings of an [`Add`].
pub struct AddView {
    pub cwd: Seq<char>,
    pub path: Seq<char>,
    pub branch: BranchView,
    pub detach: bool,
    pub no_checkout: bool,
    pub force: bool,
}

/// `git worktree add`.
pub struct Add {
    cwd: String,
    path: String,
    branch_mode: BranchMode,
    detach: bool,
    no_checkout: bool,
    force: bool,
}

impl View for Add {
    type V = AddView;

    closed spec fn view(&self) -> AddView {
        AddView {
            cwd: self.cwd@,
            path: self.path@,
            branch: match self.branch_mode {
                BranchMode::Unset => BranchView::Unset,
                BranchMode::New(n) => BranchView::New(n@),
                BranchMode::Existing(n) => BranchView::Existing(n@),
            },
            detach: self.detach,
            no_checkout: self.no_checkout,
            force: self.force,
        }
    }
}

/// `flag` when `on`, else nothing.
pub open spec fn flag(on: bool, flag: Seq<char>) -> Seq<Seq<char>> {
    if on {
        seq![flag]
    } else {
        Seq::empty()
    }
}

/// The arguments of `git worktree add`: the flags, then `-b <name>` for a
/// new branch, then the path, then an existing branch.
pub open spec fn add_args(a: AddView) -> Seq<Seq<char>> {
    seq!["worktree"@, "add"@] + flag(a.force, "--force"@) + flag(a.detach, "--detach"@) + flag(
        a.no_checkout,
        "--no-checkout"@,
    ) + match a.branch {
        BranchView::New(n) => seq!["-b"@, n],
        _ => Seq::empty(),
    } + seq![a.path] + match a.branch {
        BranchView::Existing(n) => seq![n],
        _ => Seq::empty(),
    }
}

impl Add {
    /// Check out the existing branch `name` into the worktree:
    /// `git worktree add <path> <branch>`.
    pub fn branch(&mut self, name: &str) -> (r: &mut Self)
        ensures
            r@ == (AddView { branch: BranchView::Existing(name@), ..old(self)@ }),
            *final(self) == *final(r),
    {
        self.branch_mode = BranchMode::Existing(name.to_owned());
        self
    }

    /// Create the branch `name` and check it out in the worktree:
    /// `git worktree add -b <name> <path>`.
    pub fn new_branch(&mut self, name: &str) -> (r: &mut Self)
        ensures
            r@ == (AddView { branch: BranchView::New(name@), ..old(self)@ }),
            *final(self) == *final(r),
    {
        self.branch_mode = BranchMode::New(name.to_owned());
        self
    }

    /// Add `--detach`.
    pub fn detach(&mut self) -> (r: &mut Self)
        ensures
            r@ == (AddView { detach: true, ..old(self)@ }),
            *final(self) == *final(r),
    {
        self.detach = true;
        self
    }

    /// Add `--no-checkout`.
    pub fn no_checkout(&mut self) -> (r: &mut Self)
        ensures
            r@ == (AddView { no_checkout: true, ..old(self)@ }),
            *final(self) == *final(r),
    {
        self.no_checkout = true;
        self
    }

    /// Add `--force`.
    pub fn force(&mut self) -> (r: &mut Self)
        ensures
            r@ == (AddView { force: true, ..old(self)@ }),
            *final(self) == *final(r),
    {
        self.force = true;
        self
    }

    /// The git invocation this builder describes.
    pub fn command(&self) -> (c: GitCommand)
        ensures
            c@ == (self@.cwd, add_args(self@)),
    {
        let mut args: Vec<String> = Vec::new();
        args.push(String::from_str("worktree"));
        args.push(String::from_str("add"));
        if self.force {
            args.push(String::from_str("--force"));
        }
        if self.detach {
            args.push(String::from_str("--detach"));
        }
        if self.no_checkout {
            args.push(String::from_str("--no-checkout"));
        }
        if let BranchMode::New(name) = &self.branch_mode {
            args.push(String::from_str("-b"));
            args.push(name.clone());
        }
        args.push(self.path.clone());
        if let BranchMode::Existing(name) = &self.branch_mode {
            args.push(name.clone());
        }
        let c = GitCommand { dir: self.cwd.clone(), args };
        assert(c@.1 =~= add_args(self@));
        c
    }
}

/// The settings of a [`Remove`].
pub struct RemoveView {
    pub cwd: Seq<char>,
    pub path: Seq<char>,
    pub force: bool,
}

/// `git worktree remove`.
pub struct Remove {
    cwd: String,
    path: String,
    force: bool,
}

impl View for Remove {
    type V = RemoveView;

    closed spec fn view(&self) -> RemoveView {
        RemoveView { cwd: self.cwd@, path: self.path@, force: self.force }
    }
}

/// The arguments of `git worktree remove`: `--force` when set, then the
/// path.
pub open spec fn remove_args(r: RemoveView) -> Seq<Seq<char>> {
    seq!["worktree"@, "remove"@] + flag(r.force, "--force"@) + seq![r.path]
}

impl Remove {
    /// Add `--force`.
    pub fn force(&mut self) -> (r: &mut Self)
        ensures
            r@ == (RemoveView { force: true, ..old(self)@ }),
            *final(self) == *final(r),
    {
        self.force = true;
        self
    }

    /// The git invocation this builder describes.
    pub fn command(&self) -> (c: GitCommand)
        ensures
            c@ == (self@.cwd, remove_args(self@)),
    {
        let mut args: Vec<String> = Vec::new();
        args.push(String::from_str("worktree"));
        args.push(String::from_str("remove"));
        if self.force {
            args.push(String::from_str("--force"));
        }
        args.push(self.path.clone());
        let c = GitCommand { dir: self.cwd.clone(), args };
        assert(c@.1 =~= remove_args(self@));
        c
    }
}

/// A new branch is always asked for with `-b <name>` right before the path,
/// whatever flags are set: the flags before it are only `--force`,
/// `--detach` and `--no-checkout`, never `-B` (which would reset an existing
/// branch of that name).
pub proof fn lemma_new_branch_is_dash_b(a: AddView, name: Seq<char>)
    requires
        a.branch == BranchView::New(name),
    ensures
        add_args(a).len() >= 5,
        add_args(a)[add_args(a).len() - 3] == "-b"@,
        add_args(a)[add_args(a).len() - 2] == name,
        add_args(a).last() == a.path,
        add_args(a)[0] == "worktree"@,
        add_args(a)[1] == "add"@,
        forall|i: int|
            2 <= i < add_args(a).len() - 3 ==> #[trigger] add_args(a)[i] == "--force"@ || add_args(a)[i]
                == "--detach"@ || add_args(a)[i] == "--no-checkout"@,
        forall|i: int| 0 <= i < add_args(a).len() - 2 ==> #[trigger] add_args(a)[i] != "-B"@,
{
    reveal_strlit("-B");
    reveal_strlit("-b");
    reveal_strlit("worktree");
    reveal_strlit("add");
    reveal_strlit("--force");
    reveal_strlit("--detach");
    reveal_strlit("--no-checkout");
    assert("-B"@.len() == 2 && "-b"@.len() == 2 && "-B"@[1] == 'B' && "-b"@[1] == 'b');
    assert("-B"@ != "-b"@);
    assert("--force"@.len() == 7 && "--detach"@.len() == 8 && "--no-checkout"@.len() == 13);
    assert("worktree"@.len() == 8 && "add"@.len() == 3);
    let flags = flag(a.force, "--force"@) + flag(a.detach, "--detach"@) + flag(
        a.no_checkout,
        "--no-checkout"@,
    );
    assert(add_args(a) =~= seq!["worktree"@, "add"@] + flags + seq!["-b"@, name] + seq![a.path]);
    assert forall|i: int| 0 <= i < flags.len() implies #[trigger] flags[i] == "--force"@ || flags[i]
        == "--detach"@ || flags[i] == "--no-checkout"@ by {
        let f1 = flag(a.force, "--force"@);
        let f2 = flag(a.detach, "--detach"@);
        if i < f1.len() {
        } else if i < f1.len() + f2.len() {
        } else {
        }
    }
    assert forall|i: int| 2 <= i < add_args(a).len() - 3 implies #[trigger] add_args(a)[i]
        == "--force"@ || add_args(a)[i] == "--detach"@ || add_args(a)[i] == "--no-checkout"@ by {
        assert(add_args(a)[i] == flags[i - 2]);
    }
    assert forall|i: int| 0 <= i < add_args(a).len() - 2 implies #[trigger] add_args(a)[i] != "-B"@ by {
        if 2 <= i < add_args(a).len() - 3 {
            assert(add_args(a)[i] == flags[i - 2]);
        }
    }
}

} // verus!
