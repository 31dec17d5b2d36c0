//! The public data types: what an opener accepts, the opener itself, a
//! location inside a file, the command that would be spawned, and the error
//! that explains why no command could be planned.

use vstd::prelude::*;
use vstd::string::*;

use crate::text::{
    ascii_upper_text, eq_ignore_ascii_case, lemma_upper_text_is_same_ignoring_case,
    str_eq_ignore_ascii_case, views,
};

verus! {

/// What kinds of files an opener accepts.
///
/// Extensions are stored without the leading dot and are matched
/// case-insensitively (ASCII) by [`FileSupport::accepts_extension`].
#[derive(Debug, Clone, PartialEq, Eq)]
pub enum FileSupport {
    /// Opener accepts any file (general editors, file managers).
    Any,
    /// Opener does not open files (terminals).
    NotSupported,
    /// Opener accepts only files with one of the listed extensions.
    Extensions(Vec<String>),
}

/// The mathematical content of a [`FileSupport`].
pub enum FileSupportView {
    Any,
    NotSupported,
    Extensions(Seq<Seq<char>>),
}

impl View for FileSupport {
    type V = FileSupportView;

    open spec fn view(&self) -> FileSupportView {
        match self {
            FileSupport::Any => FileSupportView::Any,
            FileSupport::NotSupported => FileSupportView::NotSupported,
            FileSupport::Extensions(xs) => FileSupportView::Extensions(views(xs@)),
        }
    }
}

/// Whether a file with extension `ext` is accepted under `fs`.
pub open spec fn accepts(fs: FileSupportView, ext: Seq<char>) -> bool {
    match fs {
        FileSupportView::Any => true,
        FileSupportView::NotSupported => false,
        FileSupportView::Extensions(xs) => lists_extension(xs, ext),
    }
}

/// Whether `ext` equals, up to ASCII case, one of `xs`.
pub open spec fn lists_extension(xs: Seq<Seq<char>>, ext: Seq<char>) -> bool {
    exists|i: int| 0 <= i < xs.len() && #[trigger] eq_ignore_ascii_case(xs[i], ext)
}

impl FileSupport {
    /// Returns `true` if a file with the given extension can be opened.
    ///
    /// `extension` is the bare extension without a leading dot (`"md"`, not
    /// `".md"`). The match is ASCII case-insensitive.
    pub fn accepts_extension(&self, extension: &str) -> (r: bool)
        ensures
            r == accepts(self@, extension@),
    {
        match self {
            FileSupport::Any => true,
            FileSupport::NotSupported => false,
            FileSupport::Extensions(xs) => {
                let n = xs.len();
                let mut i: usize = 0;
                while i < n
                    invariant
                        self@ == FileSupportView::Extensions(views(xs@)),
                        n == xs@.len(),
                        i <= n,
                        forall|j: int|
                            0 <= j < i ==> !eq_ignore_ascii_case(#[trigger] xs@[j]@, extension@),
                    decreases n - i,
                {
                    if str_eq_ignore_ascii_case(xs[i].as_str(), extension) {
                        assert(views(xs@)[i as int] == xs@[i as int]@);
                        assert(eq_ignore_ascii_case(views(xs@)[i as int], extension@));
                        return true;
                    }
                    i = i + 1;
                }
                assert forall|j: int| 0 <= j < views(xs@).len() implies !#[trigger] eq_ignore_ascii_case(
                    views(xs@)[j],
                    extension@,
                ) by {
                    assert(views(xs@)[j] == xs@[j]@);
                }
                false
            },
        }
    }
}

/// An app that can open file/directory paths.
///
/// The `is_default`, `is_hidden`, and `sort_order` fields are there for the
/// caller to manage user preferences on top; they always start as
/// false/`None`.
#[derive(Debug, Clone)]
pub struct PathOpener {
    /// Short stable ID like "vscode", "finder", "terminal".
    pub app_id: String,
    /// Human-friendly name, e.g. "Visual Studio Code".
    pub name: String,
    /// Shell command to open a path with this app.
    pub command: String,
    /// `true` if the app was detected on this machine.
    pub is_available: bool,
    /// Whether this opener can open a directory path.
    pub accepts_directories: bool,
    /// What files this opener accepts.
    pub file_support: FileSupport,
    /// Whether this opener honors a [`Target`] (line/column).
    pub accepts_target: bool,
    /// For the caller's UI: the user's preferred default.
    pub is_default: bool,
    /// For the caller's UI: openers the user chose to hide.
    pub is_hidden: bool,
    /// For the caller's UI: custom sort position.
    pub sort_order: Option<i32>,
}

/// A location inside the resource an opener opens. Openers that do not
/// understand a marker ignore it.
#[derive(Debug, Clone, Copy, PartialEq, Eq, Structural)]
pub struct Target {
    /// 1-based line to jump to.
    pub line: Option<u32>,
    /// 1-based column, paired with `line` where the editor supports it.
    pub column: Option<u32>,
}

impl Default for Target {
    /// The target that carries no marker.
    fn default() -> (t: Target)
        ensures
            t == (Target { line: None, column: None }),
    {
        Target { line: None, column: None }
    }
}

impl Target {
    /// A target at `line` (1-based), no column.
    pub fn line(line: u32) -> (t: Target)
        ensures
            t == (Target { line: Some(line), column: None }),
    {
        Target { line: Some(line), column: None }
    }

    /// A target at `line` and `column` (both 1-based).
    pub fn at(line: u32, column: u32) -> (t: Target)
        ensures
            t == (Target { line: Some(line), column: Some(column) }),
    {
        Target { line: Some(line), column: Some(column) }
    }

    /// Whether this target carries no marker to act on.
    pub fn is_empty(&self) -> (r: bool)
        ensures
            r == self.line.is_none(),
    {
        self.line.is_none()
    }
}

/// What would be spawned: the program and its arguments (not including the
/// program itself).
#[derive(Debug, Clone, PartialEq, Eq)]
pub struct CommandPreview {
    /// The program name.
    pub program: String,
    /// The argument list.
    pub args: Vec<String>,
}

impl View for CommandPreview {
    type V = (Seq<char>, Seq<Seq<char>>);

    open spec fn view(&self) -> (Seq<char>, Seq<Seq<char>>) {
        (self.program@, views(self.args@))
    }
}

/// The class of a failure to plan a command.
#[derive(Debug, Clone, Copy, PartialEq, Eq, Structural)]
pub enum ErrorKind {
    /// No built-in opener has the requested id.
    NotFound,
    /// The platform, or the opener on this platform, is not supported.
    Unsupported,
    /// The input cannot be turned into a command (an empty command string,
    /// a path that is not valid UTF-8).
    InvalidInput,
}

/// Why a command could not be planned.
#[derive(Debug, Clone)]
pub struct OpenError {
    pub kind: ErrorKind,
    pub message: String,
}

impl OpenError {
    pub fn kind(&self) -> (k: ErrorKind)
        ensures
            k == self.kind,
    {
        self.kind
    }

    pub fn message(&self) -> (m: &str)
        ensures
            m@ == self.message@,
    {
        self.message.as_str()
    }
}

/// The mathematical content of a planning result: the preview, or the error
/// kind and message.
pub open spec fn outcome(r: Result<CommandPreview, OpenError>) -> Result<
    (Seq<char>, Seq<Seq<char>>),
    (ErrorKind, Seq<char>),
> {
    match r {
        Ok(p) => Ok(p@),
        Err(e) => Err((e.kind, e.message@)),
    }
}

/// Matching ignores ASCII case: two extensions that are equal up to ASCII
/// case are accepted alike.
pub proof fn lemma_accepts_ignores_ascii_case(fs: FileSupportView, a: Seq<char>, b: Seq<char>)
    requires
        eq_ignore_ascii_case(a, b),
    ensures
        accepts(fs, a) == accepts(fs, b),
{
    if let FileSupportView::Extensions(xs) = fs {
        if lists_extension(xs, a) {
            let i = choose|i: int| 0 <= i < xs.len() && #[trigger] eq_ignore_ascii_case(xs[i], a);
            assert(eq_ignore_ascii_case(xs[i], b));
        }
        if lists_extension(xs, b) {
            let i = choose|i: int| 0 <= i < xs.len() && #[trigger] eq_ignore_ascii_case(xs[i], b);
            assert(eq_ignore_ascii_case(xs[i], a));
        }
    }
}

/// Upper-casing an extension's ASCII letters does not change whether it is
/// accepted: `MARKDOWN` is accepted exactly where `markdown` is.
pub proof fn lemma_accepts_ignores_upper_case(fs: FileSupportView, ext: Seq<char>)
    ensures
        accepts(fs, ascii_upper_text(ext)) == accepts(fs, ext),
{
    lemma_upper_text_is_same_ignoring_case(ext);
    lemma_accepts_ignores_ascii_case(fs, ext, ascii_upper_text(ext));
}

} // verus!
