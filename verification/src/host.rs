//! What the library learns from the machine and from std's path handling.
//!
//! The functions and names here are trusted: each body calls std, `which`
//! or `dirs`, and each contract is believed, not proved. Path arithmetic (`Path::join`,
//! `Path::strip_prefix`, `Path::file_name`, path equality) is named rather
//! than restated: it is a function of its arguments alone, fixed by the
//! platform the library is built for. Probes of the machine (what is on
//! `PATH`, what exists on disk, where the home and config directories are)
//! get no function name and no promise about their outcome; each only
//! records, as a relation, which question it was asked and what it
//! answered, so that callers can say what they did with that answer.
//! A directory the machine answers with that is not UTF-8 is carried as a
//! raw `PathBuf` ([`PathAnswer::Raw`]); joins and checks under it are made
//! all the same, but have no text for a contract to speak of.

use std::path::{Path, PathBuf};

use vstd::prelude::*;

verus! {

/// std's owned path type, carried through opaquely.
#[verifier::external_type_specification]
#[verifier::external_body]
pub struct ExPathBuf(PathBuf);

/// std's I/O error, carried through opaquely.
#[verifier::external_type_specification]
#[verifier::external_body]
pub struct ExIoError(std::io::Error);

/// The text of `Path::new(base).join(part)`.
pub uninterp spec fn joined(base: Seq<char>, part: Seq<char>) -> Seq<char>;

/// Whether `Path::new(a) == Path::new(b)` (component-wise equality).
pub uninterp spec fn paths_equal(a: Seq<char>, b: Seq<char>) -> bool;

/// The text of `Path::new(path).strip_prefix(base)`, when `base` is a
/// component-wise prefix of `path`.
pub uninterp spec fn relative_to(path: Seq<char>, base: Seq<char>) -> Option<Seq<char>>;

/// The text of `Path::new(path).file_name()`, when there is one.
pub uninterp spec fn file_name_of(path: Seq<char>) -> Option<Seq<char>>;

/// The text `format!("{:?}", s)` produces for a string: `s` quoted, with
/// std's escapes.
pub uninterp spec fn debug_text(s: Seq<char>) -> Seq<char>;

/// `Path::join`: the result is the name `joined` applied to the two texts.
/// Joining two UTF-8 texts gives UTF-8, so the lossy conversion loses
/// nothing.
#[verifier::external_body]
pub(crate) fn join_path(base: &str, part: &str) -> (r: String)
    ensures
        r@ == joined(base@, part@),
{
    Path::new(base).join(part).to_string_lossy().into_owned()
}

/// `Path`'s `==`: the result is the name `paths_equal` applied to the two
/// texts. Equal texts have equal components, so they compare equal.
#[verifier::external_body]
pub(crate) fn same_path(a: &str, b: &str) -> (r: bool)
    ensures
        r == paths_equal(a@, b@),
        a@ == b@ ==> r,
{
    Path::new(a) == Path::new(b)
}

/// `Path::strip_prefix`: the result is the name `relative_to` applied to the
/// two texts. A suffix of a UTF-8 text is UTF-8, so the lossy conversion
/// loses nothing.
#[verifier::external_body]
pub(crate) fn relative_path(path: &str, base: &str) -> (r: Option<String>)
    ensures
        match r {
            Some(s) => relative_to(path@, base@) == Some(s@),
            None => relative_to(path@, base@) is None,
        },
{
    match Path::new(path).strip_prefix(base) {
        Ok(rel) => Some(rel.to_string_lossy().into_owned()),
        Err(_) => None,
    }
}

/// `Path::file_name`: the result is the name `file_name_of` applied to the
/// text.
#[verifier::external_body]
pub(crate) fn file_name(path: &str) -> (r: Option<String>)
    ensures
        match r {
            Some(s) => file_name_of(path@) == Some(s@),
            None => file_name_of(path@) is None,
        },
{
    Path::new(path).file_name().map(|n| n.to_string_lossy().into_owned())
}

/// `format!("{:?}", s)`: the result is the name `debug_text` applied to
/// `s`.
#[verifier::external_body]
pub(crate) fn debug_quoted(s: &str) -> (r: String)
    ensures
        r@ == debug_text(s@),
{
    format!("{:?}", s)
}

/// That a lookup of `program` on `PATH` came back found (`true`) or not.
/// A record of a probe's answer, not a function: two lookups of one name
/// need not agree, and nothing says which answer a lookup gives.
pub uninterp spec fn found_on_path(program: Seq<char>, found: bool) -> bool;

/// That a check for something at `path` came back `present`. A record of a
/// probe's answer: two checks need not agree.
pub uninterp spec fn exists_on_disk(path: Seq<char>, present: bool) -> bool;

/// That asking for the home directory came back with `dir`: none, or a
/// directory with its text (`None` for one that is not UTF-8). A record of a
/// probe's answer: two asks need not agree.
pub uninterp spec fn home_dir_is(dir: Option<Option<Seq<char>>>) -> bool;

/// That asking for the user's config directory came back with `dir`: none,
/// or a directory with its text (`None` for one that is not UTF-8). A
/// record of a probe's answer: two asks need not agree.
pub uninterp spec fn config_dir_is(dir: Option<Option<Seq<char>>>) -> bool;

/// That canonicalizing `path` came back with `outcome`. A record of a
/// probe's answer: two canonicalizations of one path need not agree.
pub uninterp spec fn canonicalizes(path: Seq<char>, outcome: Canonical) -> bool;

/// The view of an optional string.
pub open spec fn opt_text(s: Option<String>) -> Option<Seq<char>> {
    match s {
        Some(t) => Some(t@),
        None => None,
    }
}

/// `which::which`: where `program` resolves to an executable (on `PATH`,
/// or as a path), if it does. Depends on the machine: the contract records
/// that this lookup of `program` answered, and promises nothing of the
/// answer.
#[verifier::external_body]
pub(crate) fn find_program(program: &str) -> (r: Option<PathBuf>)
    ensures
        found_on_path(program@, r is Some),
{
    which::which(program).ok()
}

/// `Path::exists`: whether something is at `path`. Depends on the disk:
/// the contract records that this check of `path` answered, and promises
/// nothing of the answer.
#[verifier::external_body]
pub(crate) fn path_exists(path: &str) -> (r: bool)
    ensures
        exists_on_disk(path@, r),
{
    Path::new(path).exists()
}

/// A path the machine answered with: its text when it is valid UTF-8,
/// else the path itself, carried through opaquely.
#[derive(Debug, PartialEq, Eq)]
pub enum PathAnswer {
    Text(String),
    Raw(PathBuf),
}

/// The text of a path answer, when it has one.
pub open spec fn answer_text(a: PathAnswer) -> Option<Seq<char>> {
    match a {
        PathAnswer::Text(s) => Some(s@),
        PathAnswer::Raw(_) => None,
    }
}

/// The view of an optional path answer.
pub open spec fn answer_view(a: Option<PathAnswer>) -> Option<Option<Seq<char>>> {
    match a {
        Some(x) => Some(answer_text(x)),
        None => None,
    }
}

/// `dirs::home_dir`. Depends on the machine: the contract records the
/// answer, and promises nothing of it.
#[verifier::external_body]
pub(crate) fn home_directory() -> (r: Option<PathAnswer>)
    ensures
        home_dir_is(answer_view(r)),
{
    match dirs::home_dir() {
        Some(p) => match p.into_os_string().into_string() {
            Ok(s) => Some(PathAnswer::Text(s)),
            Err(raw) => Some(PathAnswer::Raw(PathBuf::from(raw))),
        },
        None => None,
    }
}

/// `dirs::config_dir`. Depends on the machine: the contract records the
/// answer, and promises nothing of it.
#[verifier::external_body]
pub(crate) fn config_directory() -> (r: Option<PathAnswer>)
    ensures
        config_dir_is(answer_view(r)),
{
    match dirs::config_dir() {
        Some(p) => match p.into_os_string().into_string() {
            Ok(s) => Some(PathAnswer::Text(s)),
            Err(raw) => Some(PathAnswer::Raw(PathBuf::from(raw))),
        },
        None => None,
    }
}

/// `Path::join` on a path that is not UTF-8. Such a path has no text for
/// the result to be named by, so the contract says nothing of it.
#[verifier::external_body]
pub(crate) fn join_raw(base: &PathBuf, part: &str) -> (r: PathBuf) {
    base.join(part)
}

/// `Path::exists` on a path that is not UTF-8. Depends on the disk, and
/// the path has no text to record the check by: nothing is promised.
#[verifier::external_body]
pub(crate) fn exists_raw(path: &PathBuf) -> (r: bool) {
    path.exists()
}

/// `Path::to_string_lossy`: the text of a path, with what is not UTF-8
/// replaced. Nothing is said of that text.
#[verifier::external_body]
pub(crate) fn lossy_text(path: &PathBuf) -> (r: String) {
    path.to_string_lossy().into_owned()
}

/// The outcome of canonicalizing a path.
#[derive(Debug, Clone)]
pub enum Canonical {
    /// The absolute, resolved form.
    Resolved(String),
    /// The path could not be resolved (it does not exist, say).
    Unresolved,
    /// The resolved form is not valid UTF-8.
    NotUtf8,
}

/// `Path::canonicalize`. Depends on the disk: the contract records that
/// this canonicalization of `path` answered, and promises nothing of the
/// answer.
#[verifier::external_body]
pub(crate) fn canonical_form(path: &str) -> (r: Canonical)
    ensures
        canonicalizes(path@, r),
{
    match Path::new(path).canonicalize() {
        Ok(p) => match p.into_os_string().into_string() {
            Ok(s) => Canonical::Resolved(s),
            Err(_) => Canonical::NotUtf8,
        },
        Err(_) => Canonical::Unresolved,
    }
}

} // verus!
