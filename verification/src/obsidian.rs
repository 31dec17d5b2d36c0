//! Obsidian launches through the `obsidian://` URI scheme rather than a CLI.
//! Given the vaults Obsidian has registered, the URI for a path is chosen by
//! where the path falls:
//!
//! - a vault root: `obsidian://open?vault=<name>`
//! - inside a vault: `obsidian://open?vault=<name>&file=<relative>`
//! - anywhere else: `obsidian://open?path=<absolute>`

use vstd::prelude::*;
use vstd::string::*;

use crate::host::{
    answer_view, canonical_form, canonicalizes, config_dir_is, config_directory, file_name,
    file_name_of, join_path, join_raw, joined, paths_equal, relative_path, relative_to, same_path,
    Canonical, PathAnswer,
};
use crate::opener::{CommandPreview, ErrorKind, OpenError};
use crate::registry::Os;
use crate::text::{encode, percent_encode, views};

verus! {

/// A vault Obsidian has registered.
#[derive(Debug, Clone)]
pub struct Vault {
    /// The id Obsidian assigns; stable across renames.
    pub id: String,
    /// The vault's name: the last component of its path.
    pub name: String,
    /// The vault's root directory.
    pub path: String,
}

/// The first vault whose root is `abs`.
pub open spec fn vault_at(vaults: Seq<Vault>, abs: Seq<char>) -> Option<Vault>
    decreases vaults.len(),
{
    if vaults.len() == 0 {
        None
    } else if paths_equal(vaults[0].path@, abs) {
        Some(vaults[0])
    } else {
        vault_at(vaults.drop_first(), abs)
    }
}

/// The first vault that contains `abs`, with `abs` relative to its root.
pub open spec fn vault_containing(vaults: Seq<Vault>, abs: Seq<char>) -> Option<(Vault, Seq<char>)>
    decreases vaults.len(),
{
    if vaults.len() == 0 {
        None
    } else {
        match relative_to(abs, vaults[0].path@) {
            Some(rel) => Some((vaults[0], rel)),
            None => vault_containing(vaults.drop_first(), abs),
        }
    }
}

/// The `obsidian://` URI that opens the absolute path `abs`.
pub open spec fn obsidian_uri(abs: Seq<char>, vaults: Seq<Vault>) -> Seq<char> {
    match vault_at(vaults, abs) {
        Some(v) => "obsidian://open?vault="@ + percent_encode(v.name@),
        None => match vault_containing(vaults, abs) {
            Some((v, rel)) => "obsidian://open?vault="@ + percent_encode(v.name@) + "&file="@
                + percent_encode(rel),
            None => "obsidian://open?path="@ + percent_encode(abs),
        },
    }
}

fn find_vault_at(vaults: &[Vault], abs: &str) -> (r: Option<usize>)
    ensures
        match r {
            Some(i) => i < vaults@.len() && vault_at(vaults@, abs@) == Some(vaults@[i as int]),
            None => vault_at(vaults@, abs@) is None,
        },
{
    let n = vaults.len();
    let mut i: usize = 0;
    assert(vaults@.skip(0) =~= vaults@);
    while i < n
        invariant
            n == vaults@.len(),
            i <= n,
            vault_at(vaults@, abs@) == vault_at(vaults@.skip(i as int), abs@),
        decreases n - i,
    {
        assert(vaults@.skip(i as int)[0] == vaults@[i as int]);
        if same_path(vaults[i].path.as_str(), abs) {
            assert(vault_at(vaults@.skip(i as int), abs@) == Some(vaults@[i as int]));
            return Some(i);
        }
        assert(vaults@.skip(i as int).drop_first() =~= vaults@.skip(i + 1));
        i = i + 1;
    }
    None
}

fn find_vault_containing(vaults: &[Vault], abs: &str) -> (r: Option<(usize, String)>)
    ensures
        match r {
            Some((i, rel)) => i < vaults@.len() && vault_containing(vaults@, abs@) == Some(
                (vaults@[i as int], rel@),
            ),
            None => vault_containing(vaults@, abs@) is None,
        },
{
    let n = vaults.len();
    let mut i: usize = 0;
    assert(vaults@.skip(0) =~= vaults@);
    while i < n
        invariant
            n == vaults@.len(),
            i <= n,
            vault_containing(vaults@, abs@) == vault_containing(vaults@.skip(i as int), abs@),
        decreases n - i,
    {
        assert(vaults@.skip(i as int)[0] == vaults@[i as int]);
        match relative_path(abs, vaults[i].path.as_str()) {
            Some(rel) => {
                return Some((i, rel));
            },
            None => {},
        }
        assert(vaults@.skip(i as int).drop_first() =~= vaults@.skip(i + 1));
        i = i + 1;
    }
    None
}

/// The `obsidian://` URI that opens the absolute path `abs`, given the
/// registered vaults.
pub fn uri_for(abs: &str, vaults: &[Vault]) -> (uri: String)
    ensures
        uri@ == obsidian_uri(abs@, vaults@),
{
    match find_vault_at(vaults, abs) {
        Some(i) => {
            let mut uri = String::from_str("obsidian://open?vault=");
            uri.append(encode(vaults[i].name.as_str()).as_str());
            uri
        },
        None => match find_vault_containing(vaults, abs) {
            Some((i, rel)) => {
                let mut uri = String::from_str("obsidian://open?vault=");
                uri.append(encode(vaults[i].name.as_str()).as_str());
                uri.append("&file=");
                uri.append(encode(rel.as_str()).as_str());
                uri
            },
            None => {
                let mut uri = String::from_str("obsidian://open?path=");
                uri.append(encode(abs).as_str());
                uri
            },
        },
    }
}

/// The URI for `path` once canonicalization has come back with `canon`:
/// the resolved form when there is one, else `path` itself; a resolved form
/// that is not UTF-8 is refused.
pub open spec fn uri_after(canon: Canonical, path: Seq<char>, vaults: Seq<Vault>) -> Result<
    Seq<char>,
    (ErrorKind, Seq<char>),
> {
    match canon {
        Canonical::Resolved(abs) => Ok(obsidian_uri(abs@, vaults)),
        Canonical::Unresolved => Ok(obsidian_uri(path, vaults)),
        Canonical::NotUtf8 => Err((ErrorKind::InvalidInput, "non-utf8 path"@)),
    }
}

/// The error for a path whose resolved form is not UTF-8.
fn non_utf8_path() -> (e: OpenError)
    ensures
        e.kind == ErrorKind::InvalidInput,
        e.message@ == "non-utf8 path"@,
{
    OpenError { kind: ErrorKind::InvalidInput, message: String::from_str("non-utf8 path") }
}

/// The URI for `path` once canonicalization has come back with `canon`.
pub fn uri_from(canon: Canonical, path: &str, vaults: &[Vault]) -> (r: Result<String, OpenError>)
    ensures
        match r {
            Ok(uri) => uri_after(canon, path@, vaults@) == Ok::<Seq<char>, (ErrorKind, Seq<char>)>(uri@),
            Err(e) => uri_after(canon, path@, vaults@) == Err::<Seq<char>, (ErrorKind, Seq<char>)>((e.kind, e.message@)),
        },
{
    match canon {
        Canonical::Resolved(abs) => Ok(uri_for(abs.as_str(), vaults)),
        Canonical::Unresolved => Ok(uri_for(path, vaults)),
        Canonical::NotUtf8 => Err(non_utf8_path()),
    }
}

/// Whether `r` is what [`uri_from`] gives for `canon`.
pub open spec fn uri_outcome(r: Result<String, OpenError>, canon: Canonical, path: Seq<char>, vaults: Seq<Vault>) -> bool {
    match r {
        Ok(uri) => uri_after(canon, path, vaults) == Ok::<Seq<char>, (ErrorKind, Seq<char>)>(uri@),
        Err(e) => uri_after(canon, path, vaults) == Err::<Seq<char>, (ErrorKind, Seq<char>)>(
            (e.kind, e.message@),
        ),
    }
}

/// The `obsidian://` URI that opens `path`: `path` itself is canonicalized
/// (what the disk answers is not promised), then the answer is placed
/// among the vaults.
pub fn build_uri(path: &str, vaults: &[Vault]) -> (r: Result<String, OpenError>)
    ensures
        exists|canon: Canonical|
            canonicalizes(path@, canon) && #[trigger] uri_outcome(r, canon, path@, vaults@),
{
    let canon = canonical_form(path);
    let ghost c = canon;
    let r = uri_from(canon, path, vaults);
    assert(canonicalizes(path@, c) && uri_outcome(r, c, path@, vaults@));
    r
}

/// The platform's URI launcher applied to `uri`.
pub open spec fn uri_launch(os: Option<Os>, uri: Seq<char>) -> (Seq<char>, Seq<Seq<char>>) {
    match os {
        Some(Os::MacOS) => ("open"@, seq![uri]),
        Some(Os::Linux) => ("xdg-open"@, seq![uri]),
        Some(Os::Windows) => ("cmd"@, seq!["/C"@, "start"@, ""@, uri]),
        None => ("false"@, Seq::empty()),
    }
}

/// The command that hands `uri` to the platform's URI launcher: `open` on
/// macOS, `xdg-open` on Linux, `cmd /C start "" <uri>` on Windows (the empty
/// title keeps a quoted URI from being read as the title).
pub fn uri_launcher(os: Option<Os>, uri: &str) -> (c: CommandPreview)
    ensures
        c@ == uri_launch(os, uri@),
{
    let mut args: Vec<String> = Vec::new();
    let program = match os {
        Some(Os::MacOS) => {
            args.push(uri.to_owned());
            String::from_str("open")
        },
        Some(Os::Linux) => {
            args.push(uri.to_owned());
            String::from_str("xdg-open")
        },
        Some(Os::Windows) => {
            args.push(String::from_str("/C"));
            args.push(String::from_str("start"));
            args.push(String::from_str(""));
            args.push(uri.to_owned());
            String::from_str("cmd")
        },
        None => String::from_str("false"),
    };
    let c = CommandPreview { program, args };
    assert(c@.1 =~= uri_launch(os, uri@).1);
    c
}

/// The vaults among configured `(id, path)` pairs, each named by the last
/// component of its path; a path without one is skipped.
pub open spec fn configured_vaults(entries: Seq<(String, String)>) -> Seq<(Seq<char>, Seq<char>, Seq<char>)>
    decreases entries.len(),
{
    if entries.len() == 0 {
        Seq::empty()
    } else {
        let prev = configured_vaults(entries.drop_last());
        let (id, path) = entries.last();
        match file_name_of(path@) {
            Some(name) => prev.push((id@, name, path@)),
            None => prev,
        }
    }
}

/// The mathematical content of a list of vaults.
pub open spec fn vault_views(vaults: Seq<Vault>) -> Seq<(Seq<char>, Seq<char>, Seq<char>)> {
    vaults.map_values(|v: Vault| (v.id@, v.name@, v.path@))
}

/// Turns the `(id, path)` pairs of Obsidian's config into vaults.
pub fn vaults_from_config(entries: Vec<(String, String)>) -> (vaults: Vec<Vault>)
    ensures
        vault_views(vaults@) == configured_vaults(entries@),
{
    let n = entries.len();
    let mut vaults: Vec<Vault> = Vec::new();
    let mut i: usize = 0;
    while i < n
        invariant
            n == entries@.len(),
            i <= n,
            vault_views(vaults@) =~= configured_vaults(entries@.subrange(0, i as int)),
        decreases n - i,
    {
        let ghost sub = entries@.subrange(0, i + 1);
        assert(sub.drop_last() =~= entries@.subrange(0, i as int));
        let (id, path) = &entries[i];
        match file_name(path.as_str()) {
            Some(name) => {
                let ghost before = vaults@;
                let v = Vault { id: id.clone(), name, path: path.clone() };
                vaults.push(v);
                assert(vault_views(vaults@) =~= vault_views(before).push((id@, v.name@, path@)));
            },
            None => {},
        }
        i = i + 1;
    }
    assert(entries@.subrange(0, n as int) =~= entries@);
    vaults
}

/// The text of `dir/obsidian/obsidian.json`.
pub open spec fn config_file_at(dir: Seq<char>) -> Seq<char> {
    joined(joined(dir, "obsidian"@), "obsidian.json"@)
}

/// Where Obsidian's config is, given the answer `dir` for the user's
/// config directory: `dir/obsidian/obsidian.json` (without text when the
/// directory is not UTF-8), or nowhere without one.
pub open spec fn config_file_for(dir: Option<Option<Seq<char>>>) -> Option<Option<Seq<char>>> {
    match dir {
        Some(Some(d)) => Some(Some(config_file_at(d))),
        Some(None) => Some(None),
        None => None,
    }
}

/// The path of Obsidian's config under the config directory `dir`.
pub fn config_file_in(dir: &str) -> (f: String)
    ensures
        f@ == config_file_at(dir@),
{
    let sub = join_path(dir, "obsidian");
    join_path(sub.as_str(), "obsidian.json")
}

/// Where Obsidian keeps its config: `obsidian/obsidian.json` under the
/// user's config directory, as the machine answered for it (which answer
/// is not promised); nowhere when there is none. A config directory that
/// is not UTF-8 gives a path without text.
pub fn config_file() -> (r: Option<PathAnswer>)
    ensures
        exists|dir: Option<Option<Seq<char>>>|
            config_dir_is(dir) && answer_view(r) == #[trigger] config_file_for(dir),
{
    let dir = config_directory();
    let ghost dir_v = answer_view(dir);
    let r = match dir {
        Some(PathAnswer::Text(d)) => Some(PathAnswer::Text(config_file_in(d.as_str()))),
        Some(PathAnswer::Raw(d)) => {
            let sub = join_raw(&d, "obsidian");
            Some(PathAnswer::Raw(join_raw(&sub, "obsidian.json")))
        },
        None => None,
    };
    assert(config_dir_is(dir_v) && answer_view(r) == config_file_for(dir_v));
    r
}

} // verus!
