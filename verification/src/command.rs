//! Planning the command that opens a path: which program, which arguments.
//!
//! The plan is a function of the opener, the path, the target and two
//! things only the machine can say: which editor CLI resolves, and what the
//! path canonicalizes to. [`plan_command`] takes both as arguments and is
//! exact; [`build_command`] asks the machine and then plans.

use vstd::prelude::*;
use vstd::string::*;

use crate::host::{
    canonical_form, canonicalizes, debug_quoted, debug_text, exists_on_disk, find_program,
    found_on_path, home_directory, home_dir_is, join_path, joined, opt_text, path_exists,
    answer_view, exists_raw, join_raw, lossy_text, PathAnswer,
    Canonical,
};
use crate::obsidian::{uri_after, uri_from, uri_launch, uri_launcher, Vault};
use crate::opener::{outcome, CommandPreview, ErrorKind, OpenError, Target};
use crate::registry::{
    app_name_of, bundle_app_name, find_entry, find_known_app, find_mac_bundle, known_apps, lookup,
    registry, Editor, GotoStyle, KnownApp, Launch, Os,
};
use crate::text::{decimal, push_decimal, split_whitespace, views, words};

verus! {

/// A planned command, or the error kind and message.
pub type Plan = Result<(Seq<char>, Seq<Seq<char>>), (ErrorKind, Seq<char>)>;

/// The error for a command string with no words.
fn empty_command() -> (e: OpenError)
    ensures
        e.kind == ErrorKind::InvalidInput,
        e.message@ == "empty command string"@,
{
    OpenError { kind: ErrorKind::InvalidInput, message: String::from_str("empty command string") }
}

/// Argv-style launch: the command's first word is the program, its other
/// words come next, and the path is the last argument.
pub open spec fn argv_plan(command: Seq<char>, path: Seq<char>) -> Plan {
    let ws = words(command);
    if ws.len() == 0 {
        Err((ErrorKind::InvalidInput, "empty command string"@))
    } else {
        Ok((ws[0], ws.drop_first().push(path)))
    }
}

/// Splits `command` on whitespace and appends `path` as the last argument.
pub fn build_argv_command(command: &str, path: &str) -> (r: Result<CommandPreview, OpenError>)
    ensures
        outcome(r) == argv_plan(command@, path@),
{
    let parts = split_whitespace(command);
    let n = parts.len();
    if n == 0 {
        return Err(empty_command());
    }
    let program = parts[0].clone();
    let mut args: Vec<String> = Vec::new();
    let mut i: usize = 1;
    while i < n
        invariant
            n == parts@.len(),
            1 <= i <= n,
            views(args@) =~= views(parts@).subrange(1, i as int),
        decreases n - i,
    {
        let ghost before = args@;
        let w = parts[i].clone();
        args.push(w);
        assert(views(args@) =~= views(before).push(parts@[i as int]@));
        i = i + 1;
    }
    args.push(path.to_owned());
    let c = CommandPreview { program, args };
    assert(views(parts@).subrange(1, n as int) =~= views(parts@).drop_first());
    assert(c@.1 =~= views(parts@).drop_first().push(path@));
    Ok(c)
}

/// The `:line[:column]` a target adds to a file, or nothing without a line.
pub open spec fn location_suffix(target: Target) -> Seq<char> {
    match target.line {
        Some(line) => seq![':'] + decimal(line) + match target.column {
            Some(column) => seq![':'] + decimal(column),
            None => Seq::empty(),
        },
        None => Seq::empty(),
    }
}

/// The arguments that open `path` at `target` in `editor`.
pub open spec fn jump_args(editor: Editor, path: Seq<char>, target: Target) -> Seq<Seq<char>> {
    let spot = path + location_suffix(target);
    match editor.goto {
        GotoStyle::Goto => seq!["--goto"@, spot],
        GotoStyle::Suffix => seq![spot],
    }
}

impl Editor {
    /// The arguments (after the program) that open `path` at `target`:
    /// `--goto <path>:<line>[:<col>]` or `<path>:<line>[:<col>]`.
    pub fn goto_args(&self, path: &str, target: &Target) -> (args: Vec<String>)
        ensures
            views(args@) == jump_args(*self, path@, *target),
    {
        let mut spot = path.to_owned();
        if let Some(line) = target.line {
            spot.push(':');
            push_decimal(&mut spot, line);
            if let Some(column) = target.column {
                spot.push(':');
                push_decimal(&mut spot, column);
            }
        }
        assert(spot@ =~= path@ + location_suffix(*target));
        let mut args: Vec<String> = Vec::new();
        match self.goto {
            GotoStyle::Goto => {
                args.push(String::from_str("--goto"));
                args.push(spot);
            },
            GotoStyle::Suffix => {
                args.push(spot);
            },
        }
        assert(views(args@) =~= jump_args(*self, path@, *target));
        args
    }
}

/// The plan for opening `path` at `target` with `app` (or, without a
/// built-in, with the bare `command`), given the editor CLI that resolved
/// (`cli`) and what the path canonicalized to (`canon`):
///
/// 1. an editor jump, when the target has a line, the app is an editor and
///    its CLI resolved;
/// 2. otherwise the app's plain open: an `obsidian://` URI for Obsidian,
///    `open -a <App Name> <path>` for a macOS GUI editor;
/// 3. otherwise argv-style launch of `command`.
pub open spec fn plan(
    os: Option<Os>,
    app: Option<KnownApp>,
    command: Seq<char>,
    path: Seq<char>,
    target: Target,
    cli: Option<Seq<char>>,
    canon: Canonical,
    vaults: Seq<Vault>,
) -> Plan {
    match (app, target.line, cli) {
        (Some(a), Some(_), Some(program)) if a.editor is Some => Ok(
            (program, jump_args(a.editor.unwrap(), path, target)),
        ),
        _ => plain_plan(os, app, command, path, canon, vaults),
    }
}

/// The plan for a plain open (no target).
pub open spec fn plain_plan(
    os: Option<Os>,
    app: Option<KnownApp>,
    command: Seq<char>,
    path: Seq<char>,
    canon: Canonical,
    vaults: Seq<Vault>,
) -> Plan {
    match app {
        Some(a) => if a.launch == Launch::Obsidian {
            match uri_after(canon, path, vaults) {
                Ok(uri) => Ok(uri_launch(os, uri)),
                Err(e) => Err(e),
            }
        } else if os == Some(Os::MacOS) && a.editor is Some && find_mac_bundle(a.platforms@) is Some {
            Ok(("open"@, seq!["-a"@, app_name_of(find_mac_bundle(a.platforms@).unwrap()@), path]))
        } else {
            argv_plan(command, path)
        },
        None => argv_plan(command, path),
    }
}

/// Plans the command, given the probe results `cli` and `canon`. Exact:
/// the result is [`plan`] applied to the arguments.
pub fn plan_command(
    os: Option<Os>,
    app: Option<KnownApp>,
    command: &str,
    path: &str,
    target: &Target,
    cli: Option<String>,
    canon: Canonical,
    vaults: &[Vault],
) -> (r: Result<CommandPreview, OpenError>)
    ensures
        outcome(r) == plan(os, app, command@, path@, *target, opt_text(cli), canon, vaults@),
{
    if target.line.is_some() {
        if let Some(a) = app {
            if let Some(editor) = a.editor {
                if let Some(program) = cli {
                    let args = editor.goto_args(path, target);
                    return Ok(CommandPreview { program, args });
                }
            }
        }
    }
    match app {
        Some(a) => {
            if a.launch == Launch::Obsidian {
                match uri_from(canon, path, vaults) {
                    Ok(uri) => {
                        return Ok(uri_launcher(os, uri.as_str()));
                    },
                    Err(e) => {
                        return Err(e);
                    },
                }
            }
            if os == Some(Os::MacOS) && a.editor.is_some() {
                if let Some(bundle) = a.mac_bundle() {
                    let mut args: Vec<String> = Vec::new();
                    args.push(String::from_str("-a"));
                    args.push(bundle_app_name(bundle).to_owned());
                    args.push(path.to_owned());
                    let c = CommandPreview { program: String::from_str("open"), args };
                    assert(c@.1 =~= seq!["-a"@, app_name_of(bundle@), path@]);
                    return Ok(c);
                }
            }
            build_argv_command(command, path)
        },
        None => build_argv_command(command, path),
    }
}

/// The text where a bundle is looked for first: under `/Applications`.
pub open spec fn system_bundle_path(bundle: Seq<char>) -> Seq<char> {
    joined("/Applications"@, bundle)
}

/// The text where a bundle is looked for next: under the home directory's
/// `Applications`.
pub open spec fn user_bundle_path(home: Seq<char>, bundle: Seq<char>) -> Seq<char> {
    joined(joined(home, "Applications"@), bundle)
}

/// The bundle root chosen from the probe answers: `/Applications` when the
/// bundle is there; otherwise `~/Applications` when the home directory is
/// known and the bundle is there; otherwise none. A root under a home
/// directory that is not UTF-8 has no text (`Some(None)`).
pub open spec fn bundle_choice(
    bundle: Seq<char>,
    system_present: bool,
    home: Option<Option<Seq<char>>>,
    user_present: bool,
) -> Option<Option<Seq<char>>> {
    if system_present {
        Some(Some(system_bundle_path(bundle)))
    } else {
        match home {
            Some(h) => if user_present {
                match h {
                    Some(t) => Some(Some(user_bundle_path(t, bundle))),
                    None => Some(None),
                }
            } else {
                None
            },
            None => None,
        }
    }
}

/// The probes a bundle lookup makes, with their answers: `/Applications`
/// is always checked; only when the bundle is not there is the home
/// directory asked for, and only when it is known is its `Applications`
/// checked (a check under a home directory that is not UTF-8 has no text
/// to be recorded by).
pub open spec fn bundle_probes(
    bundle: Seq<char>,
    system_present: bool,
    home: Option<Option<Seq<char>>>,
    user_present: bool,
) -> bool {
    &&& exists_on_disk(system_bundle_path(bundle), system_present)
    &&& !system_present ==> home_dir_is(home)
    &&& (!system_present && home is Some && home.unwrap() is Some) ==> exists_on_disk(
        user_bundle_path(home.unwrap().unwrap(), bundle),
        user_present,
    )
}

/// That looking for `bundle` came back with `root`: the choice made from
/// the answers of the probes the lookup made.
pub open spec fn bundle_lookup(bundle: Seq<char>, root: Option<Option<Seq<char>>>) -> bool {
    exists|system_present: bool, home: Option<Option<Seq<char>>>, user_present: bool|
        #[trigger] bundle_probes(bundle, system_present, home, user_present) && root
            == bundle_choice(bundle, system_present, home, user_present)
}

/// Chooses where `bundle` is installed from the probe answers. Exact: the
/// result is [`bundle_choice`] of them.
pub fn pick_bundle_root(
    bundle: &str,
    system_present: bool,
    home: Option<PathAnswer>,
    user_present: bool,
) -> (r: Option<PathAnswer>)
    ensures
        answer_view(r) == bundle_choice(bundle@, system_present, answer_view(home), user_present),
{
    if system_present {
        return Some(PathAnswer::Text(join_path("/Applications", bundle)));
    }
    if !user_present {
        return None;
    }
    match home {
        Some(PathAnswer::Text(h)) => {
            let apps = join_path(h.as_str(), "Applications");
            Some(PathAnswer::Text(join_path(apps.as_str(), bundle)))
        },
        Some(PathAnswer::Raw(h)) => {
            let apps = join_raw(&h, "Applications");
            Some(PathAnswer::Raw(join_raw(&apps, bundle)))
        },
        None => None,
    }
}

/// Where an installed `.app` bundle can be found: `/Applications` first,
/// then `~/Applications`. The result is the choice made from the answers of
/// the probes it made (which answers the disk gives is not promised).
pub fn bundle_root(bundle: &str) -> (r: Option<PathAnswer>)
    ensures
        bundle_lookup(bundle@, answer_view(r)),
{
    let system = join_path("/Applications", bundle);
    let system_present = path_exists(system.as_str());
    let mut home: Option<PathAnswer> = None;
    let mut user_present = false;
    if !system_present {
        home = home_directory();
        match &home {
            Some(PathAnswer::Text(h)) => {
                let apps = join_path(h.as_str(), "Applications");
                let user = join_path(apps.as_str(), bundle);
                user_present = path_exists(user.as_str());
            },
            Some(PathAnswer::Raw(h)) => {
                let apps = join_raw(h, "Applications");
                let user = join_raw(&apps, bundle);
                user_present = exists_raw(&user);
            },
            None => {},
        }
    }
    let ghost home_v = answer_view(home);
    assert(bundle_probes(bundle@, system_present, home_v, user_present));
    pick_bundle_root(bundle, system_present, home, user_present)
}

/// The name a lookup of `command` asks for: its first word, or the whole
/// command when it has none.
pub open spec fn lookup_name(command: Seq<char>) -> Seq<char> {
    if words(command).len() > 0 {
        words(command)[0]
    } else {
        command
    }
}

/// The program of `command` that a `PATH` lookup asks for.
pub fn program_name(command: &str) -> (p: String)
    ensures
        p@ == lookup_name(command@),
{
    let parts = split_whitespace(command);
    if parts.len() > 0 {
        assert(views(parts@)[0] == parts@[0]@);
        parts[0].clone()
    } else {
        command.to_owned()
    }
}

/// Whether the program of `command` (its first word, or the whole command
/// when it has none) is found on `PATH`: the answer of a lookup of exactly
/// that name (which answer the machine gives is not promised).
pub fn is_command_available(command: &str) -> (r: bool)
    ensures
        found_on_path(lookup_name(command@), r),
{
    let name = program_name(command);
    find_program(name.as_str()).is_some()
}

/// The CLI chosen from the probe answers: the shim found inside the bundle
/// when there is one; otherwise the CLI name when it is on `PATH`;
/// otherwise none.
pub open spec fn cli_choice(shim: Option<Seq<char>>, cli_on_path: bool, cli: Seq<char>) -> Option<
    Seq<char>,
> {
    match shim {
        Some(s) => Some(s),
        None => if cli_on_path {
            Some(cli)
        } else {
            None
        },
    }
}

/// Chooses the CLI for an editor jump from the probe answers. Exact: the
/// result is [`cli_choice`] of them.
pub fn choose_cli(shim: Option<String>, cli_on_path: bool, cli: &str) -> (r: Option<String>)
    ensures
        opt_text(r) == cli_choice(opt_text(shim), cli_on_path, cli@),
{
    match shim {
        Some(s) => Some(s),
        None => if cli_on_path {
            Some(cli.to_owned())
        } else {
            None
        },
    }
}

/// That checking for the CLI at `shim_path` came back with `shim`: the
/// path when something is there, else none.
pub open spec fn shim_at(shim_path: Seq<char>, shim: Option<Seq<char>>) -> bool {
    exists|present: bool|
        #[trigger] exists_on_disk(shim_path, present) && shim == (if present {
            Some(shim_path)
        } else {
            None
        })
}

/// That the shim lookup under a bundle lookup's answer `root` came back
/// with `shim`: none without a root, else the check of the CLI inside it.
/// Under a root that is not UTF-8 the check has no text to be recorded by,
/// and its answer is not constrained.
pub open spec fn shim_under(root: Option<Option<Seq<char>>>, editor: Editor, shim: Option<Seq<char>>) -> bool {
    match root {
        None => shim is None,
        Some(Some(rt)) => shim_at(joined(rt, editor.mac_cli_in_bundle@), shim),
        Some(None) => true,
    }
}

/// That the bundle part of resolving the editor's CLI came back with
/// `shim`: only on macOS, for an app with a bundle, is the bundle looked
/// for and the CLI inside it checked.
pub open spec fn shim_lookup(os: Option<Os>, app: KnownApp, editor: Editor, shim: Option<Seq<char>>) -> bool {
    if os == Some(Os::MacOS) && find_mac_bundle(app.platforms@) is Some {
        exists|root: Option<Option<Seq<char>>>|
            #[trigger] bundle_lookup(find_mac_bundle(app.platforms@).unwrap()@, root) && shim_under(
                root,
                editor,
                shim,
            )
    } else {
        shim is None
    }
}

/// That resolving the editor's CLI came back with `cli`: the choice made
/// from the shim lookup and, when it found nothing, a `PATH` lookup of the
/// CLI name.
pub open spec fn cli_lookup(os: Option<Os>, app: KnownApp, editor: Editor, cli: Option<Seq<char>>) -> bool {
    exists|shim: Option<Seq<char>>, on_path: bool|
        shim_lookup(os, app, editor, shim) && (shim is None ==> found_on_path(
            lookup_name(editor.cli@),
            on_path,
        )) && cli == #[trigger] cli_choice(shim, on_path, editor.cli@)
}

/// Resolves the CLI for an editor jump: on macOS the CLI inside the app's
/// installed bundle, then the CLI on `PATH`; `None` when neither resolves.
/// The result is the choice made from the answers of the probes it made.
pub fn resolve_cli(os: Option<Os>, app: &KnownApp, editor: &Editor) -> (r: Option<String>)
    ensures
        cli_lookup(os, *app, *editor, opt_text(r)),
{
    let mut shim: Option<String> = None;
    let ghost mut root_v: Option<Option<Seq<char>>> = None;
    if os == Some(Os::MacOS) {
        if let Some(bundle) = app.mac_bundle() {
            let root = bundle_root(bundle);
            proof {
                root_v = answer_view(root);
            }
            match &root {
                Some(PathAnswer::Text(rt)) => {
                    let shim_path = join_path(rt.as_str(), editor.mac_cli_in_bundle);
                    let present = path_exists(shim_path.as_str());
                    if present {
                        shim = Some(shim_path);
                    }
                    assert(shim_at(joined(rt@, editor.mac_cli_in_bundle@), opt_text(shim)));
                },
                Some(PathAnswer::Raw(rt)) => {
                    let shim_path = join_raw(rt, editor.mac_cli_in_bundle);
                    if exists_raw(&shim_path) {
                        shim = Some(lossy_text(&shim_path));
                    }
                },
                None => {},
            }
            assert(shim_under(root_v, *editor, opt_text(shim)));
            assert(bundle_lookup(find_mac_bundle(app.platforms@).unwrap()@, root_v));
        }
    }
    assert(shim_lookup(os, *app, *editor, opt_text(shim)));
    let mut on_path = false;
    if shim.is_none() {
        on_path = is_command_available(editor.cli);
    }
    let ghost shim_v = opt_text(shim);
    let r = choose_cli(shim, on_path, editor.cli);
    assert(shim_lookup(os, *app, *editor, shim_v) && (shim_v is None ==> found_on_path(
        lookup_name(editor.cli@),
        on_path,
    )) && opt_text(r) == cli_choice(shim_v, on_path, editor.cli@));
    r
}

/// That `cli` is what resolving a CLI came back with for a jump, when the
/// plan needs one (a target with a line and an editor); otherwise no CLI is
/// asked for.
pub open spec fn cli_possible(os: Option<Os>, app: Option<KnownApp>, target: Target, cli: Option<Seq<char>>) -> bool {
    match app {
        Some(a) => if target.line is Some && a.editor is Some {
            cli_lookup(os, a, a.editor.unwrap(), cli)
        } else {
            cli is None
        },
        None => cli is None,
    }
}

/// That `canon` is what canonicalizing `path` came back with, when the plan
/// needs it (Obsidian); otherwise the path is not canonicalized.
pub open spec fn canon_possible(app: Option<KnownApp>, path: Seq<char>, canon: Canonical) -> bool {
    match app {
        Some(a) => if a.launch == Launch::Obsidian {
            canonicalizes(path, canon)
        } else {
            canon == Canonical::Unresolved
        },
        None => canon == Canonical::Unresolved,
    }
}

/// Constructs (without spawning) the command that opens `path` at `target`.
/// The editor CLI and the canonical path are asked of the machine only when
/// the plan needs them; the result is [`plan`] of their answers.
pub fn build_command(
    os: Option<Os>,
    app: Option<KnownApp>,
    command: &str,
    path: &str,
    target: &Target,
    vaults: &[Vault],
) -> (r: Result<CommandPreview, OpenError>)
    ensures
        exists|cli: Option<Seq<char>>, canon: Canonical|
            cli_possible(os, app, *target, cli) && canon_possible(app, path@, canon) && outcome(r)
                == #[trigger] plan(os, app, command@, path@, *target, cli, canon, vaults@),
{
    let mut cli: Option<String> = None;
    if target.line.is_some() {
        if let Some(a) = app {
            if let Some(editor) = a.editor {
                cli = resolve_cli(os, &a, &editor);
            }
        }
    }
    let canon = match app {
        Some(a) => if a.launch == Launch::Obsidian {
            canonical_form(path)
        } else {
            Canonical::Unresolved
        },
        None => Canonical::Unresolved,
    };
    let ghost cli_v = opt_text(cli);
    let ghost canon_v = canon;
    let r = plan_command(os, app, command, path, target, cli, canon, vaults);
    assert(cli_possible(os, app, *target, cli_v));
    assert(canon_possible(app, path@, canon_v));
    assert(outcome(r) == plan(os, app, command@, path@, *target, cli_v, canon_v, vaults@));
    r
}

/// What the library knows about the machine it plans for: the platform
/// (`None` for one it does not support) and the vaults Obsidian has
/// registered there.
pub struct Host {
    pub os: Option<Os>,
    pub vaults: Vec<Vault>,
}

/// The plan for opening `path` at `target` with the built-in `app_id`:
/// an unknown id, an unsupported platform and an app without an entry for
/// this platform are errors; otherwise [`plan`] of the app's entry.
pub open spec fn open_plan(
    os: Option<Os>,
    vaults: Seq<Vault>,
    path: Seq<char>,
    app_id: Seq<char>,
    target: Target,
    cli: Option<Seq<char>>,
    canon: Canonical,
) -> Plan {
    match lookup(app_id) {
        None => Err((ErrorKind::NotFound, "unknown app_id: "@ + app_id)),
        Some(app) => match os {
            None => Err((ErrorKind::Unsupported, "unsupported platform"@)),
            Some(o) => match find_entry(app.platforms@, o) {
                None => Err(
                    (
                        ErrorKind::Unsupported,
                        "app_id "@ + debug_text(app_id) + " has no entry for this platform"@,
                    ),
                ),
                Some(entry) => plan(os, Some(app), entry.command@, path, target, cli, canon, vaults),
            },
        },
    }
}

/// Whether opening with `app_id` gets as far as planning: the id is known,
/// the platform supported, and the app has an entry for it.
pub open spec fn reaches_plan(os: Option<Os>, app_id: Seq<char>) -> bool {
    &&& lookup(app_id) is Some
    &&& os is Some
    &&& find_entry(lookup(app_id).unwrap().platforms@, os.unwrap()) is Some
}

/// That `cli` and `canon` are what the machine answered for a plan that is
/// reached; before that nothing is asked.
pub open spec fn answers_possible(
    os: Option<Os>,
    path: Seq<char>,
    app_id: Seq<char>,
    target: Target,
    cli: Option<Seq<char>>,
    canon: Canonical,
) -> bool {
    reaches_plan(os, app_id) ==> cli_possible(os, lookup(app_id), target, cli) && canon_possible(
        lookup(app_id),
        path,
        canon,
    )
}

/// Resolves `app_id` to its entry for the host's platform and constructs
/// the command that opens `path` at `target`.
pub fn build_open_command(host: &Host, path: &str, app_id: &str, target: &Target) -> (r: Result<
    CommandPreview,
    OpenError,
>)
    ensures
        exists|cli: Option<Seq<char>>, canon: Canonical|
            answers_possible(host.os, path@, app_id@, *target, cli, canon) && outcome(r)
                == #[trigger] open_plan(host.os, host.vaults@, path@, app_id@, *target, cli, canon),
{
    let apps = known_apps();
    let known = find_known_app(&apps, app_id);
    let ghost no_cli: Option<Seq<char>> = None;
    let ghost unresolved = Canonical::Unresolved;
    match known {
        None => {
            let mut message = String::from_str("unknown app_id: ");
            message.append(app_id);
            let r = Err(OpenError { kind: ErrorKind::NotFound, message });
            assert(answers_possible(host.os, path@, app_id@, *target, no_cli, unresolved));
            assert(outcome(r) == open_plan(host.os, host.vaults@, path@, app_id@, *target, no_cli, unresolved));
            r
        },
        Some(app) => match host.os {
            None => {
                let r = Err(
                    OpenError {
                        kind: ErrorKind::Unsupported,
                        message: String::from_str("unsupported platform"),
                    },
                );
                assert(answers_possible(host.os, path@, app_id@, *target, no_cli, unresolved));
                assert(outcome(r) == open_plan(host.os, host.vaults@, path@, app_id@, *target, no_cli, unresolved));
                r
            },
            Some(os) => match app.entry_for(os) {
                None => {
                    let mut message = String::from_str("app_id ");
                    message.append(debug_quoted(app_id).as_str());
                    message.append(" has no entry for this platform");
                    let r = Err(OpenError { kind: ErrorKind::Unsupported, message });
                    assert(answers_possible(host.os, path@, app_id@, *target, no_cli, unresolved));
                    assert(outcome(r) == open_plan(host.os, host.vaults@, path@, app_id@, *target, no_cli, unresolved));
                    r
                },
                Some(entry) => {
                    let r = build_command(
                        host.os,
                        Some(app),
                        entry.command,
                        path,
                        target,
                        host.vaults.as_slice(),
                    );
                    proof {
                        let (cli, canon) = choose|cli: Option<Seq<char>>, canon: Canonical|
                            cli_possible(host.os, Some(app), *target, cli) && canon_possible(
                                Some(app),
                                path@,
                                canon,
                            ) && outcome(r) == #[trigger] plan(
                                host.os,
                                Some(app),
                                entry.command@,
                                path@,
                                *target,
                                cli,
                                canon,
                                host.vaults@,
                            );
                        assert(answers_possible(host.os, path@, app_id@, *target, cli, canon));
                        assert(outcome(r) == open_plan(host.os, host.vaults@, path@, app_id@, *target, cli, canon));
                    }
                    r
                },
            },
        },
    }
}

/// What opening `path` at `target` with `app_id` would spawn, without
/// spawning anything. Errors: `NotFound` for an unknown `app_id`,
/// `Unsupported` for an unsupported platform or an app with no entry for
/// it, `InvalidInput` when the path's canonical form is not UTF-8.
pub fn preview_command_at(host: &Host, path: &str, app_id: &str, target: &Target) -> (r: Result<
    CommandPreview,
    OpenError,
>)
    ensures
        exists|cli: Option<Seq<char>>, canon: Canonical|
            answers_possible(host.os, path@, app_id@, *target, cli, canon) && outcome(r)
                == #[trigger] open_plan(host.os, host.vaults@, path@, app_id@, *target, cli, canon),
{
    build_open_command(host, path, app_id, target)
}

/// What opening `path` with `app_id` would spawn, without spawning
/// anything: the plan with an empty target, for which no CLI is asked for.
pub fn preview_command(host: &Host, path: &str, app_id: &str) -> (r: Result<CommandPreview, OpenError>)
    ensures
        exists|canon: Canonical|
            answers_possible(
                host.os,
                path@,
                app_id@,
                Target { line: None, column: None },
                None,
                canon,
            ) && outcome(r) == #[trigger] open_plan(
                host.os,
                host.vaults@,
                path@,
                app_id@,
                Target { line: None, column: None },
                None,
                canon,
            ),
{
    let target = Target::default();
    let r = preview_command_at(host, path, app_id, &target);
    proof {
        let (cli, canon) = choose|cli: Option<Seq<char>>, canon: Canonical|
            answers_possible(host.os, path@, app_id@, target, cli, canon) && outcome(r)
                == #[trigger] open_plan(host.os, host.vaults@, path@, app_id@, target, cli, canon);
        if reaches_plan(host.os, app_id@) {
            assert(cli is None);
        }
        lemma_open_at_is_open_unless_jump(host.os, host.vaults@, path@, app_id@, target, cli, canon);
        assert(answers_possible(host.os, path@, app_id@, target, None, canon));
        assert(outcome(r) == open_plan(host.os, host.vaults@, path@, app_id@, target, None, canon));
    }
    r
}

/// The command that opens `path` with `opener`: the built-in's launch
/// strategy when `opener` names one, else argv-style launch of its command.
pub fn command_for_opener(host: &Host, opener: &crate::opener::PathOpener, path: &str) -> (r: Result<
    CommandPreview,
    OpenError,
>)
    ensures
        exists|canon: Canonical|
            canon_possible(lookup(opener.app_id@), path@, canon) && outcome(r) == #[trigger] plan(
                host.os,
                lookup(opener.app_id@),
                opener.command@,
                path@,
                Target { line: None, column: None },
                None,
                canon,
                host.vaults@,
            ),
{
    let apps = known_apps();
    let known = find_known_app(&apps, opener.app_id.as_str());
    let target = Target::default();
    let r = build_command(host.os, known, opener.command.as_str(), path, &target, host.vaults.as_slice());
    proof {
        let (cli, canon) = choose|cli: Option<Seq<char>>, canon: Canonical|
            cli_possible(host.os, known, target, cli) && canon_possible(known, path@, canon) && outcome(r)
                == #[trigger] plan(host.os, known, opener.command@, path@, target, cli, canon, host.vaults@);
        assert(cli is None);
        assert(outcome(r) == plan(host.os, known, opener.command@, path@, target, None, canon, host.vaults@));
    }
    r
}

/// The command that opens `path` the way a double-click would, with the
/// platform's default handler.
pub open spec fn default_plan(os: Option<Os>, path: Seq<char>) -> Plan {
    match os {
        Some(Os::MacOS) => Ok(("open"@, seq![path])),
        Some(Os::Linux) => Ok(("xdg-open"@, seq![path])),
        Some(Os::Windows) => Ok(("explorer"@, seq![path])),
        None => Err((ErrorKind::Unsupported, "unsupported platform"@)),
    }
}

/// The command that opens `path` with the platform's default handler:
/// `open` on macOS, `xdg-open` on Linux, `explorer` on Windows.
pub fn default_open_command(os: Option<Os>, path: &str) -> (r: Result<CommandPreview, OpenError>)
    ensures
        outcome(r) == default_plan(os, path@),
{
    let program = match os {
        Some(Os::MacOS) => String::from_str("open"),
        Some(Os::Linux) => String::from_str("xdg-open"),
        Some(Os::Windows) => String::from_str("explorer"),
        None => {
            return Err(
                OpenError {
                    kind: ErrorKind::Unsupported,
                    message: String::from_str("unsupported platform"),
                },
            );
        },
    };
    let mut args: Vec<String> = Vec::new();
    args.push(path.to_owned());
    let c = CommandPreview { program, args };
    assert(c@.1 =~= seq![path@]);
    Ok(c)
}

/// An opener without an editor ignores the target: whatever the target and
/// whatever CLI resolved, the plan is the same.
pub proof fn lemma_target_ignored_without_editor(
    os: Option<Os>,
    app: KnownApp,
    command: Seq<char>,
    path: Seq<char>,
    t1: Target,
    t2: Target,
    cli1: Option<Seq<char>>,
    cli2: Option<Seq<char>>,
    canon: Canonical,
    vaults: Seq<Vault>,
)
    requires
        app.editor is None,
    ensures
        plan(os, Some(app), command, path, t1, cli1, canon, vaults) == plan(
            os,
            Some(app),
            command,
            path,
            t2,
            cli2,
            canon,
            vaults,
        ),
{
}

/// A target without a line is no target: the plan is the plain open,
/// whatever CLI resolved.
pub proof fn lemma_empty_target_is_plain_open(
    os: Option<Os>,
    app: Option<KnownApp>,
    command: Seq<char>,
    path: Seq<char>,
    target: Target,
    cli: Option<Seq<char>>,
    canon: Canonical,
    vaults: Seq<Vault>,
)
    requires
        target.line is None,
    ensures
        plan(os, app, command, path, target, cli, canon, vaults) == plain_plan(
            os,
            app,
            command,
            path,
            canon,
            vaults,
        ),
{
}

/// An editor whose CLI did not resolve falls back to the plain open, as if
/// there were no target.
pub proof fn lemma_unresolved_cli_is_plain_open(
    os: Option<Os>,
    app: Option<KnownApp>,
    command: Seq<char>,
    path: Seq<char>,
    target: Target,
    canon: Canonical,
    vaults: Seq<Vault>,
)
    ensures
        plan(os, app, command, path, target, None, canon, vaults) == plain_plan(
            os,
            app,
            command,
            path,
            canon,
            vaults,
        ),
{
}

/// Opening at a target differs from a plain open only for an editor, a
/// target with a line and a CLI that resolved: otherwise each outcome of
/// `preview_command_at` (its probe answers and the plan they give) is an
/// outcome of `preview_command` with the same canonical path.
pub proof fn lemma_open_at_is_open_unless_jump(
    os: Option<Os>,
    vaults: Seq<Vault>,
    path: Seq<char>,
    app_id: Seq<char>,
    target: Target,
    cli: Option<Seq<char>>,
    canon: Canonical,
)
    requires
        answers_possible(os, path, app_id, target, cli, canon),
        target.line is None || cli is None || lookup(app_id) is None || lookup(
            app_id,
        ).unwrap().editor is None,
    ensures
        answers_possible(os, path, app_id, Target { line: None, column: None }, None, canon),
        open_plan(os, vaults, path, app_id, target, cli, canon) == open_plan(
            os,
            vaults,
            path,
            app_id,
            Target { line: None, column: None },
            None,
            canon,
        ),
{
}

/// A built-in that launches argv-style and is no editor (a terminal, a
/// file manager, a TUI app) is opened on every platform from its platform
/// command, with the path as the last argument, whatever the target: only
/// the GUI editors go through `open -a` on macOS.
pub proof fn lemma_argv_app_opens_argv_style(
    os: Os,
    vaults: Seq<Vault>,
    path: Seq<char>,
    app_id: Seq<char>,
    app: KnownApp,
    entry: crate::registry::PlatformEntry,
    target: Target,
    cli: Option<Seq<char>>,
    canon: Canonical,
)
    requires
        lookup(app_id) == Some(app),
        app.editor is None,
        app.launch == Launch::Argv,
        find_entry(app.platforms@, os) == Some(entry),
    ensures
        open_plan(Some(os), vaults, path, app_id, target, cli, canon) == argv_plan(entry.command@, path),
        words(entry.command@).len() > 0 ==> open_plan(Some(os), vaults, path, app_id, target, cli, canon)
            == Ok::<(Seq<char>, Seq<Seq<char>>), (ErrorKind, Seq<char>)>(
            (words(entry.command@)[0], words(entry.command@).drop_first().push(path)),
        ),
{
}

/// On macOS a GUI editor with an app bundle, when no jump is made, is
/// opened through LaunchServices: `open -a <App Name> <path>`.
pub proof fn lemma_mac_editor_opens_with_open_a(
    app: KnownApp,
    command: Seq<char>,
    path: Seq<char>,
    target: Target,
    canon: Canonical,
    vaults: Seq<Vault>,
)
    requires
        app.editor is Some,
        app.launch == Launch::Argv,
        find_mac_bundle(app.platforms@) is Some,
    ensures
        plan(Some(Os::MacOS), Some(app), command, path, target, None, canon, vaults) == Ok::<
            (Seq<char>, Seq<Seq<char>>),
            (ErrorKind, Seq<char>),
        >(("open"@, seq!["-a"@, app_name_of(find_mac_bundle(app.platforms@).unwrap()@), path])),
{
}

/// Which directories and files an opener accepts is metadata for callers:
/// the plan does not consult it.
pub proof fn lemma_plan_ignores_acceptance_metadata(
    os: Option<Os>,
    app: KnownApp,
    accepts_directories: bool,
    file_support: crate::registry::FileSupportSpec,
    command: Seq<char>,
    path: Seq<char>,
    target: Target,
    cli: Option<Seq<char>>,
    canon: Canonical,
    vaults: Seq<Vault>,
)
    ensures
        plan(os, Some(app), command, path, target, cli, canon, vaults) == plan(
            os,
            Some(KnownApp { accepts_directories, file_support, ..app }),
            command,
            path,
            target,
            cli,
            canon,
            vaults,
        ),
{
}

} // verus!
