//! The built-in openers: which apps exist, how each is launched and
//! detected per platform, and what paths each accepts.

use vstd::prelude::*;

use crate::opener::{FileSupport, FileSupportView};
use crate::text::{str_eq, strip_suffix, views};

verus! {

/// A platform the library knows how to plan commands for.
#[derive(Debug, Clone, Copy, PartialEq, Eq, Structural)]
pub enum Os {
    MacOS,
    Linux,
    Windows,
}

/// How to tell whether an app is installed.
#[derive(Debug, Clone, Copy)]
pub enum Detection {
    /// Ships with the OS (Finder, Explorer).
    AlwaysAvailable,
    /// Detection not implemented for this OS yet.
    AlwaysUnavailable,
    /// Look for the named `.app` bundle in `/Applications` or `~/Applications`.
    MacAppBundle(&'static str),
    /// Look the command's program up on `PATH`.
    PathLookup,
}

/// How an app is launched and detected on one platform.
#[derive(Debug, Clone, Copy)]
pub struct PlatformEntry {
    pub os: Os,
    pub command: &'static str,
    pub detection: Detection,
}

/// How a plain open turns an opener and a path into a command.
#[derive(Debug, Clone, Copy, PartialEq, Eq, Structural)]
pub enum Launch {
    /// Split the platform's command on whitespace and append the path.
    Argv,
    /// Hand an `obsidian://` URI to the platform's URI launcher.
    Obsidian,
}

/// How an editor's CLI encodes a [`crate::Target`].
#[derive(Debug, Clone, Copy, PartialEq, Eq, Structural)]
pub enum GotoStyle {
    /// `<cli> --goto <file>:<line>[:<col>]` (VS Code, Cursor).
    Goto,
    /// `<cli> <file>:<line>[:<col>]` (Sublime Text, Zed).
    Suffix,
}

/// A GUI editor that can jump to a line and column inside a file.
#[derive(Debug, Clone, Copy)]
pub struct Editor {
    /// CLI name to resolve on `PATH`.
    pub cli: &'static str,
    /// Location of the CLI inside the macOS `.app` bundle, relative to the
    /// bundle root.
    pub mac_cli_in_bundle: &'static str,
    /// How this editor's CLI encodes a target.
    pub goto: GotoStyle,
}

/// The registry's form of [`FileSupport`]: a static list of extensions.
#[derive(Debug, Clone, Copy)]
pub enum FileSupportSpec {
    Any,
    NotSupported,
    Extensions(&'static [&'static str]),
}

impl View for FileSupportSpec {
    type V = FileSupportView;

    open spec fn view(&self) -> FileSupportView {
        match self {
            FileSupportSpec::Any => FileSupportView::Any,
            FileSupportSpec::NotSupported => FileSupportView::NotSupported,
            FileSupportSpec::Extensions(xs) => FileSupportView::Extensions(
                xs@.map_values(|x: &str| x@),
            ),
        }
    }
}

impl FileSupportSpec {
    /// The owned, public form of this file support.
    pub fn to_owned(self) -> (fs: FileSupport)
        ensures
            fs@ == self@,
    {
        match self {
            FileSupportSpec::Any => FileSupport::Any,
            FileSupportSpec::NotSupported => FileSupport::NotSupported,
            FileSupportSpec::Extensions(xs) => {
                let n = xs.len();
                let mut out: Vec<String> = Vec::new();
                let mut i: usize = 0;
                while i < n
                    invariant
                        n == xs@.len(),
                        i <= n,
                        views(out@) =~= xs@.subrange(0, i as int).map_values(|x: &str| x@),
                    decreases n - i,
                {
                    let s: &str = xs[i];
                    let ghost before = out@;
                    let owned = s.to_owned();
                    out.push(owned);
                    assert(out@ == before.push(owned));
                    assert(views(out@) =~= views(before).push(s@));
                    assert(xs@.subrange(0, i + 1) =~= xs@.subrange(0, i as int).push(xs@[i as int]));
                    assert(xs@.subrange(0, i + 1).map_values(|x: &str| x@) =~= xs@.subrange(
                        0,
                        i as int,
                    ).map_values(|x: &str| x@).push(s@));
                    i = i + 1;
                }
                assert(xs@.subrange(0, n as int) =~= xs@);
                FileSupport::Extensions(out)
            },
        }
    }
}

/// A built-in opener.
#[derive(Debug, Clone, Copy)]
pub struct KnownApp {
    pub app_id: &'static str,
    pub name: &'static str,
    pub platforms: &'static [PlatformEntry],
    pub launch: Launch,
    pub accepts_directories: bool,
    pub file_support: FileSupportSpec,
    /// Set for the GUI editors that accept a target.
    pub editor: Option<Editor>,
}

/// The built-in openers, in the order they are reported.
pub open spec fn registry() -> Seq<KnownApp> {
    seq![
        // File managers / system default
        KnownApp {
            app_id: "finder",
            name: "Finder",
            platforms: &[
                PlatformEntry { os: Os::MacOS, command: "open", detection: Detection::AlwaysAvailable },
            ],
            launch: Launch::Argv,
            accepts_directories: true,
            file_support: FileSupportSpec::Any,
            editor: None,
        },
        KnownApp {
            app_id: "file-manager",
            name: "File Manager",
            platforms: &[
                PlatformEntry { os: Os::Linux, command: "xdg-open", detection: Detection::PathLookup },
            ],
            launch: Launch::Argv,
            accepts_directories: true,
            file_support: FileSupportSpec::Any,
            editor: None,
        },
        KnownApp {
            app_id: "explorer",
            name: "Explorer",
            platforms: &[
                PlatformEntry { os: Os::Windows, command: "explorer", detection: Detection::AlwaysAvailable },
            ],
            launch: Launch::Argv,
            accepts_directories: true,
            file_support: FileSupportSpec::Any,
            editor: None,
        },
        // Terminals: they accept a directory to cd into, but do not open files.
        KnownApp {
            app_id: "terminal",
            name: "Terminal",
            platforms: &[
                PlatformEntry { os: Os::MacOS, command: "open -a Terminal", detection: Detection::MacAppBundle("Terminal.app") },
            ],
            launch: Launch::Argv,
            accepts_directories: true,
            file_support: FileSupportSpec::NotSupported,
            editor: None,
        },
        KnownApp {
            app_id: "iterm",
            name: "iTerm",
            platforms: &[
                PlatformEntry { os: Os::MacOS, command: "open -a iTerm", detection: Detection::MacAppBundle("iTerm.app") },
            ],
            launch: Launch::Argv,
            accepts_directories: true,
            file_support: FileSupportSpec::NotSupported,
            editor: None,
        },
        KnownApp {
            app_id: "gnome-terminal",
            name: "GNOME Terminal",
            platforms: &[
                PlatformEntry { os: Os::Linux, command: "gnome-terminal", detection: Detection::PathLookup },
            ],
            launch: Launch::Argv,
            accepts_directories: true,
            file_support: FileSupportSpec::NotSupported,
            editor: None,
        },
        KnownApp {
            app_id: "konsole",
            name: "Konsole",
            platforms: &[
                PlatformEntry { os: Os::Linux, command: "konsole", detection: Detection::PathLookup },
            ],
            launch: Launch::Argv,
            accepts_directories: true,
            file_support: FileSupportSpec::NotSupported,
            editor: None,
        },
        KnownApp {
            app_id: "alacritty",
            name: "Alacritty",
            platforms: &[
                PlatformEntry { os: Os::MacOS, command: "open -a Alacritty", detection: Detection::MacAppBundle("Alacritty.app") },
                PlatformEntry { os: Os::Linux, command: "alacritty", detection: Detection::PathLookup },
                PlatformEntry { os: Os::Windows, command: "alacritty", detection: Detection::PathLookup },
            ],
            launch: Launch::Argv,
            accepts_directories: true,
            file_support: FileSupportSpec::NotSupported,
            editor: None,
        },
        KnownApp {
            app_id: "kitty",
            name: "Kitty",
            platforms: &[
                PlatformEntry { os: Os::MacOS, command: "open -a Kitty", detection: Detection::MacAppBundle("kitty.app") },
                PlatformEntry { os: Os::Linux, command: "kitty", detection: Detection::PathLookup },
            ],
            launch: Launch::Argv,
            accepts_directories: true,
            file_support: FileSupportSpec::NotSupported,
            editor: None,
        },
        KnownApp {
            app_id: "windows-terminal",
            name: "Windows Terminal",
            platforms: &[
                PlatformEntry { os: Os::Windows, command: "wt", detection: Detection::PathLookup },
            ],
            launch: Launch::Argv,
            accepts_directories: true,
            file_support: FileSupportSpec::NotSupported,
            editor: None,
        },
        KnownApp {
            app_id: "powershell",
            name: "PowerShell",
            platforms: &[
                PlatformEntry { os: Os::Windows, command: "pwsh", detection: Detection::PathLookup },
            ],
            launch: Launch::Argv,
            accepts_directories: true,
            file_support: FileSupportSpec::NotSupported,
            editor: None,
        },
        // `cmux <path>` opens a directory in a new workspace (macOS only).
        KnownApp {
            app_id: "cmux",
            name: "cmux",
            platforms: &[
                PlatformEntry { os: Os::MacOS, command: "cmux", detection: Detection::MacAppBundle("cmux.app") },
            ],
            launch: Launch::Argv,
            accepts_directories: true,
            file_support: FileSupportSpec::NotSupported,
            editor: None,
        },
        // Editors. The four GUI editors carry an `Editor`: on macOS they launch via
        // `open -a`, and they can jump to a `Target` through their CLI.
        KnownApp {
            app_id: "vscode",
            name: "Visual Studio Code",
            platforms: &[
                PlatformEntry { os: Os::MacOS, command: "code", detection: Detection::MacAppBundle("Visual Studio Code.app") },
                PlatformEntry { os: Os::Linux, command: "code", detection: Detection::PathLookup },
                PlatformEntry { os: Os::Windows, command: "code", detection: Detection::PathLookup },
            ],
            launch: Launch::Argv,
            accepts_directories: true,
            file_support: FileSupportSpec::Any,
            editor: Some(Editor { cli: "code", mac_cli_in_bundle: "Contents/Resources/app/bin/code", goto: GotoStyle::Goto }),
        },
        KnownApp {
            app_id: "cursor",
            name: "Cursor",
            platforms: &[
                PlatformEntry { os: Os::MacOS, command: "cursor", detection: Detection::MacAppBundle("Cursor.app") },
                PlatformEntry { os: Os::Linux, command: "cursor", detection: Detection::PathLookup },
                PlatformEntry { os: Os::Windows, command: "cursor", detection: Detection::PathLookup },
            ],
            launch: Launch::Argv,
            accepts_directories: true,
            file_support: FileSupportSpec::Any,
            editor: Some(Editor { cli: "cursor", mac_cli_in_bundle: "Contents/Resources/app/bin/cursor", goto: GotoStyle::Goto }),
        },
        KnownApp {
            app_id: "sublime-text",
            name: "Sublime Text",
            platforms: &[
                PlatformEntry { os: Os::MacOS, command: "subl", detection: Detection::MacAppBundle("Sublime Text.app") },
                PlatformEntry { os: Os::Linux, command: "subl", detection: Detection::PathLookup },
                PlatformEntry { os: Os::Windows, command: "subl", detection: Detection::PathLookup },
            ],
            launch: Launch::Argv,
            accepts_directories: true,
            file_support: FileSupportSpec::Any,
            editor: Some(Editor { cli: "subl", mac_cli_in_bundle: "Contents/SharedSupport/bin/subl", goto: GotoStyle::Suffix }),
        },
        KnownApp {
            app_id: "zed",
            name: "Zed",
            platforms: &[
                PlatformEntry { os: Os::MacOS, command: "zed", detection: Detection::MacAppBundle("Zed.app") },
                PlatformEntry { os: Os::Linux, command: "zed", detection: Detection::PathLookup },
                PlatformEntry { os: Os::Windows, command: "zed", detection: Detection::PathLookup },
            ],
            launch: Launch::Argv,
            accepts_directories: true,
            file_support: FileSupportSpec::Any,
            editor: Some(Editor { cli: "zed", mac_cli_in_bundle: "Contents/MacOS/cli", goto: GotoStyle::Suffix }),
        },
        KnownApp {
            app_id: "neovim",
            name: "Neovim",
            platforms: &[
                PlatformEntry { os: Os::MacOS, command: "nvim", detection: Detection::PathLookup },
                PlatformEntry { os: Os::Linux, command: "nvim", detection: Detection::PathLookup },
                PlatformEntry { os: Os::Windows, command: "nvim", detection: Detection::PathLookup },
            ],
            launch: Launch::Argv,
            accepts_directories: true,
            file_support: FileSupportSpec::Any,
            editor: None,
        },
        KnownApp {
            app_id: "webstorm",
            name: "WebStorm",
            platforms: &[
                PlatformEntry { os: Os::MacOS, command: "webstorm", detection: Detection::PathLookup },
                PlatformEntry { os: Os::Linux, command: "webstorm", detection: Detection::PathLookup },
                PlatformEntry { os: Os::Windows, command: "webstorm", detection: Detection::PathLookup },
            ],
            launch: Launch::Argv,
            accepts_directories: true,
            file_support: FileSupportSpec::Any,
            editor: None,
        },
        KnownApp {
            app_id: "intellij",
            name: "IntelliJ IDEA",
            platforms: &[
                PlatformEntry { os: Os::MacOS, command: "idea", detection: Detection::PathLookup },
                PlatformEntry { os: Os::Linux, command: "idea", detection: Detection::PathLookup },
                PlatformEntry { os: Os::Windows, command: "idea", detection: Detection::PathLookup },
            ],
            launch: Launch::Argv,
            accepts_directories: true,
            file_support: FileSupportSpec::Any,
            editor: None,
        },
        // Markdown. Detection on Linux and Windows is not implemented yet.
        KnownApp {
            app_id: "obsidian",
            name: "Obsidian",
            platforms: &[
                PlatformEntry { os: Os::MacOS, command: "open -a Obsidian", detection: Detection::MacAppBundle("Obsidian.app") },
                PlatformEntry { os: Os::Linux, command: "obsidian", detection: Detection::AlwaysUnavailable },
                PlatformEntry { os: Os::Windows, command: "obsidian", detection: Detection::AlwaysUnavailable },
            ],
            launch: Launch::Obsidian,
            accepts_directories: true,
            file_support: FileSupportSpec::Extensions(&["md", "markdown", "canvas"]),
            editor: None,
        },
    ]
}

/// The built-in openers, in the order they are reported.
pub fn known_apps() -> (apps: Vec<KnownApp>)
    ensures
        apps@ == registry(),
{
    vec![
        // File managers / system default
        KnownApp {
            app_id: "finder",
            name: "Finder",
            platforms: &[
                PlatformEntry { os: Os::MacOS, command: "open", detection: Detection::AlwaysAvailable },
            ],
            launch: Launch::Argv,
            accepts_directories: true,
            file_support: FileSupportSpec::Any,
            editor: None,
        },
        KnownApp {
            app_id: "file-manager",
            name: "File Manager",
            platforms: &[
                PlatformEntry { os: Os::Linux, command: "xdg-open", detection: Detection::PathLookup },
            ],
            launch: Launch::Argv,
            accepts_directories: true,
            file_support: FileSupportSpec::Any,
            editor: None,
        },
        KnownApp {
            app_id: "explorer",
            name: "Explorer",
            platforms: &[
                PlatformEntry { os: Os::Windows, command: "explorer", detection: Detection::AlwaysAvailable },
            ],
            launch: Launch::Argv,
            accepts_directories: true,
            file_support: FileSupportSpec::Any,
            editor: None,
        },
        // Terminals: they accept a directory to cd into, but do not open files.
        KnownApp {
            app_id: "terminal",
            name: "Terminal",
            platforms: &[
                PlatformEntry { os: Os::MacOS, command: "open -a Terminal", detection: Detection::MacAppBundle("Terminal.app") },
            ],
            launch: Launch::Argv,
            accepts_directories: true,
            file_support: FileSupportSpec::NotSupported,
            editor: None,
        },
        KnownApp {
            app_id: "iterm",
            name: "iTerm",
            platforms: &[
                PlatformEntry { os: Os::MacOS, command: "open -a iTerm", detection: Detection::MacAppBundle("iTerm.app") },
            ],
            launch: Launch::Argv,
            accepts_directories: true,
            file_support: FileSupportSpec::NotSupported,
            editor: None,
        },
        KnownApp {
            app_id: "gnome-terminal",
            name: "GNOME Terminal",
            platforms: &[
                PlatformEntry { os: Os::Linux, command: "gnome-terminal", detection: Detection::PathLookup },
            ],
            launch: Launch::Argv,
            accepts_directories: true,
            file_support: FileSupportSpec::NotSupported,
            editor: None,
        },
        KnownApp {
            app_id: "konsole",
            name: "Konsole",
            platforms: &[
                PlatformEntry { os: Os::Linux, command: "konsole", detection: Detection::PathLookup },
            ],
            launch: Launch::Argv,
            accepts_directories: true,
            file_support: FileSupportSpec::NotSupported,
            editor: None,
        },
        KnownApp {
            app_id: "alacritty",
            name: "Alacritty",
            platforms: &[
                PlatformEntry { os: Os::MacOS, command: "open -a Alacritty", detection: Detection::MacAppBundle("Alacritty.app") },
                PlatformEntry { os: Os::Linux, command: "alacritty", detection: Detection::PathLookup },
                PlatformEntry { os: Os::Windows, command: "alacritty", detection: Detection::PathLookup },
            ],
            launch: Launch::Argv,
            accepts_directories: true,
            file_support: FileSupportSpec::NotSupported,
            editor: None,
        },
        KnownApp {
            app_id: "kitty",
            name: "Kitty",
            platforms: &[
                PlatformEntry { os: Os::MacOS, command: "open -a Kitty", detection: Detection::MacAppBundle("kitty.app") },
                PlatformEntry { os: Os::Linux, command: "kitty", detection: Detection::PathLookup },
            ],
            launch: Launch::Argv,
            accepts_directories: true,
            file_support: FileSupportSpec::NotSupported,
            editor: None,
        },
        KnownApp {
            app_id: "windows-terminal",
            name: "Windows Terminal",
            platforms: &[
                PlatformEntry { os: Os::Windows, command: "wt", detection: Detection::PathLookup },
            ],
            launch: Launch::Argv,
            accepts_directories: true,
            file_support: FileSupportSpec::NotSupported,
            editor: None,
        },
        KnownApp {
            app_id: "powershell",
            name: "PowerShell",
            platforms: &[
                PlatformEntry { os: Os::Windows, command: "pwsh", detection: Detection::PathLookup },
            ],
            launch: Launch::Argv,
            accepts_directories: true,
            file_support: FileSupportSpec::NotSupported,
            editor: None,
        },
        // `cmux <path>` opens a directory in a new workspace (macOS only).
        KnownApp {
            app_id: "cmux",
            name: "cmux",
            platforms: &[
                PlatformEntry { os: Os::MacOS, command: "cmux", detection: Detection::MacAppBundle("cmux.app") },
            ],
            launch: Launch::Argv,
            accepts_directories: true,
            file_support: FileSupportSpec::NotSupported,
            editor: None,
        },
        // Editors. The four GUI editors carry an `Editor`: on macOS they launch via
        // `open -a`, and they can jump to a `Target` through their CLI.
        KnownApp {
            app_id: "vscode",
            name: "Visual Studio Code",
            platforms: &[
                PlatformEntry { os: Os::MacOS, command: "code", detection: Detection::MacAppBundle("Visual Studio Code.app") },
                PlatformEntry { os: Os::Linux, command: "code", detection: Detection::PathLookup },
                PlatformEntry { os: Os::Windows, command: "code", detection: Detection::PathLookup },
            ],
            launch: Launch::Argv,
            accepts_directories: true,
            file_support: FileSupportSpec::Any,
            editor: Some(Editor { cli: "code", mac_cli_in_bundle: "Contents/Resources/app/bin/code", goto: GotoStyle::Goto }),
        },
        KnownApp {
            app_id: "cursor",
            name: "Cursor",
            platforms: &[
                PlatformEntry { os: Os::MacOS, command: "cursor", detection: Detection::MacAppBundle("Cursor.app") },
                PlatformEntry { os: Os::Linux, command: "cursor", detection: Detection::PathLookup },
                PlatformEntry { os: Os::Windows, command: "cursor", detection: Detection::PathLookup },
            ],
            launch: Launch::Argv,
            accepts_directories: true,
            file_support: FileSupportSpec::Any,
            editor: Some(Editor { cli: "cursor", mac_cli_in_bundle: "Contents/Resources/app/bin/cursor", goto: GotoStyle::Goto }),
        },
        KnownApp {
            app_id: "sublime-text",
            name: "Sublime Text",
            platforms: &[
                PlatformEntry { os: Os::MacOS, command: "subl", detection: Detection::MacAppBundle("Sublime Text.app") },
                PlatformEntry { os: Os::Linux, command: "subl", detection: Detection::PathLookup },
                PlatformEntry { os: Os::Windows, command: "subl", detection: Detection::PathLookup },
            ],
            launch: Launch::Argv,
            accepts_directories: true,
            file_support: FileSupportSpec::Any,
            editor: Some(Editor { cli: "subl", mac_cli_in_bundle: "Contents/SharedSupport/bin/subl", goto: GotoStyle::Suffix }),
        },
        KnownApp {
            app_id: "zed",
            name: "Zed",
            platforms: &[
                PlatformEntry { os: Os::MacOS, command: "zed", detection: Detection::MacAppBundle("Zed.app") },
                PlatformEntry { os: Os::Linux, command: "zed", detection: Detection::PathLookup },
                PlatformEntry { os: Os::Windows, command: "zed", detection: Detection::PathLookup },
            ],
            launch: Launch::Argv,
            accepts_directories: true,
            file_support: FileSupportSpec::Any,
            editor: Some(Editor { cli: "zed", mac_cli_in_bundle: "Contents/MacOS/cli", goto: GotoStyle::Suffix }),
        },
        KnownApp {
            app_id: "neovim",
            name: "Neovim",
            platforms: &[
                PlatformEntry { os: Os::MacOS, command: "nvim", detection: Detection::PathLookup },
                PlatformEntry { os: Os::Linux, command: "nvim", detection: Detection::PathLookup },
                PlatformEntry { os: Os::Windows, command: "nvim", detection: Detection::PathLookup },
            ],
            launch: Launch::Argv,
            accepts_directories: true,
            file_support: FileSupportSpec::Any,
            editor: None,
        },
        KnownApp {
            app_id: "webstorm",
            name: "WebStorm",
            platforms: &[
                PlatformEntry { os: Os::MacOS, command: "webstorm", detection: Detection::PathLookup },
                PlatformEntry { os: Os::Linux, command: "webstorm", detection: Detection::PathLookup },
                PlatformEntry { os: Os::Windows, command: "webstorm", detection: Detection::PathLookup },
            ],
            launch: Launch::Argv,
            accepts_directories: true,
            file_support: FileSupportSpec::Any,
            editor: None,
        },
        KnownApp {
            app_id: "intellij",
            name: "IntelliJ IDEA",
            platforms: &[
                PlatformEntry { os: Os::MacOS, command: "idea", detection: Detection::PathLookup },
                PlatformEntry { os: Os::Linux, command: "idea", detection: Detection::PathLookup },
                PlatformEntry { os: Os::Windows, command: "idea", detection: Detection::PathLookup },
            ],
            launch: Launch::Argv,
            accepts_directories: true,
            file_support: FileSupportSpec::Any,
            editor: None,
        },
        // Markdown. Detection on Linux and Windows is not implemented yet.
        KnownApp {
            app_id: "obsidian",
            name: "Obsidian",
            platforms: &[
                PlatformEntry { os: Os::MacOS, command: "open -a Obsidian", detection: Detection::MacAppBundle("Obsidian.app") },
                PlatformEntry { os: Os::Linux, command: "obsidian", detection: Detection::AlwaysUnavailable },
                PlatformEntry { os: Os::Windows, command: "obsidian", detection: Detection::AlwaysUnavailable },
            ],
            launch: Launch::Obsidian,
            accepts_directories: true,
            file_support: FileSupportSpec::Extensions(&["md", "markdown", "canvas"]),
            editor: None,
        },
    ]
}

/// The first entry of `ps` for `os`.
pub open spec fn find_entry(ps: Seq<PlatformEntry>, os: Os) -> Option<PlatformEntry>
    decreases ps.len(),
{
    if ps.len() == 0 {
        None
    } else if ps[0].os == os {
        Some(ps[0])
    } else {
        find_entry(ps.drop_first(), os)
    }
}

/// The first macOS `.app` bundle among the entries.
pub open spec fn find_mac_bundle(ps: Seq<PlatformEntry>) -> Option<&'static str>
    decreases ps.len(),
{
    if ps.len() == 0 {
        None
    } else {
        match ps[0].detection {
            Detection::MacAppBundle(b) if ps[0].os == Os::MacOS => Some(b),
            _ => find_mac_bundle(ps.drop_first()),
        }
    }
}

/// The first app of `apps` with id `id`.
pub open spec fn find_app(apps: Seq<KnownApp>, id: Seq<char>) -> Option<KnownApp>
    decreases apps.len(),
{
    if apps.len() == 0 {
        None
    } else if apps[0].app_id@ == id {
        Some(apps[0])
    } else {
        find_app(apps.drop_first(), id)
    }
}

/// The built-in opener with id `id`.
pub open spec fn lookup(id: Seq<char>) -> Option<KnownApp> {
    find_app(registry(), id)
}

impl KnownApp {
    /// This app's entry for `os`, if it has one.
    pub fn entry_for(&self, os: Os) -> (r: Option<PlatformEntry>)
        ensures
            r == find_entry(self.platforms@, os),
    {
        let ps = self.platforms;
        let n = ps.len();
        let mut i: usize = 0;
        assert(ps@.skip(0) =~= ps@);
        while i < n
            invariant
                ps == self.platforms,
                n == ps@.len(),
                i <= n,
                find_entry(ps@, os) == find_entry(ps@.skip(i as int), os),
            decreases n - i,
        {
            assert(ps@.skip(i as int)[0] == ps@[i as int]);
            if ps[i].os == os {
                assert(ps@.skip(i as int).len() > 0);
                assert(find_entry(ps@.skip(i as int), os) == Some(ps@[i as int]));
                return Some(ps[i]);
            }
            assert(ps@.skip(i as int).drop_first() =~= ps@.skip(i + 1));
            i = i + 1;
        }
        None
    }

    /// The macOS `.app` bundle this app is detected by, if any.
    pub fn mac_bundle(&self) -> (r: Option<&'static str>)
        ensures
            r == find_mac_bundle(self.platforms@),
    {
        let ps = self.platforms;
        let n = ps.len();
        let mut i: usize = 0;
        assert(ps@.skip(0) =~= ps@);
        while i < n
            invariant
                ps == self.platforms,
                n == ps@.len(),
                i <= n,
                find_mac_bundle(ps@) == find_mac_bundle(ps@.skip(i as int)),
            decreases n - i,
        {
            assert(ps@.skip(i as int)[0] == ps@[i as int]);
            let p = ps[i];
            if let Detection::MacAppBundle(b) = p.detection {
                if p.os == Os::MacOS {
                    assert(ps@.skip(i as int).len() > 0);
                    assert(find_mac_bundle(ps@.skip(i as int)) == Some(b));
                    return Some(b);
                }
            }
            assert(ps@.skip(i as int).drop_first() =~= ps@.skip(i + 1));
            i = i + 1;
        }
        None
    }
}

/// The first app of `apps` whose id is `app_id`.
pub fn find_known_app(apps: &Vec<KnownApp>, app_id: &str) -> (r: Option<KnownApp>)
    ensures
        r == find_app(apps@, app_id@),
{
    let n = apps.len();
    let mut i: usize = 0;
    assert(apps@.skip(0) =~= apps@);
    while i < n
        invariant
            n == apps@.len(),
            i <= n,
            find_app(apps@, app_id@) == find_app(apps@.skip(i as int), app_id@),
        decreases n - i,
    {
        assert(apps@.skip(i as int)[0] == apps@[i as int]);
        let a = apps[i];
        if str_eq(a.app_id, app_id) {
            return Some(a);
        }
        assert(apps@.skip(i as int).drop_first() =~= apps@.skip(i + 1));
        i = i + 1;
    }
    None
}

/// The name `open -a` takes for a bundle: the bundle without its `.app`
/// suffix.
pub open spec fn app_name_of(bundle: Seq<char>) -> Seq<char> {
    if ".app"@.is_suffix_of(bundle) {
        bundle.take(bundle.len() - ".app"@.len())
    } else {
        bundle
    }
}

/// `"Visual Studio Code.app"` becomes `"Visual Studio Code"`.
pub fn bundle_app_name(bundle: &str) -> (r: &str)
    ensures
        r@ == app_name_of(bundle@),
{
    match strip_suffix(bundle, ".app") {
        Some(name) => name,
        None => bundle,
    }
}

/// The position of a built-in id in the registry, told apart by its length
/// and first character.
pub open spec fn id_slot(s: Seq<char>) -> int {
    if s.len() == 6 && s[0] == 'f' {
        0
    } else     if s.len() == 12 && s[0] == 'f' {
        1
    } else     if s.len() == 8 && s[0] == 'e' {
        2
    } else     if s.len() == 8 && s[0] == 't' {
        3
    } else     if s.len() == 5 && s[0] == 'i' {
        4
    } else     if s.len() == 14 && s[0] == 'g' {
        5
    } else     if s.len() == 7 && s[0] == 'k' {
        6
    } else     if s.len() == 9 && s[0] == 'a' {
        7
    } else     if s.len() == 5 && s[0] == 'k' {
        8
    } else     if s.len() == 16 && s[0] == 'w' {
        9
    } else     if s.len() == 10 && s[0] == 'p' {
        10
    } else     if s.len() == 4 && s[0] == 'c' {
        11
    } else     if s.len() == 6 && s[0] == 'v' {
        12
    } else     if s.len() == 6 && s[0] == 'c' {
        13
    } else     if s.len() == 12 && s[0] == 's' {
        14
    } else     if s.len() == 3 && s[0] == 'z' {
        15
    } else     if s.len() == 6 && s[0] == 'n' {
        16
    } else     if s.len() == 8 && s[0] == 'w' {
        17
    } else     if s.len() == 8 && s[0] == 'i' {
        18
    } else     if s.len() == 8 && s[0] == 'o' {
        19
    } else {
        -1
    }
}

/// Each built-in id sits at its own position: `id_slot` recovers the index
/// of every registry entry from its id.
pub proof fn lemma_registry_slots()
    ensures
        forall|k: int| 0 <= k < registry().len() ==> id_slot(#[trigger] registry()[k].app_id@) == k,
        id_slot("finder"@) == 0,
        id_slot("file-manager"@) == 1,
        id_slot("explorer"@) == 2,
        id_slot("terminal"@) == 3,
        id_slot("iterm"@) == 4,
        id_slot("gnome-terminal"@) == 5,
        id_slot("konsole"@) == 6,
        id_slot("alacritty"@) == 7,
        id_slot("kitty"@) == 8,
        id_slot("windows-terminal"@) == 9,
        id_slot("powershell"@) == 10,
        id_slot("cmux"@) == 11,
        id_slot("vscode"@) == 12,
        id_slot("cursor"@) == 13,
        id_slot("sublime-text"@) == 14,
        id_slot("zed"@) == 15,
        id_slot("neovim"@) == 16,
        id_slot("webstorm"@) == 17,
        id_slot("intellij"@) == 18,
        id_slot("obsidian"@) == 19,
{
    reveal_strlit("finder");
    reveal_strlit("file-manager");
    reveal_strlit("explorer");
    reveal_strlit("terminal");
    reveal_strlit("iterm");
    reveal_strlit("gnome-terminal");
    reveal_strlit("konsole");
    reveal_strlit("alacritty");
    reveal_strlit("kitty");
    reveal_strlit("windows-terminal");
    reveal_strlit("powershell");
    reveal_strlit("cmux");
    reveal_strlit("vscode");
    reveal_strlit("cursor");
    reveal_strlit("sublime-text");
    reveal_strlit("zed");
    reveal_strlit("neovim");
    reveal_strlit("webstorm");
    reveal_strlit("intellij");
    reveal_strlit("obsidian");
    let r = registry();
    assert forall|k: int| 0 <= k < r.len() implies id_slot(#[trigger] r[k].app_id@) == k by {}
}

/// The built-in openers have pairwise distinct ids, so an id names at most
/// one of them.
pub proof fn lemma_app_ids_unique()
    ensures
        forall|i: int, j: int|
            0 <= i < j < registry().len() ==> #[trigger] registry()[i].app_id@
                != #[trigger] registry()[j].app_id@,
{
    lemma_registry_slots();
}

/// The ids of the built-in editors that can jump to a target.
pub open spec fn is_jump_editor_id(id: Seq<char>) -> bool {
    id == "vscode"@ || id == "cursor"@ || id == "sublime-text"@ || id == "zed"@
}

/// Exactly VS Code, Cursor, Sublime Text and Zed carry an editor, so exactly
/// they accept a target.
pub proof fn lemma_jump_editors()
    ensures
        forall|i: int|
            0 <= i < registry().len() ==> ((#[trigger] registry()[i]).editor is Some
                <==> is_jump_editor_id(registry()[i].app_id@)),
{
    lemma_registry_slots();
    let r = registry();
    assert forall|i: int| 0 <= i < r.len() implies ((#[trigger] r[i]).editor is Some
        <==> is_jump_editor_id(r[i].app_id@)) by {
        assert(id_slot(r[i].app_id@) == i);
    }
}

} // verus!
