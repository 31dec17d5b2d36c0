//! Detects installed apps (editors, terminals, file managers, Markdown
//! apps) and plans the commands that open paths with them, with a few git
//! helpers alongside.
//!
//! The logic is here and proved against its contracts. The probes of the
//! machine it makes (`PATH` lookups, whether a file exists, the home and
//! config directories, canonical paths) go through the trusted items of
//! [`host`], whose answers the contracts record without promising them.
//! The platform and Obsidian's vaults are handed in by the caller, who also
//! reads files and spawns the planned processes.

pub mod builder;
pub mod command;
pub mod detect;
pub mod error;
pub mod host;
pub mod info;
pub mod obsidian;
pub mod opener;
pub mod registry;
pub mod text;

pub use builder::repo::worktree::{Add, GitCommand, Remove, WorktreeBuilder};
pub use builder::repo::{repo, Repo};
pub use builder::version::{parse_git_version, version_from, Version};
pub use command::{
    build_argv_command, build_command, choose_cli, command_for_opener, default_open_command,
    is_command_available, pick_bundle_root, plan_command, preview_command, preview_command_at,
    program_name, Host,
};
pub use detect::detect_installed_apps;
pub use error::GitError;
pub use host::{Canonical, PathAnswer};
pub use info::{available, git_info_from, path, GitInfo};
pub use obsidian::{
    build_uri, config_file, config_file_in, uri_for, uri_from, uri_launcher, vaults_from_config, Vault,
};
pub use opener::{CommandPreview, ErrorKind, FileSupport, OpenError, PathOpener, Target};
pub use registry::{
    bundle_app_name, known_apps, Detection, Editor, FileSupportSpec, GotoStyle, KnownApp, Launch,
    Os, PlatformEntry,
};
pub use text::encode;
