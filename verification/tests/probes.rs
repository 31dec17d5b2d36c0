use std::path::PathBuf;

use path_opener::{
    choose_cli, config_file_in, default_open_command, encode, git_info_from, known_apps,
    pick_bundle_root, plan_command, preview_command, preview_command_at, program_name, uri_from,
    Canonical, ErrorKind, GitError, Host, Os, PathAnswer, Target, Vault, Version,
};

fn decode(s: &str) -> Vec<u8> {
    let b = s.as_bytes();
    let mut out = Vec::new();
    let mut i = 0;
    while i < b.len() {
        if b[i] == b'%' {
            let hex = std::str::from_utf8(&b[i + 1..i + 3]).expect("ascii");
            out.push(u8::from_str_radix(hex, 16).expect("hex"));
            i += 3;
        } else {
            out.push(b[i]);
            i += 1;
        }
    }
    out
}

#[test]
fn default_open_command_per_platform() {
    for (os, program) in [(Os::MacOS, "open"), (Os::Linux, "xdg-open"), (Os::Windows, "explorer")] {
        let c = default_open_command(Some(os), "/a b").expect("command");
        assert_eq!(c.program, program);
        assert_eq!(c.args, vec!["/a b"]);
    }
    let err = default_open_command(None, "/a").expect_err("unsupported");
    assert_eq!(err.kind(), ErrorKind::Unsupported);
    assert_eq!(err.message(), "unsupported platform");
}

#[test]
fn lookup_asks_for_the_first_word() {
    assert_eq!(program_name("open -a Terminal"), "open");
    assert_eq!(program_name("  code  "), "code");
    assert_eq!(program_name(""), "");
    assert_eq!(program_name("   "), "   ");
}

#[test]
fn bundle_shim_comes_before_path() {
    assert_eq!(choose_cli(Some("/Apps/Zed.app/cli".into()), true, "zed"), Some("/Apps/Zed.app/cli".into()));
    assert_eq!(choose_cli(None, true, "zed"), Some("zed".into()));
    assert_eq!(choose_cli(None, false, "zed"), None);
}

#[test]
fn system_applications_come_before_the_home_folder() {
    let home = || Some(PathAnswer::Text("/Users/u".into()));
    assert_eq!(
        pick_bundle_root("Zed.app", true, home(), true),
        Some(PathAnswer::Text("/Applications/Zed.app".into()))
    );
    assert_eq!(
        pick_bundle_root("Zed.app", false, home(), true),
        Some(PathAnswer::Text("/Users/u/Applications/Zed.app".into()))
    );
    assert_eq!(pick_bundle_root("Zed.app", false, home(), false), None);
    assert_eq!(pick_bundle_root("Zed.app", false, None, true), None);
    assert_eq!(
        pick_bundle_root("Zed.app", false, Some(PathAnswer::Raw(PathBuf::from("/Users/v"))), true),
        Some(PathAnswer::Raw(PathBuf::from("/Users/v/Applications/Zed.app")))
    );
}

#[test]
fn config_file_under_a_directory() {
    assert_eq!(config_file_in("/home/u/.config"), "/home/u/.config/obsidian/obsidian.json");
}

#[test]
fn percent_decoding_gives_the_bytes_back() {
    for s in ["hello world", "a/b.md", "café", "100%", "~x_y-z.", ""] {
        assert_eq!(decode(&encode(s)), s.as_bytes());
    }
    assert_ne!(encode("a b"), encode("a+b"));
}

#[test]
fn unresolved_cli_is_the_plain_open() {
    let vscode = known_apps().into_iter().find(|a| a.app_id == "vscode").expect("built-in");
    let at = plan_command(Some(Os::Linux), Some(vscode), "code", "/f.rs", &Target::at(4, 2), None, Canonical::Unresolved, &[])
        .expect("command");
    let plain = plan_command(Some(Os::Linux), Some(vscode), "code", "/f.rs", &Target::default(), None, Canonical::Unresolved, &[])
        .expect("command");
    assert_eq!(at, plain);
    assert_eq!(at.program, "code");
    assert_eq!(at.args, vec!["/f.rs"]);
}

#[test]
fn target_is_ignored_by_a_terminal() {
    let host = Host { os: Some(Os::Linux), vaults: Vec::new() };
    let at = preview_command_at(&host, "/tmp", "alacritty", &Target::at(3, 1)).expect("command");
    let plain = preview_command(&host, "/tmp", "alacritty").expect("command");
    assert_eq!(at, plain);
}

#[test]
fn resolved_path_inside_a_vault_opens_the_vault_file() {
    let vaults = vec![Vault { id: "abc".into(), name: "Notes".into(), path: "/v/Notes".into() }];
    let uri = uri_from(Canonical::Resolved("/v/Notes/a b.md".into()), "notes/a b.md", &vaults).expect("uri");
    assert_eq!(uri, "obsidian://open?vault=Notes&file=a%20b.md");
    let root = uri_from(Canonical::Resolved("/v/Notes".into()), "x", &vaults).expect("uri");
    assert_eq!(root, "obsidian://open?vault=Notes");
    let outside = uri_from(Canonical::Resolved("/elsewhere/c.md".into()), "c.md", &vaults).expect("uri");
    assert_eq!(outside, "obsidian://open?path=%2Felsewhere%2Fc.md");
}

#[test]
fn git_info_pairs_the_two_answers() {
    let v = || Version { number: "2.43.0".into(), platform: "".into() };
    let info = git_info_from(Ok(PathBuf::from("/usr/bin/git")), Ok(v())).expect("info");
    assert_eq!(info.path, PathBuf::from("/usr/bin/git"));
    assert_eq!(info.version.number, "2.43.0");
    assert!(matches!(git_info_from(Err(GitError::NotAvailable), Ok(v())), Err(GitError::NotAvailable)));
    let failed = git_info_from(
        Ok(PathBuf::from("/usr/bin/git")),
        Err(GitError::Command { command: "--version".into(), stderr: "boom".into() }),
    );
    assert!(matches!(failed, Err(GitError::Command { .. })));
}
