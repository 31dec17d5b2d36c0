use path_opener::{
    build_argv_command, command_for_opener, config_file, detect_installed_apps, known_apps,
    plan_command, preview_command, preview_command_at, uri_launcher, Canonical, ErrorKind,
    FileSupport, Host, Os, PathOpener, Target,
};

fn host(os: Option<Os>) -> Host {
    Host { os, vaults: Vec::new() }
}

fn app(id: &str) -> path_opener::KnownApp {
    known_apps().into_iter().find(|a| a.app_id == id).expect("built-in")
}

#[test]
fn argv_command_rejects_empty_command() {
    let err = build_argv_command("   ", "/tmp").expect_err("empty command");
    assert_eq!(err.kind(), ErrorKind::InvalidInput);
    assert_eq!(err.message(), "empty command string");
}

#[test]
fn argv_command_splits_on_whitespace() {
    let c = build_argv_command("open  -a\tiTerm", "/p q").expect("command");
    assert_eq!(c.program, "open");
    assert_eq!(c.args, vec!["-a", "iTerm", "/p q"]);
}

#[test]
fn editor_jump_uses_the_resolved_cli() {
    let c = plan_command(
        Some(Os::Linux),
        Some(app("vscode")),
        "code",
        "/f.rs",
        &Target::at(3, 9),
        Some("/opt/code/bin/code".to_string()),
        Canonical::Unresolved,
        &[],
    )
    .expect("plan");
    assert_eq!(c.program, "/opt/code/bin/code");
    assert_eq!(c.args, vec!["--goto", "/f.rs:3:9"]);
}

#[test]
fn suffix_editor_jump_without_column() {
    let c = plan_command(
        Some(Os::Windows),
        Some(app("zed")),
        "zed",
        "C:/f.rs",
        &Target::line(120),
        Some("zed".to_string()),
        Canonical::Unresolved,
        &[],
    )
    .expect("plan");
    assert_eq!(c.program, "zed");
    assert_eq!(c.args, vec!["C:/f.rs:120"]);
}

#[test]
fn unresolved_cli_falls_back_to_open_dash_a_on_macos() {
    let c = plan_command(
        Some(Os::MacOS),
        Some(app("sublime-text")),
        "subl",
        "/f.rs",
        &Target::line(1),
        None,
        Canonical::Unresolved,
        &[],
    )
    .expect("plan");
    assert_eq!(c.program, "open");
    assert_eq!(c.args, vec!["-a", "Sublime Text", "/f.rs"]);
}

#[test]
fn obsidian_refuses_a_non_utf8_canonical_path() {
    let err = plan_command(
        Some(Os::Linux),
        Some(app("obsidian")),
        "obsidian",
        "/n.md",
        &Target::default(),
        None,
        Canonical::NotUtf8,
        &[],
    )
    .expect_err("non-utf8");
    assert_eq!(err.kind(), ErrorKind::InvalidInput);
    assert_eq!(err.message(), "non-utf8 path");
}

#[test]
fn obsidian_uses_the_canonical_path() {
    let c = plan_command(
        Some(Os::Linux),
        Some(app("obsidian")),
        "obsidian",
        "n.md",
        &Target::line(4),
        None,
        Canonical::Resolved("/home/me/n.md".to_string()),
        &[],
    )
    .expect("plan");
    assert_eq!(c.program, "xdg-open");
    assert_eq!(c.args, vec!["obsidian://open?path=%2Fhome%2Fme%2Fn.md"]);
}

#[test]
fn uri_launchers_per_platform() {
    let w = uri_launcher(Some(Os::Windows), "obsidian://open?path=x");
    assert_eq!(w.program, "cmd");
    assert_eq!(w.args, vec!["/C", "start", "", "obsidian://open?path=x"]);
    let m = uri_launcher(Some(Os::MacOS), "u");
    assert_eq!((m.program.as_str(), m.args), ("open", vec!["u".to_string()]));
    let none = uri_launcher(None, "u");
    assert_eq!(none.program, "false");
    assert!(none.args.is_empty());
}

#[test]
fn app_without_an_entry_for_the_platform_is_unsupported() {
    let err = preview_command(&host(Some(Os::Linux)), "/x", "finder").expect_err("finder is macOS only");
    assert_eq!(err.kind(), ErrorKind::Unsupported);
    assert_eq!(err.message(), "app_id \"finder\" has no entry for this platform");
}

#[test]
fn unsupported_platform_and_unknown_id_messages() {
    let err = preview_command(&host(None), "/x", "vscode").expect_err("no platform");
    assert_eq!(err.kind(), ErrorKind::Unsupported);
    assert_eq!(err.message(), "unsupported platform");
    let err = preview_command_at(&host(None), "/x", "nope", &Target::line(1)).expect_err("unknown id first");
    assert_eq!(err.kind(), ErrorKind::NotFound);
    assert_eq!(err.message(), "unknown app_id: nope");
}

#[test]
fn no_platform_detects_nothing() {
    assert!(detect_installed_apps(None).is_empty());
}

#[test]
fn obsidian_is_reported_unavailable_off_macos() {
    for os in [Os::Linux, Os::Windows] {
        let apps = detect_installed_apps(Some(os));
        let obsidian = apps.iter().find(|a| a.app_id == "obsidian").expect("listed");
        assert!(!obsidian.is_available);
        assert_eq!(
            obsidian.file_support,
            FileSupport::Extensions(vec!["md".into(), "markdown".into(), "canvas".into()])
        );
    }
}

#[test]
fn detection_reports_registry_order_for_the_platform() {
    let ids: Vec<String> = detect_installed_apps(Some(Os::Windows)).into_iter().map(|a| a.app_id).collect();
    assert_eq!(
        ids,
        vec![
            "explorer", "alacritty", "windows-terminal", "powershell", "vscode", "cursor", "sublime-text",
            "zed", "neovim", "webstorm", "intellij", "obsidian"
        ]
    );
    let explorer = detect_installed_apps(Some(Os::Windows)).into_iter().next().expect("explorer");
    assert!(explorer.is_available);
    assert_eq!(explorer.command, "explorer");
}

#[test]
fn custom_opener_launches_argv_style() {
    let opener = PathOpener {
        app_id: "my-tool".into(),
        name: "My Tool".into(),
        command: "my-tool --new-window".into(),
        is_available: true,
        accepts_directories: true,
        file_support: FileSupport::Any,
        accepts_target: false,
        is_default: false,
        is_hidden: false,
        sort_order: None,
    };
    let c = command_for_opener(&host(Some(Os::MacOS)), &opener, "/p").expect("command");
    assert_eq!(c.program, "my-tool");
    assert_eq!(c.args, vec!["--new-window", "/p"]);
}

#[test]
fn config_file_is_under_the_obsidian_directory() {
    if let Some(path_opener::PathAnswer::Text(f)) = config_file() {
        assert!(f.ends_with("obsidian/obsidian.json"), "got: {f}");
    }
}

#[test]
fn bundle_names_drop_the_app_suffix() {
    assert_eq!(path_opener::bundle_app_name("Visual Studio Code.app"), "Visual Studio Code");
    assert_eq!(path_opener::bundle_app_name("cli"), "cli");
}
