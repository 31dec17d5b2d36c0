use path_opener::{
    detect_installed_apps, encode, known_apps, preview_command, preview_command_at, CommandPreview,
    Editor, ErrorKind, FileSupport, GotoStyle, Host, Os, Target,
};

fn linux() -> Host {
    Host { os: Some(Os::Linux), vaults: Vec::new() }
}

fn macos() -> Host {
    Host { os: Some(Os::MacOS), vaults: Vec::new() }
}

#[test]
fn detect_returns_non_empty_list() {
    let apps = detect_installed_apps(Some(Os::Linux));
    assert!(!apps.is_empty(), "should detect at least one app");
}

#[test]
fn all_openers_have_defaults() {
    let apps = detect_installed_apps(Some(Os::Linux));
    for app in &apps {
        assert!(!app.is_default);
        assert!(!app.is_hidden);
        assert!(app.sort_order.is_none());
    }
}

#[test]
fn known_apps_have_unique_ids() {
    let known = known_apps();
    let mut ids: Vec<&str> = known.iter().map(|a| a.app_id).collect();
    ids.sort();
    ids.dedup();
    assert_eq!(ids.len(), known.len(), "app_ids must be unique");
}

// Every built-in declares the expected (accepts_directories, file_support)
// shape for its category.
#[test]
fn every_known_app_declares_expected_metadata() {
    for app in known_apps() {
        let (expected_accepts_dirs, expected_file_support): (bool, FileSupport) = match app.app_id {
            "finder" | "file-manager" | "explorer" => (true, FileSupport::Any),
            "terminal" | "iterm" | "gnome-terminal" | "konsole" | "alacritty" | "kitty" | "windows-terminal"
            | "powershell" | "cmux" => (true, FileSupport::NotSupported),
            "vscode" | "cursor" | "sublime-text" | "zed" | "neovim" | "webstorm" | "intellij" => {
                (true, FileSupport::Any)
            }
            "obsidian" => (true, FileSupport::Extensions(vec!["md".into(), "markdown".into(), "canvas".into()])),
            other => panic!("unknown built-in {other:?} in audit table — please update the test"),
        };

        assert_eq!(app.accepts_directories, expected_accepts_dirs, "{}: accepts_directories mismatch", app.app_id,);
        assert_eq!(app.file_support.to_owned(), expected_file_support, "{}: file_support mismatch", app.app_id,);
    }
}

// Exactly the four GUI editors carry an `Editor`, each with the expected goto
// style.
#[test]
fn every_known_app_declares_expected_editor() {
    for app in known_apps() {
        let expected_goto: Option<GotoStyle> = match app.app_id {
            "vscode" | "cursor" => Some(GotoStyle::Goto),
            "sublime-text" | "zed" => Some(GotoStyle::Suffix),
            _ => None,
        };
        assert_eq!(app.editor.map(|e| e.goto), expected_goto, "{}: editor goto style mismatch", app.app_id);
        if let Some(editor) = app.editor {
            let mac = app.platforms.iter().find(|p| p.os == Os::MacOS);
            if let Some(entry) = mac {
                assert_eq!(editor.cli, entry.command, "{}: editor cli should match macOS command", app.app_id);
            }
        }
    }
}

#[test]
fn detected_openers_carry_metadata() {
    let known_list = known_apps();
    let apps = detect_installed_apps(Some(Os::Linux));
    for app in &apps {
        let known = known_list.iter().find(|k| k.app_id == app.app_id).expect("registered");
        assert_eq!(app.accepts_directories, known.accepts_directories);
        assert_eq!(app.file_support, known.file_support.to_owned());
        assert_eq!(app.accepts_target, known.editor.is_some(), "{}: accepts_target mismatch", app.app_id);
    }
}

#[test]
fn accepts_target_is_set_only_for_editors() {
    let apps = detect_installed_apps(Some(Os::Linux));
    for app in &apps {
        let expected = matches!(app.app_id.as_str(), "vscode" | "cursor" | "sublime-text" | "zed");
        assert_eq!(app.accepts_target, expected, "{}: accepts_target", app.app_id);
    }
}

#[test]
fn file_support_accepts_extension_is_case_insensitive() {
    let fs = FileSupport::Extensions(vec!["md".into(), "canvas".into()]);
    assert!(fs.accepts_extension("md"));
    assert!(fs.accepts_extension("MD"));
    assert!(fs.accepts_extension("Md"));
    assert!(fs.accepts_extension("canvas"));
    assert!(!fs.accepts_extension("txt"));
    assert!(FileSupport::Any.accepts_extension("anything"));
    assert!(!FileSupport::NotSupported.accepts_extension("md"));
}

#[test]
fn preview_command_for_argv_app_returns_program_and_path() {
    // `neovim` launches argv-style on every platform, with no editor jump.
    let preview = preview_command(&linux(), "/tmp/path-opener-preview-argv", "neovim").expect("preview_command for neovim");
    assert_eq!(preview.program, "nvim", "argv launches use the registered command as program");
    assert_eq!(preview.args.last().map(String::as_str), Some("/tmp/path-opener-preview-argv"));
}

#[test]
fn preview_command_for_obsidian_returns_uri() {
    let preview = preview_command(&macos(), "/tmp/path-opener-preview-obsidian-missing", "obsidian")
        .expect("preview_command for obsidian");
    assert_eq!(preview.program, "open", "macOS Obsidian launches via `open <uri>`");
    let last = preview.args.last().expect("at least one arg");
    assert!(last.starts_with("obsidian://open?"), "last arg should be obsidian URI, got: {last}");
}

#[test]
fn preview_command_for_unknown_app_id_returns_not_found() {
    let err = preview_command(&linux(), "/tmp/anything", "definitely-not-a-real-app-id")
        .expect_err("unknown app_id must error");
    assert_eq!(err.kind(), ErrorKind::NotFound);
}

#[test]
fn preview_command_for_mac_gui_editor_uses_open_dash_a() {
    // On macOS a plain open of a bundle editor launches via `open -a "<name>"`.
    let preview = preview_command(&macos(), "/tmp/proj", "vscode").expect("preview");
    assert_eq!(preview.program, "open");
    assert_eq!(preview.args, vec!["-a".to_string(), "Visual Studio Code".to_string(), "/tmp/proj".to_string()]);
}

#[test]
fn preview_command_for_gui_editor_uses_cli_off_macos() {
    // Off macOS there's no bundle; the editor launches via its PATH command.
    let preview = preview_command(&linux(), "/tmp/proj", "vscode").expect("preview");
    assert_eq!(preview.program, "code");
    assert_eq!(preview.args, vec!["/tmp/proj".to_string()]);
}

#[test]
fn target_constructors_populate_markers() {
    assert_eq!(Target::line(42), Target { line: Some(42), column: None });
    assert_eq!(Target::at(42, 8), Target { line: Some(42), column: Some(8) });
    assert!(Target::default().is_empty());
    assert!(!Target::line(1).is_empty());
}

#[test]
fn goto_args_goto_style_uses_flag() {
    let editor = Editor { cli: "code", mac_cli_in_bundle: "x", goto: GotoStyle::Goto };
    assert_eq!(
        editor.goto_args("/src/main.rs", &Target::line(42)),
        vec![String::from("--goto"), String::from("/src/main.rs:42")]
    );
    assert_eq!(
        editor.goto_args("/src/main.rs", &Target::at(42, 8)),
        vec![String::from("--goto"), String::from("/src/main.rs:42:8")]
    );
}

#[test]
fn goto_args_suffix_style_appends_target() {
    let editor = Editor { cli: "subl", mac_cli_in_bundle: "x", goto: GotoStyle::Suffix };
    assert_eq!(editor.goto_args("/src/main.rs", &Target::line(7)), vec![String::from("/src/main.rs:7")]);
    assert_eq!(editor.goto_args("/src/main.rs", &Target::at(7, 3)), vec![String::from("/src/main.rs:7:3")]);
}

#[test]
fn open_at_ignores_target_for_non_editor() {
    // A non-editor drops the target and opens the path normally.
    let with_target = preview_command_at(&linux(), "/tmp/f.rs", "neovim", &Target::at(10, 2)).expect("preview");
    let plain = preview_command(&linux(), "/tmp/f.rs", "neovim").expect("preview");
    assert_eq!(with_target, plain);
}

#[test]
fn open_at_ignores_empty_target() {
    // An empty target behaves exactly like a plain open, even for an editor.
    let empty = preview_command_at(&linux(), "/tmp/proj", "vscode", &Target::default()).expect("preview");
    let plain = preview_command(&linux(), "/tmp/proj", "vscode").expect("preview");
    assert_eq!(empty, plain);
}

#[test]
fn preview_command_at_for_unknown_app_id_returns_not_found() {
    let err = preview_command_at(&linux(), "/tmp/x", "nope", &Target::line(3)).expect_err("must error");
    assert_eq!(err.kind(), ErrorKind::NotFound);
}

#[test]
fn encode_keeps_unreserved() {
    assert_eq!(encode("hello"), "hello");
    assert_eq!(encode("a-b_c.d~e"), "a-b_c.d~e");
}

#[test]
fn encode_percent_escapes_others() {
    assert_eq!(encode("hello world"), "hello%20world");
    assert_eq!(encode("a/b.md"), "a%2Fb.md");
    assert_eq!(encode("café"), "caf%C3%A9");
}

#[test]
fn command_preview_is_comparable() {
    let a = CommandPreview { program: "nvim".into(), args: vec!["/x".into()] };
    assert_eq!(a.clone(), a);
}
