use path_opener::{build_uri, uri_for, vaults_from_config, Vault};

fn vault(id: &str, name: &str, path: &str) -> Vault {
    Vault { id: id.into(), name: name.into(), path: path.into() }
}

// These paths do not exist, so canonicalization leaves them as they are.

#[test]
fn uri_for_vault_root_uses_vault_query_only() {
    let vaults = vec![vault("v1", "MyVault", "/path-opener-test/vault-root/MyVault")];
    let uri = build_uri("/path-opener-test/vault-root/MyVault", &vaults).expect("build_uri");
    assert_eq!(uri, "obsidian://open?vault=MyVault");
}

#[test]
fn uri_for_file_inside_vault_uses_vault_and_file() {
    let vaults = vec![vault("v1", "Notes", "/path-opener-test/vault-file/Notes")];
    let uri = build_uri("/path-opener-test/vault-file/Notes/sub/note.md", &vaults).expect("build_uri");
    assert_eq!(uri, "obsidian://open?vault=Notes&file=sub%2Fnote.md");
}

#[test]
fn uri_for_path_outside_any_vault_falls_through_to_path_query() {
    let vaults = vec![vault("v1", "Registered", "/path-opener-test/outside/Registered")];
    let uri = build_uri("/path-opener-test/outside/Outside", &vaults).expect("build_uri");
    assert!(uri.starts_with("obsidian://open?path="), "got: {uri}");
    assert!(uri.contains("Outside"), "should contain the path: {uri}");
}

#[test]
fn uri_with_no_known_vaults_falls_through_to_path_query() {
    let vaults: Vec<Vault> = vec![];
    let uri = build_uri("/path-opener-test/no-vaults/Anywhere", &vaults).expect("build_uri");
    assert!(uri.starts_with("obsidian://open?path="), "got: {uri}");
}

#[test]
fn build_command_does_not_panic_on_missing_path() {
    let uri = build_uri("/definitely/does/not/exist", &[]).expect("build_uri");
    assert!(uri.starts_with("obsidian://open?path="));
}

#[test]
fn uri_for_is_exact_on_plain_strings() {
    let vaults = vec![vault("v1", "My Vault", "/v/My Vault")];
    assert_eq!(uri_for("/v/My Vault", &vaults), "obsidian://open?vault=My%20Vault");
    assert_eq!(uri_for("/v/My Vault/a b.md", &vaults), "obsidian://open?vault=My%20Vault&file=a%20b.md");
    assert_eq!(uri_for("/w/x", &vaults), "obsidian://open?path=%2Fw%2Fx");
}

#[test]
fn vault_root_wins_over_containing_vault() {
    let vaults = vec![vault("a", "Outer", "/v"), vault("b", "Inner", "/v/inner")];
    assert_eq!(uri_for("/v/inner", &vaults), "obsidian://open?vault=Inner");
    assert_eq!(uri_for("/v/inner/n.md", &vaults), "obsidian://open?vault=Outer&file=inner%2Fn.md");
}

#[test]
fn prefix_matching_is_by_component() {
    let vaults = vec![vault("a", "Notes", "/v/Notes")];
    assert_eq!(uri_for("/v/Notes2/x.md", &vaults), "obsidian://open?path=%2Fv%2FNotes2%2Fx.md");
}

#[test]
fn vaults_are_named_by_their_last_component() {
    let vaults = vaults_from_config(vec![
        ("id1".to_string(), "/home/me/notes".to_string()),
        ("id2".to_string(), "/".to_string()),
    ]);
    assert_eq!(vaults.len(), 1);
    assert_eq!(vaults[0].id, "id1");
    assert_eq!(vaults[0].name, "notes");
    assert_eq!(vaults[0].path, "/home/me/notes");
}
