use path_opener::{parse_git_version, repo, version_from, GitError};

#[test]
fn test_add_new_branch_compiles() {
    let mut add = repo("/repo").worktree().add("/tmp/my-worktree");
    add.new_branch("my-feature").no_checkout();
}

#[test]
fn test_add_existing_branch_compiles() {
    let mut add = repo("/repo").worktree().add("/tmp/my-worktree");
    add.branch("existing-feature");
}

#[test]
fn test_remove_compiles() {
    let mut rm = repo("/repo").worktree().remove("/tmp/my-worktree");
    rm.force();
}

#[test]
fn add_new_branch_goes_before_the_path() {
    let mut add = repo("/repo").worktree().add("/tmp/my-worktree");
    add.new_branch("my-feature").no_checkout();
    let cmd = add.command();
    assert_eq!(cmd.dir, "/repo");
    assert_eq!(cmd.args, vec!["worktree", "add", "--no-checkout", "-b", "my-feature", "/tmp/my-worktree"]);
}

#[test]
fn add_existing_branch_goes_after_the_path() {
    let mut add = repo("/repo").worktree().add("/tmp/wt");
    add.force().detach().branch("main");
    assert_eq!(add.command().args, vec!["worktree", "add", "--force", "--detach", "/tmp/wt", "main"]);
}

#[test]
fn remove_with_force() {
    let mut rm = repo("/repo").worktree().remove("/tmp/my-worktree");
    assert_eq!(rm.command().args, vec!["worktree", "remove", "/tmp/my-worktree"]);
    rm.force();
    assert_eq!(rm.command().args, vec!["worktree", "remove", "--force", "/tmp/my-worktree"]);
}

#[test]
fn parses_version_with_platform() {
    let v = parse_git_version("git version 2.50.1 (Apple Git-155)\n".to_string());
    assert_eq!(v.number, "2.50.1");
    assert_eq!(v.platform, "(Apple Git-155)");
}

#[test]
fn parses_version_without_platform() {
    let v = parse_git_version("  git version 2.43.0  ".to_string());
    assert_eq!(v.number, "2.43.0");
    assert_eq!(v.platform, "unknown");
}

#[test]
fn exec_failure_means_git_is_not_available() {
    let err = std::io::Error::new(std::io::ErrorKind::NotFound, "no git");
    assert!(matches!(version_from(Err(GitError::Exec(err))), Err(GitError::NotAvailable)));
    let failed = GitError::Command { command: "git --version".into(), stderr: "boom".into() };
    assert!(matches!(version_from(Err(failed)), Err(GitError::Command { .. })));
    let ok = version_from(Ok("git version 2.1.0 x".to_string())).ok().expect("parsed");
    assert_eq!(ok.number, "2.1.0");
    assert_eq!(ok.platform, "x");
}
