use gh_ac::Git;

fn texts(v: &[&str]) -> Vec<String> {
    v.iter().map(|s| s.to_string()).collect()
}

#[test]
fn push_arguments() {
    assert_eq!(Git::new(false).push_args(false), texts(&["push"]));
    assert_eq!(Git::new(false).push_args(true), texts(&["push", "--force"]));
    assert_eq!(Git::new(true).push_args(true), texts(&["push", "--force", "-q"]));
}

#[test]
fn other_git_arguments() {
    let g = Git::new(false);
    assert_eq!(g.staged_files_args(), texts(&["diff", "--staged", "--name-only"]));
    assert_eq!(g.commit_amend_no_edit_args(), texts(&["commit", "--amend", "--no-edit"]));
    let q = Git::new(true);
    assert_eq!(q.construct_command(&texts(&["status"])), texts(&["status", "-q"]));
}

#[test]
fn staged_files_from_listing() {
    assert!(!Git::check_staged_files(&String::new()));
    assert!(Git::check_staged_files(&"src/lib.rs\n".to_string()));
}

#[test]
fn current_branch_query() {
    assert_eq!(Git::new(false).current_branch_args(), texts(&["branch", "--show-current"]));
    assert_eq!(Git::branch_name(&"feature/x\n".to_string()), "feature/x");
}
