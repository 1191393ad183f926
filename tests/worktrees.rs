use grovr::branches::{
    delete_branch, delete_branch_command, get_branches, get_current_branch, get_github_remote_info,
    git_fetch, pull_command, rename_branch, rename_branch_command, BranchEntry, DefaultBranch,
};
use grovr::command::{CommandOutput, GitCommand, GitError, RunOutcome, Step};
use grovr::worktrees::{
    add_existing_branch_command, create_worktree_existing_branch, get_worktree_status, get_worktrees,
    prune_worktrees, status_command, worktree_list_command, CreateWorktree, RemoveWorktree,
};

fn ok(stdout: &str) -> RunOutcome {
    RunOutcome::Finished(CommandOutput {
        success: true,
        stdout: stdout.to_string(),
        stderr: String::new(),
    })
}

fn failed(stderr: &str) -> RunOutcome {
    RunOutcome::Finished(CommandOutput {
        success: false,
        stdout: String::new(),
        stderr: stderr.to_string(),
    })
}

fn args(c: &GitCommand) -> Vec<&str> {
    c.args.iter().map(|a| a.as_str()).collect()
}

const INITIAL: &str = "worktree /tmp/t/repo\nHEAD 1111111111111111111111111111111111111111\nbranch refs/heads/main\n\n";

fn with_block(path: &str, branch: &str) -> String {
    format!(
        "{}worktree {}\nHEAD 1111111111111111111111111111111111111111\nbranch refs/heads/{}\n\n",
        INITIAL, path, branch
    )
}

#[test]
fn test_get_worktrees_initial() {
    let cmd = worktree_list_command("/tmp/t/repo");
    assert_eq!(args(&cmd), vec!["worktree", "list", "--porcelain"]);
    assert_eq!(cmd.dir, "/tmp/t/repo");
    let worktrees = get_worktrees(&ok(INITIAL)).expect("Failed to get worktrees");
    assert_eq!(worktrees.len(), 1);
    assert!(worktrees[0].is_main);
}

#[test]
fn test_create_and_get_worktree() {
    let mut op = CreateWorktree::new(
        "/tmp/t/repo".to_string(),
        "/tmp/t/worktrees/feature-test".to_string(),
        "feature-test".to_string(),
        "main".to_string(),
    );
    let first = op.start();
    assert_eq!(
        args(&first),
        vec!["worktree", "add", "-b", "feature-test", "/tmp/t/worktrees/feature-test", "main"]
    );
    let second = match op.step(&ok("")) {
        Step::Run(c) => c,
        Step::Finish(_) => panic!("the upstream is unset next"),
    };
    assert_eq!(args(&second), vec!["branch", "--unset-upstream", "feature-test"]);
    assert_eq!(second.dir, "/tmp/t/worktrees/feature-test");
    assert!(matches!(op.step(&ok("")), Step::Finish(Ok(true))));

    let listing = with_block("/tmp/t/worktrees/feature-test", "feature-test");
    let worktrees = get_worktrees(&ok(&listing)).expect("Failed to get worktrees");
    assert_eq!(worktrees.len(), 2);
    let feature_wt = worktrees.iter().find(|w| w.branch == "feature-test");
    assert!(feature_wt.is_some());
    assert!(!feature_wt.unwrap().is_main);
}

#[test]
fn create_reports_failed_upstream_unset_without_failing() {
    let mut op = CreateWorktree::new("r".to_string(), "w".to_string(), "b".to_string(), "origin/main".to_string());
    op.start();
    assert!(matches!(op.step(&ok("")), Step::Run(_)));
    assert!(matches!(op.step(&failed("no upstream")), Step::Finish(Ok(false))));
}

#[test]
fn create_stops_when_add_fails() {
    let mut op = CreateWorktree::new("r".to_string(), "w".to_string(), "b".to_string(), "main".to_string());
    match op.step(&failed("fatal: a branch named 'b' already exists")) {
        Step::Finish(Err(GitError::CommandFailed(m))) => {
            assert_eq!(m, "fatal: a branch named 'b' already exists")
        },
        _ => panic!("the creation fails with git's message"),
    }
}

#[test]
fn test_create_worktree_existing_branch() {
    let cmd = add_existing_branch_command("/tmp/t/repo", "/tmp/t/worktrees/existing-branch", "existing-branch");
    assert_eq!(args(&cmd), vec!["worktree", "add", "/tmp/t/worktrees/existing-branch", "existing-branch"]);
    create_worktree_existing_branch(&ok("")).expect("Failed to create worktree from existing branch");
    let listing = with_block("/tmp/t/worktrees/existing-branch", "existing-branch");
    let worktrees = get_worktrees(&ok(&listing)).expect("Failed to get worktrees");
    assert_eq!(worktrees.len(), 2);
    let existing_wt = worktrees.iter().find(|w| w.branch == "existing-branch");
    assert!(existing_wt.is_some());
}

#[test]
fn test_remove_worktree() {
    let mut op = RemoveWorktree::new("/tmp/t/repo".to_string(), "/tmp/t/worktrees/to-delete".to_string(), false, false, None);
    assert_eq!(args(&op.start()), vec!["worktree", "remove", "/tmp/t/worktrees/to-delete"]);
    assert!(matches!(op.step(&ok("")), Step::Finish(Ok(()))));
    let worktrees = get_worktrees(&ok(INITIAL)).expect("Failed to get worktrees");
    assert_eq!(worktrees.len(), 1);
}

#[test]
fn test_remove_worktree_force() {
    let refusal = "fatal: '/tmp/t/worktrees/dirty-wt' contains modified or untracked files, use --force to delete it";
    let mut soft = RemoveWorktree::new("/tmp/t/repo".to_string(), "/tmp/t/worktrees/dirty-wt".to_string(), false, false, None);
    soft.start();
    let result = soft.step(&failed(refusal));
    assert!(matches!(result, Step::Finish(Err(GitError::CommandFailed(_)))));

    let mut forced = RemoveWorktree::new("/tmp/t/repo".to_string(), "/tmp/t/worktrees/dirty-wt".to_string(), true, false, None);
    assert_eq!(args(&forced.start()), vec!["worktree", "remove", "--force", "/tmp/t/worktrees/dirty-wt"]);
    assert!(matches!(forced.step(&ok("")), Step::Finish(Ok(()))));
    let worktrees = get_worktrees(&ok(INITIAL)).expect("Failed to get worktrees");
    assert_eq!(worktrees.len(), 1);
}

#[test]
fn remove_retries_unmerged_branch_with_hard_delete() {
    let mut op = RemoveWorktree::new("r".to_string(), "w".to_string(), false, true, Some("topic".to_string()));
    let soft = match op.step(&ok("")) {
        Step::Run(c) => c,
        Step::Finish(_) => panic!("the branch is deleted next"),
    };
    assert_eq!(args(&soft), vec!["branch", "-d", "topic"]);
    let hard = match op.step(&failed("error: the branch 'topic' is not fully merged.")) {
        Step::Run(c) => c,
        Step::Finish(_) => panic!("the deletion is retried"),
    };
    assert_eq!(args(&hard), vec!["branch", "-D", "topic"]);
    assert!(matches!(op.step(&ok("")), Step::Finish(Ok(()))));
}

#[test]
fn remove_reports_branch_failure_distinctly() {
    let mut op = RemoveWorktree::new("r".to_string(), "w".to_string(), false, true, Some("topic".to_string()));
    op.step(&ok(""));
    match op.step(&failed("error: branch 'topic' not found.")) {
        Step::Finish(Err(e)) => {
            assert!(matches!(e, GitError::BranchDeleteFailed(_)));
            assert_eq!(e.message(), "Worktree removed but failed to delete branch: error: branch 'topic' not found.");
        },
        _ => panic!("the failure is reported"),
    }
}

#[test]
fn forced_remove_deletes_branch_hard_without_retry() {
    let mut op = RemoveWorktree::new("r".to_string(), "w".to_string(), true, true, Some("topic".to_string()));
    let c = match op.step(&ok("")) {
        Step::Run(c) => c,
        Step::Finish(_) => panic!("the branch is deleted next"),
    };
    assert_eq!(args(&c), vec!["branch", "-D", "topic"]);
    assert!(matches!(op.step(&failed("not fully merged")), Step::Finish(Err(GitError::BranchDeleteFailed(_)))));
}

#[test]
fn retry_launch_failure_names_force_delete() {
    let mut op = RemoveWorktree::new("r".to_string(), "w".to_string(), false, true, Some("t".to_string()));
    op.step(&ok(""));
    op.step(&failed("not fully merged"));
    match op.step(&RunOutcome::LaunchFailed("denied".to_string())) {
        Step::Finish(Err(e)) => assert_eq!(e.message(), "Worktree removed but failed to force delete branch: denied"),
        _ => panic!("the failure is reported"),
    }
}

#[test]
fn launch_failure_is_reported() {
    let r = get_worktrees(&RunOutcome::LaunchFailed("No such file or directory".to_string()));
    match r {
        Err(e) => assert_eq!(e.message(), "Failed to run git: No such file or directory"),
        Ok(_) => panic!("a launch failure fails"),
    }
}

#[test]
fn test_get_worktree_status_clean() {
    assert_eq!(status_command("/tmp/t/repo").args, vec!["status", "--porcelain"]);
    let status = get_worktree_status(&ok("")).expect("Failed to get status");
    assert!(!status.has_changes);
    assert_eq!(status.staged, 0);
    assert_eq!(status.unstaged, 0);
    assert_eq!(status.untracked, 0);
}

#[test]
fn test_get_worktree_status_dirty() {
    let status = get_worktree_status(&ok(" M README.md\n?? untracked.txt\n")).expect("Failed to get status");
    assert!(status.has_changes);
    assert_eq!(status.untracked, 1);
    assert_eq!(status.unstaged, 1);
}

#[test]
fn prune_passes_git_error_through() {
    assert!(prune_worktrees(&ok("")).is_ok());
    match prune_worktrees(&failed("boom")) {
        Err(GitError::CommandFailed(m)) => assert_eq!(m, "boom"),
        _ => panic!("git's error is returned"),
    }
}

fn entry(name: &str, is_head: bool) -> BranchEntry {
    BranchEntry { name: Some(name.to_string()), is_head }
}

#[test]
fn test_get_branches() {
    let local = vec![entry("feature-1", false), entry("feature-2", false), entry("main", true)];
    let remote = vec![entry("origin/main", true)];
    let branches = get_branches(&local, &remote, false);
    assert!(branches.len() >= 3);
    assert!(branches.iter().any(|b| b.name == "main" || b.name == "master"));
    assert!(branches.iter().any(|b| b.name == "feature-1"));
    assert!(branches.iter().any(|b| b.name == "feature-2"));
    let all = get_branches(&local, &remote, true);
    assert_eq!(all.len(), 4);
    assert!(all[3].is_remote);
    assert!(!all[3].is_head);
    assert!(all[2].is_head);
}

#[test]
fn branches_without_names_are_skipped() {
    let local = vec![BranchEntry { name: None, is_head: false }, entry("main", true)];
    let branches = get_branches(&local, &vec![], true);
    assert_eq!(branches.len(), 1);
    assert_eq!(branches[0].name, "main");
}

#[test]
fn test_rename_branch() {
    let cmd = rename_branch_command("/tmp/t/repo", "old-name", "new-name");
    assert_eq!(args(&cmd), vec!["branch", "-m", "old-name", "new-name"]);
    rename_branch(&ok("")).expect("Failed to rename branch");
}

#[test]
fn test_delete_branch() {
    let cmd = delete_branch_command("/tmp/t/repo", "to-delete", false);
    assert_eq!(args(&cmd), vec!["branch", "-d", "to-delete"]);
    assert_eq!(args(&delete_branch_command("/tmp/t/repo", "to-delete", true)), vec!["branch", "-D", "to-delete"]);
    delete_branch(&ok("")).expect("Failed to delete branch");
    assert!(delete_branch(&failed("error: not fully merged")).is_err());
}

#[test]
fn current_branch_needs_a_branch_head() {
    assert_eq!(get_current_branch(true, Some("main".to_string())), Ok("main".to_string()));
    assert_eq!(get_current_branch(true, None), Err("Could not get branch name".to_string()));
    assert_eq!(get_current_branch(false, Some("x".to_string())), Err("HEAD is not a branch".to_string()));
}

#[test]
fn default_branch_prefers_symbolic_head() {
    let mut op = DefaultBranch::new("r".to_string());
    assert_eq!(args(&op.start()), vec!["symbolic-ref", "refs/remotes/origin/HEAD", "--short"]);
    match op.step(&ok("origin/develop\n")) {
        Step::Finish(Ok(b)) => assert_eq!(b, "origin/develop"),
        _ => panic!("the symbolic HEAD wins"),
    }
}

#[test]
fn default_branch_falls_back_in_order() {
    let mut op = DefaultBranch::new("r".to_string());
    let main = match op.step(&failed("not a symbolic ref")) {
        Step::Run(c) => c,
        Step::Finish(_) => panic!("origin/main is tried next"),
    };
    assert_eq!(args(&main), vec!["rev-parse", "--verify", "origin/main"]);
    let master = match op.step(&failed("fatal: Needed a single revision")) {
        Step::Run(c) => c,
        Step::Finish(_) => panic!("origin/master is tried next"),
    };
    assert_eq!(args(&master), vec!["rev-parse", "--verify", "origin/master"]);
    match op.step(&ok("abc\n")) {
        Step::Finish(Ok(b)) => assert_eq!(b, "origin/master"),
        _ => panic!("origin/master is found"),
    }
}

#[test]
fn default_branch_main_is_second() {
    let mut op = DefaultBranch::new("r".to_string());
    op.step(&failed(""));
    match op.step(&ok("abc\n")) {
        Step::Finish(Ok(b)) => assert_eq!(b, "origin/main"),
        _ => panic!("origin/main is found"),
    }
}

#[test]
fn default_branch_fails_distinctly() {
    let mut op = DefaultBranch::new("r".to_string());
    op.step(&failed(""));
    op.step(&failed(""));
    match op.step(&failed("")) {
        Step::Finish(Err(e)) => {
            assert!(matches!(e, GitError::NoDefaultBranch));
            assert_eq!(e.message(), "Could not determine default branch");
        },
        _ => panic!("no default branch"),
    }
}

#[test]
fn remote_info_reads_trimmed_url() {
    let info = get_github_remote_info(&ok("git@github.com:acme/widgets.git\n")).unwrap().unwrap();
    assert_eq!(info.owner, "acme");
    assert_eq!(info.repo, "widgets");
    assert!(get_github_remote_info(&failed("error: No such remote 'origin'")).unwrap().is_none());
    assert!(get_github_remote_info(&RunOutcome::LaunchFailed("x".to_string())).is_err());
}

#[test]
fn fetch_and_pull_commands() {
    assert_eq!(grovr::branches::fetch_command("r").args, vec!["fetch", "--all", "--prune"]);
    assert_eq!(args(&pull_command("w")), vec!["pull"]);
    assert!(git_fetch(&ok("")).is_ok());
}
