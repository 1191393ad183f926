//! Worktree operations: listing, status, creation, removal and pruning.
//! Each operation names the commands it needs; the caller runs them and hands
//! back what each run produced.
use vstd::prelude::*;

use crate::command::{
    check_run, git_command, run_error, CommandSpec, ErrorSpec, GitCommand, GitError,
    RunOutcome, Step, StepSpec,
};
use crate::text::{
    find, lemma_lines_concat, lemma_one_line, lines_of, no_breaks, seq_contains, seq_starts_with,
};
use crate::command::CommandOutput;
use crate::porcelain::{
    flushed, lemma_fold_shape, listing_fold, listing_step, listing_records, parse_status, parse_worktree_list,
    status_summary, block_count,
};
use crate::records::WorktreeView;
use crate::records::{Worktree, WorktreeStatus};

verus! {

/// `git worktree list --porcelain`, run in the repository.
pub fn worktree_list_command(repo_path: &str) -> (r: GitCommand)
    ensures
        r@ == (CommandSpec {
            dir: repo_path@,
            args: seq!["worktree"@, "list"@, "--porcelain"@],
        }),
{
    let r = git_command(repo_path, &["worktree", "list", "--porcelain"]);
    assert(r@.args =~= seq!["worktree"@, "list"@, "--porcelain"@]);
    r
}

/// The worktrees that a run of the listing command reports.
pub fn get_worktrees(out: &RunOutcome) -> (r: Result<Vec<Worktree>, GitError>)
    ensures
        match run_error(*out) {
            Some(e) => r matches Err(x) && x@ == e,
            None => out matches RunOutcome::Finished(o) && r matches Ok(v) && v.deep_view()
                == listing_records(o.stdout@),
        },
{
    let o = check_run(out)?;
    Ok(parse_worktree_list(o.stdout.as_str()))
}

/// `git status --porcelain`, run in the worktree.
pub fn status_command(worktree_path: &str) -> (r: GitCommand)
    ensures
        r@ == (CommandSpec { dir: worktree_path@, args: seq!["status"@, "--porcelain"@] }),
{
    let r = git_command(worktree_path, &["status", "--porcelain"]);
    assert(r@.args =~= seq!["status"@, "--porcelain"@]);
    r
}

/// The change counts that a run of the status command reports.
pub fn get_worktree_status(out: &RunOutcome) -> (r: Result<WorktreeStatus, GitError>)
    requires
        out matches RunOutcome::Finished(o) ==> o.stdout@.len() < i32::MAX,
    ensures
        match run_error(*out) {
            Some(e) => r matches Err(x) && x@ == e,
            None => out matches RunOutcome::Finished(o) && r == Ok::<WorktreeStatus, GitError>(
                status_summary(o.stdout@),
            ),
        },
        r matches Ok(st) ==> st.wf(),
{
    let o = check_run(out)?;
    Ok(parse_status(o.stdout.as_str()))
}

/// `git worktree prune`, run in the repository.
pub fn prune_command(repo_path: &str) -> (r: GitCommand)
    ensures
        r@ == (CommandSpec { dir: repo_path@, args: seq!["worktree"@, "prune"@] }),
{
    let r = git_command(repo_path, &["worktree", "prune"]);
    assert(r@.args =~= seq!["worktree"@, "prune"@]);
    r
}

/// The result of a run of a command whose output is not needed: success, or
/// the error that the run reports.
pub fn expect_success(out: &RunOutcome) -> (r: Result<(), GitError>)
    ensures
        match run_error(*out) {
            Some(e) => r matches Err(x) && x@ == e,
            None => r is Ok,
        },
{
    check_run(out)?;
    Ok(())
}

/// The result of a run of the prune command.
pub fn prune_worktrees(out: &RunOutcome) -> (r: Result<(), GitError>)
    ensures
        match run_error(*out) {
            Some(e) => r matches Err(x) && x@ == e,
            None => r is Ok,
        },
{
    expect_success(out)
}

/// `git worktree add <path> <branch>`, run in the repository: a worktree for a
/// branch that already exists.
pub fn add_existing_branch_command(repo_path: &str, worktree_path: &str, branch_name: &str) -> (r:
    GitCommand)
    ensures
        r@ == (CommandSpec {
            dir: repo_path@,
            args: seq!["worktree"@, "add"@, worktree_path@, branch_name@],
        }),
{
    let r = git_command(repo_path, &["worktree", "add", worktree_path, branch_name]);
    assert(r@.args =~= seq!["worktree"@, "add"@, worktree_path@, branch_name@]);
    r
}

/// The result of a run of the command that adds a worktree for an existing branch.
pub fn create_worktree_existing_branch(out: &RunOutcome) -> (r: Result<(), GitError>)
    ensures
        match run_error(*out) {
            Some(e) => r matches Err(x) && x@ == e,
            None => r is Ok,
        },
{
    expect_success(out)
}

/// Where the creation of a worktree on a new branch stands.
#[derive(Debug, Clone, Copy, PartialEq, Eq, Structural)]
pub enum CreateStage {
    /// `git worktree add -b` is running.
    Adding,
    /// The worktree exists; the upstream that git configured is being unset.
    UnsettingUpstream,
    Done,
}

/// The creation of a worktree on a new branch that starts at `base_branch`.
///
/// When the base is a remote branch, git makes it the new branch's upstream,
/// so that pushes would go to the base. A second command unsets it; its
/// failure is reported in the result but does not fail the operation.
#[derive(Debug, Clone)]
pub struct CreateWorktree {
    pub repo_path: String,
    pub worktree_path: String,
    pub branch_name: String,
    pub base_branch: String,
    pub stage: CreateStage,
}

pub open spec fn add_new_branch_spec(op: CreateWorktree) -> CommandSpec {
    CommandSpec {
        dir: op.repo_path@,
        args: seq![
            "worktree"@,
            "add"@,
            "-b"@,
            op.branch_name@,
            op.worktree_path@,
            op.base_branch@,
        ],
    }
}

pub open spec fn unset_upstream_spec(op: CreateWorktree) -> CommandSpec {
    CommandSpec {
        dir: op.worktree_path@,
        args: seq!["branch"@, "--unset-upstream"@, op.branch_name@],
    }
}

/// The next stage and step of a creation, after a run of its current command.
/// A finished creation reports whether the upstream was unset.
pub open spec fn create_next(op: CreateWorktree, out: RunOutcome) -> (CreateStage, StepSpec<bool>) {
    match op.stage {
        CreateStage::Adding => match run_error(out) {
            Some(e) => (CreateStage::Done, StepSpec::Finish(Err(e))),
            None => (CreateStage::UnsettingUpstream, StepSpec::Run(unset_upstream_spec(op))),
        },
        _ => (CreateStage::Done, StepSpec::Finish(Ok(run_error(out) is None))),
    }
}

impl CreateWorktree {
    pub fn new(repo_path: String, worktree_path: String, branch_name: String, base_branch: String) -> (r:
        Self)
        ensures
            r == (CreateWorktree {
                repo_path,
                worktree_path,
                branch_name,
                base_branch,
                stage: CreateStage::Adding,
            }),
    {
        CreateWorktree { repo_path, worktree_path, branch_name, base_branch, stage: CreateStage::Adding }
    }

    /// The first command: `git worktree add -b <branch> <path> <base>`, run in the repository.
    pub fn start(&self) -> (r: GitCommand)
        ensures
            r@ == add_new_branch_spec(*self),
    {
        let r = git_command(
            self.repo_path.as_str(),
            &[
                "worktree",
                "add",
                "-b",
                self.branch_name.as_str(),
                self.worktree_path.as_str(),
                self.base_branch.as_str(),
            ],
        );
        assert(r@.args =~= add_new_branch_spec(*self).args);
        r
    }

    /// Takes what the current command produced and says what comes next.
    pub fn step(&mut self, out: &RunOutcome) -> (r: Step<bool>)
        requires
            old(self).stage != CreateStage::Done,
        ensures
            (final(self).stage, r@) == create_next(*old(self), *out),
            *final(self) == (CreateWorktree { stage: final(self).stage, ..*old(self) }),
    {
        match self.stage {
            CreateStage::Adding => match check_run(out) {
                Err(e) => {
                    self.stage = CreateStage::Done;
                    Step::Finish(Err(e))
                },
                Ok(_) => {
                    let c = git_command(
                        self.worktree_path.as_str(),
                        &["branch", "--unset-upstream", self.branch_name.as_str()],
                    );
                    assert(c@.args =~= unset_upstream_spec(*self).args);
                    self.stage = CreateStage::UnsettingUpstream;
                    Step::Run(c)
                },
            },
            _ => {
                let unset = check_run(out).is_ok();
                self.stage = CreateStage::Done;
                Step::Finish(Ok(unset))
            },
        }
    }
}

/// Where the removal of a worktree stands.
#[derive(Debug, Clone, Copy, PartialEq, Eq, Structural)]
pub enum RemoveStage {
    /// `git worktree remove` is running.
    Removing,
    /// The worktree is gone; its branch is being deleted.
    DeletingBranch,
    /// The branch was not fully merged; it is being deleted with `-D`.
    ForceDeletingBranch,
    Done,
}

/// The removal of a worktree, and then, if asked, of its branch.
///
/// Without `force` the branch is first deleted with `-d`; if git refuses
/// because the branch is not fully merged, it is deleted once more with `-D`.
/// Any failure after the worktree is gone is a `BranchDeleteFailed`.
#[derive(Debug, Clone)]
pub struct RemoveWorktree {
    pub repo_path: String,
    pub worktree_path: String,
    pub force: bool,
    pub delete_branch: bool,
    pub branch_name: Option<String>,
    pub stage: RemoveStage,
}

pub open spec fn remove_spec(op: RemoveWorktree) -> CommandSpec {
    CommandSpec {
        dir: op.repo_path@,
        args: if op.force {
            seq!["worktree"@, "remove"@, "--force"@, op.worktree_path@]
        } else {
            seq!["worktree"@, "remove"@, op.worktree_path@]
        },
    }
}

/// `git branch -d <branch>`, or with `-D` when `hard`, run in `dir`.
pub open spec fn branch_delete_spec(dir: Seq<char>, branch: Seq<char>, hard: bool) -> CommandSpec {
    CommandSpec { dir, args: seq!["branch"@, if hard { "-D"@ } else { "-d"@ }, branch] }
}

/// The text in git's refusal to delete a branch that is not fully merged.
pub open spec fn unmerged_marker() -> Seq<char> {
    "not fully merged"@
}

pub open spec fn branch_failure(detail: Seq<char>) -> ErrorSpec {
    ErrorSpec::BranchDeleteFailed("Worktree removed but failed to delete branch: "@ + detail)
}

/// The next stage and step of a removal, after a run of its current command.
pub open spec fn remove_next(op: RemoveWorktree, out: RunOutcome) -> (RemoveStage, StepSpec<()>) {
    let branch = match op.branch_name {
        Some(b) => b@,
        None => Seq::empty(),
    };
    match op.stage {
        RemoveStage::Removing => match run_error(out) {
            Some(e) => (RemoveStage::Done, StepSpec::Finish(Err(e))),
            None => if op.delete_branch && op.branch_name is Some {
                (
                    RemoveStage::DeletingBranch,
                    StepSpec::Run(branch_delete_spec(op.repo_path@, branch, op.force)),
                )
            } else {
                (RemoveStage::Done, StepSpec::Finish(Ok(())))
            },
        },
        RemoveStage::DeletingBranch => match out {
            RunOutcome::LaunchFailed(e) => (
                RemoveStage::Done,
                StepSpec::Finish(Err(branch_failure(e@))),
            ),
            RunOutcome::Finished(o) => if o.success {
                (RemoveStage::Done, StepSpec::Finish(Ok(())))
            } else if !op.force && seq_contains(o.stderr@, unmerged_marker()) {
                (
                    RemoveStage::ForceDeletingBranch,
                    StepSpec::Run(branch_delete_spec(op.repo_path@, branch, true)),
                )
            } else {
                (RemoveStage::Done, StepSpec::Finish(Err(branch_failure(o.stderr@))))
            },
        },
        _ => match out {
            RunOutcome::LaunchFailed(e) => (
                RemoveStage::Done,
                StepSpec::Finish(
                    Err(
                        ErrorSpec::BranchDeleteFailed(
                            "Worktree removed but failed to force delete branch: "@ + e@,
                        ),
                    ),
                ),
            ),
            RunOutcome::Finished(o) => if o.success {
                (RemoveStage::Done, StepSpec::Finish(Ok(())))
            } else {
                (RemoveStage::Done, StepSpec::Finish(Err(branch_failure(o.stderr@))))
            },
        },
    }
}

/// `git branch -d <branch>` (`-D` when `hard`), run in `dir`.
pub fn branch_delete_command(dir: &str, branch: &str, hard: bool) -> (r: GitCommand)
    ensures
        r@ == branch_delete_spec(dir@, branch@, hard),
{
    let flag = if hard {
        "-D"
    } else {
        "-d"
    };
    let r = git_command(dir, &["branch", flag, branch]);
    assert(r@.args =~= branch_delete_spec(dir@, branch@, hard).args);
    r
}

fn branch_failure_error(prefix: &str, detail: &String) -> (r: GitError)
    ensures
        r@ == ErrorSpec::BranchDeleteFailed(prefix@ + detail@),
{
    GitError::BranchDeleteFailed(String::from_str(prefix).concat(detail.as_str()))
}

impl RemoveWorktree {
    pub fn new(
        repo_path: String,
        worktree_path: String,
        force: bool,
        delete_branch: bool,
        branch_name: Option<String>,
    ) -> (r: Self)
        ensures
            r == (RemoveWorktree {
                repo_path,
                worktree_path,
                force,
                delete_branch,
                branch_name,
                stage: RemoveStage::Removing,
            }),
    {
        RemoveWorktree {
            repo_path,
            worktree_path,
            force,
            delete_branch,
            branch_name,
            stage: RemoveStage::Removing,
        }
    }

    /// The first command: `git worktree remove [--force] <path>`, run in the repository.
    pub fn start(&self) -> (r: GitCommand)
        ensures
            r@ == remove_spec(*self),
    {
        let r = if self.force {
            git_command(
                self.repo_path.as_str(),
                &["worktree", "remove", "--force", self.worktree_path.as_str()],
            )
        } else {
            git_command(self.repo_path.as_str(), &["worktree", "remove", self.worktree_path.as_str()])
        };
        assert(r@.args =~= remove_spec(*self).args);
        r
    }

    /// Takes what the current command produced and says what comes next.
    pub fn step(&mut self, out: &RunOutcome) -> (r: Step<()>)
        requires
            old(self).stage != RemoveStage::Done,
        ensures
            (final(self).stage, r@) == remove_next(*old(self), *out),
            *final(self) == (RemoveWorktree { stage: final(self).stage, ..*old(self) }),
    {
        let prefix = "Worktree removed but failed to delete branch: ";
        match self.stage {
            RemoveStage::Removing => {
                if let Err(e) = check_run(out) {
                    self.stage = RemoveStage::Done;
                    return Step::Finish(Err(e));
                }
                match &self.branch_name {
                    Some(b) => {
                        if self.delete_branch {
                            let c = branch_delete_command(self.repo_path.as_str(), b.as_str(), self.force);
                            self.stage = RemoveStage::DeletingBranch;
                            return Step::Run(c);
                        }
                    },
                    None => {},
                }
                self.stage = RemoveStage::Done;
                Step::Finish(Ok(()))
            },
            RemoveStage::DeletingBranch => {
                let r = match out {
                    RunOutcome::LaunchFailed(e) => Step::Finish(Err(branch_failure_error(prefix, e))),
                    RunOutcome::Finished(o) => {
                        if o.success {
                            Step::Finish(Ok(()))
                        } else if !self.force && find(o.stderr.as_str(), "not fully merged").is_some() {
                            let b = match &self.branch_name {
                                Some(b) => b.clone(),
                                None => String::new(),
                            };
                            Step::Run(branch_delete_command(self.repo_path.as_str(), b.as_str(), true))
                        } else {
                            Step::Finish(Err(branch_failure_error(prefix, &o.stderr)))
                        }
                    },
                };
                self.stage = match r {
                    Step::Run(_) => RemoveStage::ForceDeletingBranch,
                    Step::Finish(_) => RemoveStage::Done,
                };
                r
            },
            _ => {
                self.stage = RemoveStage::Done;
                match out {
                    RunOutcome::LaunchFailed(e) => Step::Finish(
                        Err(
                            branch_failure_error(
                                "Worktree removed but failed to force delete branch: ",
                                e,
                            ),
                        ),
                    ),
                    RunOutcome::Finished(o) => {
                        if o.success {
                            Step::Finish(Ok(()))
                        } else {
                            Step::Finish(Err(branch_failure_error(prefix, &o.stderr)))
                        }
                    },
                }
            },
        }
    }
}

/// Removing a worktree and its branch without `force`: after the worktree is
/// removed the branch is deleted with `-d`; when git refuses because the branch
/// is not fully merged, the removal itself retries with `-D`, and finishes
/// successfully when that succeeds.
pub proof fn lemma_unmerged_branch_retried(
    op: RemoveWorktree,
    removed: CommandOutput,
    soft: CommandOutput,
    hard: CommandOutput,
)
    requires
        op.stage == RemoveStage::Removing,
        !op.force,
        op.delete_branch,
        op.branch_name is Some,
        removed.success,
        !soft.success,
        seq_contains(soft.stderr@, unmerged_marker()),
        hard.success,
    ensures
        ({
            let b = op.branch_name->Some_0@;
            let op1 = RemoveWorktree { stage: RemoveStage::DeletingBranch, ..op };
            let op2 = RemoveWorktree { stage: RemoveStage::ForceDeletingBranch, ..op };
            &&& remove_next(op, RunOutcome::Finished(removed)) == (
                RemoveStage::DeletingBranch,
                StepSpec::<()>::Run(branch_delete_spec(op.repo_path@, b, false)),
            )
            &&& remove_next(op1, RunOutcome::Finished(soft)) == (
                RemoveStage::ForceDeletingBranch,
                StepSpec::<()>::Run(branch_delete_spec(op.repo_path@, b, true)),
            )
            &&& remove_next(op2, RunOutcome::Finished(hard)) == (
                RemoveStage::Done,
                StepSpec::<()>::Finish(Ok(())),
            )
        }),
{
}

/// Removing a worktree: without `force` the command has no `--force`, and when
/// git refuses (as it does for a worktree with uncommitted changes) the removal
/// fails with git's message and runs nothing more; with `force` the command
/// carries `--force`, and a successful run with no branch to delete finishes
/// the removal.
pub proof fn lemma_remove_force_policy(op: RemoveWorktree, refused: CommandOutput, removed: CommandOutput)
    requires
        op.stage == RemoveStage::Removing,
        !refused.success,
        removed.success,
    ensures
        !op.force ==> remove_spec(op).args == seq!["worktree"@, "remove"@, op.worktree_path@],
        !op.force ==> remove_next(op, RunOutcome::Finished(refused)) == (
            RemoveStage::Done,
            StepSpec::<()>::Finish(Err(ErrorSpec::CommandFailed(refused.stderr@))),
        ),
        op.force ==> remove_spec(op).args == seq![
            "worktree"@,
            "remove"@,
            "--force"@,
            op.worktree_path@,
        ],
        !op.delete_branch ==> remove_next(op, RunOutcome::Finished(removed)) == (
            RemoveStage::Done,
            StepSpec::<()>::Finish(Ok(())),
        ),
{
}

/// Creating a worktree on a new branch runs `git worktree add -b <branch>
/// <path> <base>` in the repository; when that succeeds, it unsets the new
/// branch's upstream inside the new worktree, and then finishes successfully
/// whatever that second run gave.
pub proof fn lemma_create_sequence(op: CreateWorktree, added: CommandOutput, unset: RunOutcome)
    requires
        op.stage == CreateStage::Adding,
        added.success,
    ensures
        add_new_branch_spec(op).args == seq![
            "worktree"@,
            "add"@,
            "-b"@,
            op.branch_name@,
            op.worktree_path@,
            op.base_branch@,
        ],
        create_next(op, RunOutcome::Finished(added)) == (
            CreateStage::UnsettingUpstream,
            StepSpec::<bool>::Run(unset_upstream_spec(op)),
        ),
        create_next(CreateWorktree { stage: CreateStage::UnsettingUpstream, ..op }, unset).1
            is Finish,
        create_next(CreateWorktree { stage: CreateStage::UnsettingUpstream, ..op }, unset).1->Finish_0
            is Ok,
{
}

/// The block that `git worktree list --porcelain` prints for a worktree on a branch.
pub open spec fn branch_block(path: Seq<char>, head: Seq<char>, branch: Seq<char>) -> Seq<Seq<char>> {
    seq!["worktree "@ + path, "HEAD "@ + head, "branch refs/heads/"@ + branch]
}

/// A listing that gains one block, as it does after a worktree is created on a
/// new branch, gives exactly one more record: the new worktree, with the
/// requested branch, not the primary one and not bare.
pub proof fn lemma_new_block_adds_one_record(
    lines: Seq<Seq<char>>,
    path: Seq<char>,
    head: Seq<char>,
    branch: Seq<char>,
)
    requires
        block_count(lines) > 0,
    ensures
        flushed(listing_fold(lines + branch_block(path, head, branch))) == flushed(
            listing_fold(lines),
        ).push(WorktreeView { path, branch, is_main: false, is_bare: false }),
{
    reveal_strlit("worktree ");
    reveal_strlit("HEAD ");
    reveal_strlit("branch ");
    reveal_strlit("branch refs/heads/");
    reveal_strlit("bare");
    lemma_fold_shape(lines);
    let b = branch_block(path, head, branch);
    let all = lines + b;
    let l1 = "worktree "@ + path;
    let l2 = "HEAD "@ + head;
    let l3 = "branch refs/heads/"@ + branch;
    assert(all.drop_last() =~= lines + seq![l1, l2]);
    assert((lines + seq![l1, l2]).drop_last() =~= lines + seq![l1]);
    assert((lines + seq![l1]).drop_last() =~= lines);
    assert(l1.take(9) =~= "worktree "@);
    assert(l1.skip(9) =~= path);
    assert(l3.take(7) =~= "branch "@);
    assert(l3.take(18) =~= "branch refs/heads/"@);
    assert(l3.skip(18) =~= branch);
    assert(!seq_starts_with(l2, "worktree "@)) by {
        if l2.len() >= 9 {
            assert(l2.take(9)[0] == 'H');
        }
    }
    assert(!seq_starts_with(l2, "branch "@)) by {
        if l2.len() >= 7 {
            assert(l2.take(7)[0] == 'H');
        }
    }
    assert(l2 != "bare"@) by {
        assert(l2[0] == 'H');
    }
    assert(!seq_starts_with(l3, "worktree "@)) by {
        if l3.len() >= 9 {
            assert(l3.take(9)[0] == 'b');
        }
    }
    let st = listing_fold(lines);
    let a1 = lines + seq![l1];
    let a2 = lines + seq![l1, l2];
    assert(a1.last() == l1);
    assert(a2.last() == l2);
    assert(all.last() == l3);
    let s1 = listing_fold(a1);
    assert(s1 == listing_step(st, l1));
    assert(s1.done == flushed(st));
    assert(s1.path == Some(path));
    assert(!s1.bare);
    let s2 = listing_fold(a2);
    assert(s2 == listing_step(s1, l2));
    assert(s2 == s1);
    let s3 = listing_fold(all);
    assert(s3 == listing_step(s2, l3));
    assert(s3.branch == Some(branch));
    assert(flushed(st).len() > 0);
}

/// The text that `git worktree list --porcelain` prints for a worktree on a branch.
pub open spec fn branch_block_text(path: Seq<char>, head: Seq<char>, branch: Seq<char>) -> Seq<char> {
    ("worktree "@ + path).push('\n') + ("HEAD "@ + head).push('\n') + ("branch refs/heads/"@
        + branch).push('\n')
}

proof fn lemma_prefixed_no_breaks(p: Seq<char>, s: Seq<char>)
    requires
        no_breaks(p),
        no_breaks(s),
    ensures
        no_breaks(p + s),
{
    assert forall|i: int| 0 <= i < (p + s).len() implies #[trigger] (p + s)[i] != '\n' && (p
        + s)[i] != '\r' by {
        if i < p.len() {
            assert((p + s)[i] == p[i]);
        } else {
            assert((p + s)[i] == s[i - p.len()]);
        }
    }
}

/// After a worktree is created on a new branch, the listing that git prints
/// gains its block; parsed, that listing has exactly one more record: the new
/// worktree, with the requested branch, not the primary one and not bare.
pub proof fn lemma_created_worktree_listed(
    listing: Seq<char>,
    path: Seq<char>,
    head: Seq<char>,
    branch: Seq<char>,
)
    requires
        block_count(lines_of(listing)) > 0,
        listing.len() > 0 && listing.last() == '\n',
        no_breaks(path),
        no_breaks(head),
        no_breaks(branch),
    ensures
        listing_records(listing + branch_block_text(path, head, branch)) == listing_records(
            listing,
        ).push(WorktreeView { path, branch, is_main: false, is_bare: false }),
{
    reveal_strlit("worktree ");
    reveal_strlit("HEAD ");
    reveal_strlit("branch refs/heads/");
    let l1 = "worktree "@ + path;
    let l2 = "HEAD "@ + head;
    let l3 = "branch refs/heads/"@ + branch;
    lemma_prefixed_no_breaks("worktree "@, path);
    lemma_prefixed_no_breaks("HEAD "@, head);
    lemma_prefixed_no_breaks("branch refs/heads/"@, branch);
    lemma_one_line(l1);
    lemma_one_line(l2);
    lemma_one_line(l3);
    let t1 = l1.push('\n');
    let t2 = l2.push('\n');
    let t3 = l3.push('\n');
    let block = branch_block_text(path, head, branch);
    assert(block =~= t1 + (t2 + t3));
    lemma_lines_concat(t2, t3);
    lemma_lines_concat(t1, t2 + t3);
    lemma_lines_concat(listing, block);
    assert(lines_of(block) =~= branch_block(path, head, branch));
    lemma_new_block_adds_one_record(lines_of(listing), path, head, branch);
}

/// A listing that loses the block of the worktree created last, as it does
/// once that worktree is removed, gives the same records without that one.
pub proof fn lemma_removed_worktree_vanishes(
    listing: Seq<char>,
    path: Seq<char>,
    head: Seq<char>,
    branch: Seq<char>,
)
    requires
        block_count(lines_of(listing)) > 0,
        listing.len() > 0 && listing.last() == '\n',
        no_breaks(path),
        no_breaks(head),
        no_breaks(branch),
    ensures
        listing_records(listing) == listing_records(listing + branch_block_text(path, head, branch))
            .drop_last(),
{
    lemma_created_worktree_listed(listing, path, head, branch);
    let before = listing_records(listing);
    assert(before.push(WorktreeView { path, branch, is_main: false, is_bare: false }).drop_last()
        =~= before);
}

} // verus!
