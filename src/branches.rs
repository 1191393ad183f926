//! Branch operations: finding the default branch, deleting and renaming
//! branches, fetching and pulling, the remote's identity, and the branch list.
use vstd::prelude::*;

use crate::command::{
    CommandOutput, git_command, run_error, CommandSpec, ErrorSpec, GitCommand, GitError, RunOutcome,
    Step, StepSpec,
};
use crate::records::{Branch, BranchView, GitHubRemoteInfo};
use crate::remote::{parse_github_remote, remote_identity};
use crate::text::{trim, trimmed};
use crate::worktrees::{branch_delete_command, branch_delete_spec, expect_success};

verus! {

/// Which way of finding the default branch is being tried.
#[derive(Debug, Clone, Copy, PartialEq, Eq, Structural)]
pub enum DefaultBranchStage {
    /// Reading the remote's symbolic HEAD.
    SymbolicRef,
    /// Checking that `origin/main` exists.
    VerifyMain,
    /// Checking that `origin/master` exists.
    VerifyMaster,
    Done,
}

/// The search for a repository's default branch: the remote's symbolic HEAD,
/// else `origin/main`, else `origin/master`, else `NoDefaultBranch`.
/// Every command only reads.
#[derive(Debug, Clone)]
pub struct DefaultBranch {
    pub repo_path: String,
    pub stage: DefaultBranchStage,
}

pub open spec fn symbolic_head_spec(repo: Seq<char>) -> CommandSpec {
    CommandSpec { dir: repo, args: seq!["symbolic-ref"@, "refs/remotes/origin/HEAD"@, "--short"@] }
}

pub open spec fn verify_ref_spec(repo: Seq<char>, name: Seq<char>) -> CommandSpec {
    CommandSpec { dir: repo, args: seq!["rev-parse"@, "--verify"@, name] }
}

/// The next stage and step of the search, after a run of its current command.
pub open spec fn default_branch_next(op: DefaultBranch, out: RunOutcome) -> (
    DefaultBranchStage,
    StepSpec<Seq<char>>,
) {
    match out {
        RunOutcome::LaunchFailed(e) => (
            DefaultBranchStage::Done,
            StepSpec::Finish(Err(ErrorSpec::LaunchFailure(e@))),
        ),
        RunOutcome::Finished(o) => match op.stage {
            DefaultBranchStage::SymbolicRef => if o.success {
                (DefaultBranchStage::Done, StepSpec::Finish(Ok(trimmed(o.stdout@))))
            } else {
                (
                    DefaultBranchStage::VerifyMain,
                    StepSpec::Run(verify_ref_spec(op.repo_path@, "origin/main"@)),
                )
            },
            DefaultBranchStage::VerifyMain => if o.success {
                (DefaultBranchStage::Done, StepSpec::Finish(Ok("origin/main"@)))
            } else {
                (
                    DefaultBranchStage::VerifyMaster,
                    StepSpec::Run(verify_ref_spec(op.repo_path@, "origin/master"@)),
                )
            },
            _ => if o.success {
                (DefaultBranchStage::Done, StepSpec::Finish(Ok("origin/master"@)))
            } else {
                (DefaultBranchStage::Done, StepSpec::Finish(Err(ErrorSpec::NoDefaultBranch)))
            },
        },
    }
}

fn verify_ref_command(repo: &str, name: &str) -> (r: GitCommand)
    ensures
        r@ == verify_ref_spec(repo@, name@),
{
    let r = git_command(repo, &["rev-parse", "--verify", name]);
    assert(r@.args =~= verify_ref_spec(repo@, name@).args);
    r
}

impl DefaultBranch {
    pub fn new(repo_path: String) -> (r: Self)
        ensures
            r == (DefaultBranch { repo_path, stage: DefaultBranchStage::SymbolicRef }),
    {
        DefaultBranch { repo_path, stage: DefaultBranchStage::SymbolicRef }
    }

    /// The first command: `git symbolic-ref refs/remotes/origin/HEAD --short`.
    pub fn start(&self) -> (r: GitCommand)
        ensures
            r@ == symbolic_head_spec(self.repo_path@),
    {
        let r = git_command(
            self.repo_path.as_str(),
            &["symbolic-ref", "refs/remotes/origin/HEAD", "--short"],
        );
        assert(r@.args =~= symbolic_head_spec(self.repo_path@).args);
        r
    }

    /// Takes what the current command produced and says what comes next.
    pub fn step(&mut self, out: &RunOutcome) -> (r: Step<String>)
        requires
            old(self).stage != DefaultBranchStage::Done,
        ensures
            (final(self).stage, r@) == default_branch_next(*old(self), *out),
            final(self).repo_path == old(self).repo_path,
    {
        match out {
            RunOutcome::LaunchFailed(e) => {
                self.stage = DefaultBranchStage::Done;
                Step::Finish(Err(GitError::LaunchFailure(e.clone())))
            },
            RunOutcome::Finished(o) => match self.stage {
                DefaultBranchStage::SymbolicRef => {
                    if o.success {
                        self.stage = DefaultBranchStage::Done;
                        Step::Finish(Ok(trim(o.stdout.as_str())))
                    } else {
                        self.stage = DefaultBranchStage::VerifyMain;
                        Step::Run(verify_ref_command(self.repo_path.as_str(), "origin/main"))
                    }
                },
                DefaultBranchStage::VerifyMain => {
                    if o.success {
                        self.stage = DefaultBranchStage::Done;
                        Step::Finish(Ok(String::from_str("origin/main")))
                    } else {
                        self.stage = DefaultBranchStage::VerifyMaster;
                        Step::Run(verify_ref_command(self.repo_path.as_str(), "origin/master"))
                    }
                },
                _ => {
                    self.stage = DefaultBranchStage::Done;
                    if o.success {
                        Step::Finish(Ok(String::from_str("origin/master")))
                    } else {
                        Step::Finish(Err(GitError::NoDefaultBranch))
                    }
                },
            },
        }
    }
}

/// `git branch -d <branch>`, or `-D` when `force`, run in the repository.
pub fn delete_branch_command(repo_path: &str, branch_name: &str, force: bool) -> (r: GitCommand)
    ensures
        r@ == branch_delete_spec(repo_path@, branch_name@, force),
{
    branch_delete_command(repo_path, branch_name, force)
}

/// The result of a run of the branch deletion command.
pub fn delete_branch(out: &RunOutcome) -> (r: Result<(), GitError>)
    ensures
        match run_error(*out) {
            Some(e) => r matches Err(x) && x@ == e,
            None => r is Ok,
        },
{
    expect_success(out)
}

/// `git branch -m <old> <new>`, run in the repository.
pub fn rename_branch_command(repo_path: &str, old_name: &str, new_name: &str) -> (r: GitCommand)
    ensures
        r@ == (CommandSpec { dir: repo_path@, args: seq!["branch"@, "-m"@, old_name@, new_name@] }),
{
    let r = git_command(repo_path, &["branch", "-m", old_name, new_name]);
    assert(r@.args =~= seq!["branch"@, "-m"@, old_name@, new_name@]);
    r
}

/// The result of a run of the branch rename command.
pub fn rename_branch(out: &RunOutcome) -> (r: Result<(), GitError>)
    ensures
        match run_error(*out) {
            Some(e) => r matches Err(x) && x@ == e,
            None => r is Ok,
        },
{
    expect_success(out)
}

/// `git fetch --all --prune`, run in the repository.
pub fn fetch_command(repo_path: &str) -> (r: GitCommand)
    ensures
        r@ == (CommandSpec { dir: repo_path@, args: seq!["fetch"@, "--all"@, "--prune"@] }),
{
    let r = git_command(repo_path, &["fetch", "--all", "--prune"]);
    assert(r@.args =~= seq!["fetch"@, "--all"@, "--prune"@]);
    r
}

/// The result of a run of the fetch command.
pub fn git_fetch(out: &RunOutcome) -> (r: Result<(), GitError>)
    ensures
        match run_error(*out) {
            Some(e) => r matches Err(x) && x@ == e,
            None => r is Ok,
        },
{
    expect_success(out)
}

/// `git pull`, run in the worktree.
pub fn pull_command(worktree_path: &str) -> (r: GitCommand)
    ensures
        r@ == (CommandSpec { dir: worktree_path@, args: seq!["pull"@] }),
{
    let r = git_command(worktree_path, &["pull"]);
    assert(r@.args =~= seq!["pull"@]);
    r
}

/// The result of a run of the pull command.
pub fn git_pull(out: &RunOutcome) -> (r: Result<(), GitError>)
    ensures
        match run_error(*out) {
            Some(e) => r matches Err(x) && x@ == e,
            None => r is Ok,
        },
{
    expect_success(out)
}

/// `git remote get-url origin`, run in the repository.
pub fn remote_url_command(repo_path: &str) -> (r: GitCommand)
    ensures
        r@ == (CommandSpec { dir: repo_path@, args: seq!["remote"@, "get-url"@, "origin"@] }),
{
    let r = git_command(repo_path, &["remote", "get-url", "origin"]);
    assert(r@.args =~= seq!["remote"@, "get-url"@, "origin"@]);
    r
}

/// The remote's identity from a run of the remote URL command: none when git
/// reports no such remote, else what the trimmed URL names.
pub fn get_github_remote_info(out: &RunOutcome) -> (r: Result<Option<GitHubRemoteInfo>, GitError>)
    ensures
        match out {
            RunOutcome::LaunchFailed(e) => r matches Err(x) && x@ == ErrorSpec::LaunchFailure(e@),
            RunOutcome::Finished(o) => if !o.success {
                r matches Ok(None)
            } else {
                r matches Ok(found) && match remote_identity(trimmed(o.stdout@)) {
                    Some((owner, repo)) => found matches Some(info) && info.owner@ == owner
                        && info.repo@ == repo,
                    None => found is None,
                }
            },
        },
{
    match out {
        RunOutcome::LaunchFailed(e) => Err(GitError::LaunchFailure(e.clone())),
        RunOutcome::Finished(o) => {
            if !o.success {
                return Ok(None);
            }
            let url = trim(o.stdout.as_str());
            Ok(parse_github_remote(url.as_str()))
        },
    }
}

/// A branch as the repository reports it: its name, if it is valid UTF-8,
/// and whether HEAD points at it.
#[derive(Debug, Clone)]
pub struct BranchEntry {
    pub name: Option<String>,
    pub is_head: bool,
}

/// The records for `entries`: those with a name, in order.
pub open spec fn entry_records(entries: Seq<BranchEntry>, remote: bool) -> Seq<BranchView>
    decreases entries.len(),
{
    if entries.len() == 0 {
        Seq::empty()
    } else {
        let rest = entry_records(entries.drop_last(), remote);
        match entries.last().name {
            Some(n) => rest.push(
                BranchView { name: n@, is_remote: remote, is_head: !remote && entries.last().is_head },
            ),
            None => rest,
        }
    }
}

fn push_entries(out: &mut Vec<Branch>, entries: &Vec<BranchEntry>, remote: bool)
    ensures
        final(out).deep_view() == old(out).deep_view() + entry_records(entries@, remote),
{
    let mut i: usize = 0;
    let ghost start = out.deep_view();
    assert(entries@.take(0) =~= Seq::<BranchEntry>::empty());
    assert(start + entry_records(Seq::<BranchEntry>::empty(), remote) =~= start);
    while i < entries.len()
        invariant
            i <= entries@.len(),
            out.deep_view() == start + entry_records(entries@.take(i as int), remote),
        decreases entries.len() - i,
    {
        let e = &entries[i];
        assert(entries@.take(i + 1).drop_last() =~= entries@.take(i as int));
        match &e.name {
            Some(n) => {
                let ghost before = out.deep_view();
                let b = Branch { name: n.clone(), is_remote: remote, is_head: !remote && e.is_head };
                out.push(b);
                assert(out.deep_view() =~= before.push(b@));
            },
            None => {},
        }
        i = i + 1;
    }
    assert(entries@.take(entries@.len() as int) =~= entries@);
}

/// The branch list: the named local branches, then, when asked for, the named
/// remote branches, which are never HEAD.
pub fn get_branches(local: &Vec<BranchEntry>, remote: &Vec<BranchEntry>, include_remote: bool) -> (r:
    Vec<Branch>)
    ensures
        r.deep_view() == entry_records(local@, false) + if include_remote {
            entry_records(remote@, true)
        } else {
            Seq::empty()
        },
{
    let mut out: Vec<Branch> = Vec::new();
    push_entries(&mut out, local, false);
    if include_remote {
        push_entries(&mut out, remote, true);
    }
    proof {
        assert(Seq::<BranchView>::empty() + entry_records(local@, false) =~= entry_records(local@, false));
        if !include_remote {
            assert(out.deep_view() =~= entry_records(local@, false) + Seq::<BranchView>::empty());
        }
    }
    out
}

/// The current branch: the short name of HEAD when HEAD is a branch.
pub fn get_current_branch(head_is_branch: bool, shorthand: Option<String>) -> (r: Result<String, String>)
    ensures
        head_is_branch && shorthand is Some ==> (r matches Ok(n) && n@ == shorthand->Some_0@),
        head_is_branch && shorthand is None ==> (r matches Err(m) && m@
            == "Could not get branch name"@),
        !head_is_branch ==> (r matches Err(m) && m@ == "HEAD is not a branch"@),
{
    if head_is_branch {
        match shorthand {
            Some(s) => Ok(s),
            None => Err(String::from_str("Could not get branch name")),
        }
    } else {
        Err(String::from_str("HEAD is not a branch"))
    }
}

/// The default branch is sought in a fixed order, and the first way that
/// succeeds gives the answer: the remote's symbolic HEAD, then `origin/main`,
/// then `origin/master`; when none succeeds the search fails with
/// `NoDefaultBranch`, never with an empty name.
pub proof fn lemma_default_branch_order(
    repo_path: String,
    head: CommandOutput,
    main: CommandOutput,
    master: CommandOutput,
)
    ensures
        ({
            let op1 = DefaultBranch { repo_path, stage: DefaultBranchStage::SymbolicRef };
            let op2 = DefaultBranch { repo_path, stage: DefaultBranchStage::VerifyMain };
            let op3 = DefaultBranch { repo_path, stage: DefaultBranchStage::VerifyMaster };
            &&& head.success ==> default_branch_next(op1, RunOutcome::Finished(head)) == (
                DefaultBranchStage::Done,
                StepSpec::Finish(Ok(trimmed(head.stdout@))),
            )
            &&& !head.success ==> default_branch_next(op1, RunOutcome::Finished(head)) == (
                DefaultBranchStage::VerifyMain,
                StepSpec::<Seq<char>>::Run(verify_ref_spec(repo_path@, "origin/main"@)),
            )
            &&& main.success ==> default_branch_next(op2, RunOutcome::Finished(main)) == (
                DefaultBranchStage::Done,
                StepSpec::Finish(Ok("origin/main"@)),
            )
            &&& !main.success ==> default_branch_next(op2, RunOutcome::Finished(main)) == (
                DefaultBranchStage::VerifyMaster,
                StepSpec::<Seq<char>>::Run(verify_ref_spec(repo_path@, "origin/master"@)),
            )
            &&& master.success ==> default_branch_next(op3, RunOutcome::Finished(master)) == (
                DefaultBranchStage::Done,
                StepSpec::Finish(Ok("origin/master"@)),
            )
            &&& !master.success ==> default_branch_next(op3, RunOutcome::Finished(master)) == (
                DefaultBranchStage::Done,
                StepSpec::<Seq<char>>::Finish(Err(ErrorSpec::NoDefaultBranch)),
            )
        }),
{
}

} // verus!
