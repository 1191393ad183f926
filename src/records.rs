//! The records handed to callers: worktrees, branches, status summaries and
//! the identity of a hosted remote.
use vstd::prelude::*;

verus! {

/// One worktree of a repository, as the listing reports it.
#[derive(Debug, Clone)]
pub struct Worktree {
    pub path: String,
    /// The checked-out branch; empty for a detached HEAD.
    pub branch: String,
    /// Whether this is the primary worktree, which the listing names first.
    pub is_main: bool,
    pub is_bare: bool,
}

pub struct WorktreeView {
    pub path: Seq<char>,
    pub branch: Seq<char>,
    pub is_main: bool,
    pub is_bare: bool,
}

impl View for Worktree {
    type V = WorktreeView;

    open spec fn view(&self) -> WorktreeView {
        WorktreeView {
            path: self.path@,
            branch: self.branch@,
            is_main: self.is_main,
            is_bare: self.is_bare,
        }
    }
}

impl DeepView for Worktree {
    type V = WorktreeView;

    open spec fn deep_view(&self) -> WorktreeView {
        self@
    }
}

/// A local or remote branch.
#[derive(Debug, Clone)]
pub struct Branch {
    pub name: String,
    pub is_remote: bool,
    /// Whether HEAD points at this branch; never set for a remote branch.
    pub is_head: bool,
}

pub struct BranchView {
    pub name: Seq<char>,
    pub is_remote: bool,
    pub is_head: bool,
}

impl View for Branch {
    type V = BranchView;

    open spec fn view(&self) -> BranchView {
        BranchView { name: self.name@, is_remote: self.is_remote, is_head: self.is_head }
    }
}

impl DeepView for Branch {
    type V = BranchView;

    open spec fn deep_view(&self) -> BranchView {
        self@
    }
}

/// Counts of changed paths in one worktree.
#[derive(Debug, Clone, Copy, PartialEq, Eq)]
pub struct WorktreeStatus {
    pub has_changes: bool,
    pub staged: i32,
    pub unstaged: i32,
    pub untracked: i32,
}

impl WorktreeStatus {
    /// The summary's invariant: it reports changes exactly when a count is positive.
    pub open spec fn wf(&self) -> bool {
        &&& self.staged >= 0
        &&& self.unstaged >= 0
        &&& self.untracked >= 0
        &&& self.has_changes == (self.staged > 0 || self.unstaged > 0 || self.untracked > 0)
    }
}

/// The owner and repository name of a hosted remote.
#[derive(Debug, Clone)]
pub struct GitHubRemoteInfo {
    pub owner: String,
    pub repo: String,
}

} // verus!
