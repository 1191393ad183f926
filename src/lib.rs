//! Worktree and branch management on top of the `git` executable: parsers for
//! git's porcelain output, the command sequences behind each operation and the
//! decisions between their steps, and the settings and secrets around them.
pub mod branches;
pub mod command;
pub mod integrations;
pub mod launch;
pub mod porcelain;
pub mod projects;
pub mod records;
pub mod remote;
pub mod secure_store;
pub mod settings;
pub mod text;
pub mod worktrees;
