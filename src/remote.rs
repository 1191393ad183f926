//! Recovers the owner and repository name from a remote's fetch URL.
use vstd::prelude::*;

use crate::records::GitHubRemoteInfo;
use crate::text::{
    after_first, first_occurrence, pieces, seq_contains, seq_ends_with, seq_starts_with,
    split_char, strip_prefix, strip_suffix,
};

verus! {

/// `s` without a trailing `.git`, if it has one.
pub open spec fn without_git_suffix(s: Seq<char>) -> Seq<char> {
    if seq_ends_with(s, ".git"@) {
        s.take(s.len() - ".git"@.len())
    } else {
        s
    }
}

/// The (owner, repository) pair that `url` names, if it has a recognised form:
/// `git@github.com:<owner>/<repo>[.git]` with exactly two non-empty segments,
/// or a URL holding `github.com/` followed by at least two segments.
pub open spec fn remote_identity(url: Seq<char>) -> Option<(Seq<char>, Seq<char>)> {
    if seq_starts_with(url, "git@github.com:"@) {
        let parts = pieces(without_git_suffix(url.skip("git@github.com:"@.len() as int)), '/');
        if parts.len() == 2 && parts[0].len() > 0 && parts[1].len() > 0 {
            Some((parts[0], parts[1]))
        } else {
            None
        }
    } else if seq_contains(url, "github.com/"@) {
        let rest = url.skip(first_occurrence(url, "github.com/"@) + "github.com/"@.len());
        let parts = pieces(without_git_suffix(rest), '/');
        if parts.len() >= 2 {
            Some((parts[0], parts[1]))
        } else {
            None
        }
    } else {
        None
    }
}

fn drop_git_suffix(s: String) -> (r: String)
    ensures
        r@ == without_git_suffix(s@),
{
    match strip_suffix(s.as_str(), ".git") {
        Some(t) => t,
        None => s,
    }
}

/// Parses a remote URL into its owner and repository; `None` for any form
/// that is not recognised.
pub fn parse_github_remote(url: &str) -> (r: Option<GitHubRemoteInfo>)
    ensures
        match remote_identity(url@) {
            Some((owner, repo)) => r matches Some(info) && info.owner@ == owner && info.repo@
                == repo,
            None => r is None,
        },
{
    if let Some(rest) = strip_prefix(url, "git@github.com:") {
        let body = drop_git_suffix(rest);
        let parts = split_char(body.as_str(), '/');
        if parts.len() == 2 && parts[0].unicode_len() > 0 && parts[1].unicode_len() > 0 {
            let owner = parts[0].clone();
            let repo = parts[1].clone();
            Some(GitHubRemoteInfo { owner, repo })
        } else {
            None
        }
    } else if let Some(rest) = after_first(url, "github.com/") {
        let body = drop_git_suffix(rest);
        let parts = split_char(body.as_str(), '/');
        if parts.len() >= 2 {
            let owner = parts[0].clone();
            let repo = parts[1].clone();
            Some(GitHubRemoteInfo { owner, repo })
        } else {
            None
        }
    } else {
        None
    }
}

} // verus!
