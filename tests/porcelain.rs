use grovr::porcelain::{parse_status, parse_worktree_list};
use grovr::text::{split_lines, trim};

const TWO_BLOCKS: &str = "worktree /repo\nHEAD 1111111111111111111111111111111111111111\nbranch refs/heads/main\n\nworktree /wt/feature\nHEAD 2222222222222222222222222222222222222222\nbranch refs/heads/feature-test\n\n";

#[test]
fn listing_has_one_record_per_block() {
    let text = "worktree /a\nHEAD 1\nbranch refs/heads/main\n\nworktree /b\nHEAD 2\nbranch refs/heads/x\n\nworktree /c\nHEAD 3\ndetached\n\n";
    let w = parse_worktree_list(text);
    assert_eq!(w.len(), 3);
    assert!(w[0].is_main);
    assert!(!w[1].is_main);
    assert!(!w[2].is_main);
    assert_eq!(w[0].path, "/a");
    assert_eq!(w[1].branch, "x");
    assert_eq!(w[2].branch, "");
}

#[test]
fn bare_flag_belongs_to_its_block() {
    let text = "worktree /srv/repo.git\nbare\n\nworktree /wt/one\nHEAD 1\nbranch refs/heads/one\n\n";
    let w = parse_worktree_list(text);
    assert_eq!(w.len(), 2);
    assert!(w[0].is_bare);
    assert!(!w[1].is_bare);
    assert_eq!(w[0].branch, "");
}

#[test]
fn branch_without_heads_prefix_is_kept_whole() {
    let w = parse_worktree_list("worktree /a\nbranch refs/remotes/origin/x\n");
    assert_eq!(w.len(), 1);
    assert_eq!(w[0].branch, "refs/remotes/origin/x");
}

#[test]
fn empty_listing_has_no_records() {
    assert_eq!(parse_worktree_list("").len(), 0);
}

#[test]
fn crlf_listing_is_read_like_lf() {
    let w = parse_worktree_list("worktree /a\r\nbranch refs/heads/main\r\n");
    assert_eq!(w[0].path, "/a");
    assert_eq!(w[0].branch, "main");
}

#[test]
fn listing_keeps_new_block_last() {
    let w = parse_worktree_list(TWO_BLOCKS);
    assert_eq!(w.len(), 2);
    assert_eq!(w[1].path, "/wt/feature");
    assert_eq!(w[1].branch, "feature-test");
    assert!(!w[1].is_main);
}

#[test]
fn status_counts_each_column() {
    let s = parse_status("M  a.txt\n M b.txt\n?? c.txt\nMM d.txt\n");
    assert_eq!(s.staged, 2);
    assert_eq!(s.unstaged, 2);
    assert_eq!(s.untracked, 1);
    assert!(s.has_changes);
}

#[test]
fn status_of_nothing_is_clean() {
    let s = parse_status("");
    assert_eq!(s.staged, 0);
    assert_eq!(s.unstaged, 0);
    assert_eq!(s.untracked, 0);
    assert!(!s.has_changes);
}

#[test]
fn status_ignores_short_lines() {
    let s = parse_status("M\n\nA  new.txt\n");
    assert_eq!(s.staged, 1);
    assert_eq!(s.unstaged, 0);
    assert!(s.has_changes);
}

#[test]
fn lines_split_like_std() {
    for text in ["", "a", "a\n", "a\n\nb", "a\r\nb\r\n", "x\ry\n", "\n\n", "end\r"] {
        let ours = split_lines(text);
        let std_lines: Vec<&str> = text.lines().collect();
        assert_eq!(ours, std_lines, "text {:?}", text);
    }
}

#[test]
fn trim_matches_std() {
    for text in ["", "  a b  ", "\t\nmain\n", "\u{3000}x\u{A0}", "none"] {
        assert_eq!(trim(text), text.trim());
    }
}

#[test]
fn lines_before_the_first_block_do_not_leak() {
    let w = parse_worktree_list("branch refs/heads/x\nbare\nworktree /a\nHEAD 1\n\nworktree /b\n");
    assert_eq!(w.len(), 2);
    assert_eq!(w[0].branch, "");
    assert!(!w[0].is_bare);
    assert!(w[0].is_main);
    assert!(!w[1].is_main);
}
