//! Parsers for `git worktree list --porcelain` and `git status --porcelain`.
use vstd::prelude::*;

use crate::records::{Worktree, WorktreeStatus, WorktreeView};
use crate::text::{lemma_lines_len, lines_of, seq_starts_with, split_lines, strip_prefix, same_text};

verus! {

/// What the listing parser holds after some lines: the records emitted so far
/// and the block being read.
pub struct ListingState {
    pub done: Seq<WorktreeView>,
    pub path: Option<Seq<char>>,
    pub branch: Option<Seq<char>>,
    pub bare: bool,
}

pub open spec fn listing_start() -> ListingState {
    ListingState { done: Seq::empty(), path: None, branch: None, bare: false }
}

/// The records of `st` with the block being read emitted, if it has a path.
pub open spec fn flushed(st: ListingState) -> Seq<WorktreeView> {
    match st.path {
        Some(p) => st.done.push(
            WorktreeView {
                path: p,
                branch: match st.branch {
                    Some(b) => b,
                    None => Seq::empty(),
                },
                is_main: st.done.len() == 0,
                is_bare: st.bare,
            },
        ),
        None => st.done,
    }
}

/// How one line of the listing changes what the parser holds.
pub open spec fn listing_step(st: ListingState, line: Seq<char>) -> ListingState {
    if seq_starts_with(line, "worktree "@) {
        let path = line.skip("worktree "@.len() as int);
        ListingState { done: flushed(st), path: Some(path), branch: None, bare: false }
    } else if seq_starts_with(line, "branch "@) {
        let name = if seq_starts_with(line, "branch refs/heads/"@) {
            line.skip("branch refs/heads/"@.len() as int)
        } else {
            line.skip("branch "@.len() as int)
        };
        ListingState { done: st.done, path: st.path, branch: Some(name), bare: st.bare }
    } else if line == "bare"@ {
        ListingState { done: st.done, path: st.path, branch: st.branch, bare: true }
    } else {
        st
    }
}

pub open spec fn listing_fold(lines: Seq<Seq<char>>) -> ListingState
    decreases lines.len(),
{
    if lines.len() == 0 {
        listing_start()
    } else {
        listing_step(listing_fold(lines.drop_last()), lines.last())
    }
}

/// The worktree records that a porcelain listing describes.
pub open spec fn listing_records(text: Seq<char>) -> Seq<WorktreeView> {
    flushed(listing_fold(lines_of(text)))
}

pub open spec fn opt_text(o: Option<String>) -> Option<Seq<char>> {
    match o {
        Some(s) => Some(s@),
        None => None,
    }
}

/// Parses the output of `git worktree list --porcelain` into records, in the
/// listing's order; the first record is the primary worktree.
pub fn parse_worktree_list(text: &str) -> (r: Vec<Worktree>)
    ensures
        r.deep_view() == listing_records(text@),
{
    let lines = split_lines(text);
    let mut worktrees: Vec<Worktree> = Vec::new();
    let mut current_path: Option<String> = None;
    let mut current_branch: Option<String> = None;
    let mut is_bare = false;
    let mut i: usize = 0;
    proof {
        assert(lines.deep_view().take(0) =~= Seq::<Seq<char>>::empty());
        assert(worktrees.deep_view() =~= Seq::<WorktreeView>::empty());
    }
    while i < lines.len()
        invariant
            i <= lines.len(),
            lines.deep_view() == lines_of(text@),
            listing_fold(lines.deep_view().take(i as int)) == (ListingState {
                done: worktrees.deep_view(),
                path: opt_text(current_path),
                branch: opt_text(current_branch),
                bare: is_bare,
            }),
        decreases lines.len() - i,
    {
        let line = &lines[i];
        let ghost st = listing_fold(lines.deep_view().take(i as int));
        proof {
            assert(lines.deep_view().take(i + 1).drop_last() =~= lines.deep_view().take(i as int));
            assert(lines.deep_view()[i as int] == line@);
        }
        let wt = strip_prefix(line.as_str(), "worktree ");
        if let Some(path) = wt {
            match current_path {
                Some(p) => {
                    let branch = match current_branch {
                        Some(b) => b,
                        None => String::new(),
                    };
                    let rec = Worktree {
                        path: p,
                        branch,
                        is_main: worktrees.len() == 0,
                        is_bare,
                    };
                    let ghost before = worktrees.deep_view();
                    worktrees.push(rec);
                    assert(worktrees.deep_view() =~= before.push(rec@));
                },
                None => {},
            }
            current_path = Some(path);
            current_branch = None;
            is_bare = false;
        } else {
            let br = strip_prefix(line.as_str(), "branch ");
            if let Some(rest) = br {
                let heads = strip_prefix(line.as_str(), "branch refs/heads/");
                let name = match heads {
                    Some(h) => h,
                    None => rest,
                };
                current_branch = Some(name);
            } else if same_text(line.as_str(), "bare") {
                is_bare = true;
            }
        }
        i = i + 1;
    }
    proof {
        assert(lines.deep_view().take(lines.len() as int) =~= lines.deep_view());
    }
    match current_path {
        Some(p) => {
            let branch = match current_branch {
                Some(b) => b,
                None => String::new(),
            };
            let rec = Worktree { path: p, branch, is_main: worktrees.len() == 0, is_bare };
            let ghost before = worktrees.deep_view();
            worktrees.push(rec);
            assert(worktrees.deep_view() =~= before.push(rec@));
        },
        None => {},
    }
    worktrees
}

/// A status line that names an untracked path.
pub open spec fn untracked_line(l: Seq<char>) -> bool {
    l.len() >= 2 && l[0] == '?'
}

/// A status line whose index column shows a change.
pub open spec fn staged_line(l: Seq<char>) -> bool {
    l.len() >= 2 && l[0] != '?' && l[0] != ' '
}

/// A status line whose worktree column shows a change.
pub open spec fn unstaged_line(l: Seq<char>) -> bool {
    l.len() >= 2 && l[0] != '?' && l[1] != ' '
}

/// How many of `lines` satisfy `f`.
pub open spec fn count_lines(lines: Seq<Seq<char>>, f: spec_fn(Seq<char>) -> bool) -> nat
    decreases lines.len(),
{
    if lines.len() == 0 {
        0
    } else {
        count_lines(lines.drop_last(), f) + if f(lines.last()) {
            1nat
        } else {
            0nat
        }
    }
}

/// The summary that a short status listing describes.
pub open spec fn status_summary(text: Seq<char>) -> WorktreeStatus {
    let lines = lines_of(text);
    let staged = count_lines(lines, |l: Seq<char>| staged_line(l));
    let unstaged = count_lines(lines, |l: Seq<char>| unstaged_line(l));
    let untracked = count_lines(lines, |l: Seq<char>| untracked_line(l));
    WorktreeStatus {
        has_changes: staged > 0 || unstaged > 0 || untracked > 0,
        staged: staged as i32,
        unstaged: unstaged as i32,
        untracked: untracked as i32,
    }
}

/// Summarises the output of `git status --porcelain`: each line of two or more
/// characters counts as untracked when its first column is `?`, and otherwise
/// as staged when its first column is not blank and as unstaged when its
/// second column is not blank.
pub fn parse_status(text: &str) -> (r: WorktreeStatus)
    requires
        text@.len() < i32::MAX,
    ensures
        r == status_summary(text@),
        r.wf(),
        r.staged == count_lines(lines_of(text@), |l: Seq<char>| staged_line(l)),
        r.unstaged == count_lines(lines_of(text@), |l: Seq<char>| unstaged_line(l)),
        r.untracked == count_lines(lines_of(text@), |l: Seq<char>| untracked_line(l)),
{
    let lines = split_lines(text);
    proof {
        lemma_lines_len(text@);
    }
    let ghost ls = lines.deep_view();
    let ghost fs = |l: Seq<char>| staged_line(l);
    let ghost fu = |l: Seq<char>| unstaged_line(l);
    let ghost ft = |l: Seq<char>| untracked_line(l);
    let mut staged: i32 = 0;
    let mut unstaged: i32 = 0;
    let mut untracked: i32 = 0;
    let mut i: usize = 0;
    assert(ls.take(0) =~= Seq::<Seq<char>>::empty());
    while i < lines.len()
        invariant
            i <= lines.len(),
            ls == lines.deep_view(),
            ls == lines_of(text@),
            lines.len() <= i32::MAX,
            fs == (|l: Seq<char>| staged_line(l)),
            fu == (|l: Seq<char>| unstaged_line(l)),
            ft == (|l: Seq<char>| untracked_line(l)),
            staged == count_lines(ls.take(i as int), fs),
            unstaged == count_lines(ls.take(i as int), fu),
            untracked == count_lines(ls.take(i as int), ft),
            staged <= i,
            unstaged <= i,
            untracked <= i,
        decreases lines.len() - i,
    {
        let line = lines[i].as_str();
        let cs = crate::text::chars_of(line);
        proof {
            assert(ls.take(i + 1).drop_last() =~= ls.take(i as int));
            assert(ls.take(i + 1).last() == line@);
            assert(count_lines(ls.take(i + 1), fs) == count_lines(ls.take(i as int), fs) + if fs(
                line@,
            ) {
                1nat
            } else {
                0nat
            });
            assert(count_lines(ls.take(i + 1), fu) == count_lines(ls.take(i as int), fu) + if fu(
                line@,
            ) {
                1nat
            } else {
                0nat
            });
            assert(count_lines(ls.take(i + 1), ft) == count_lines(ls.take(i as int), ft) + if ft(
                line@,
            ) {
                1nat
            } else {
                0nat
            });
            assert(fs(line@) == staged_line(line@));
            assert(fu(line@) == unstaged_line(line@));
            assert(ft(line@) == untracked_line(line@));
            assert(line@ == cs@);
        }
        if cs.len() >= 2 {
            let index = cs[0];
            let worktree = cs[1];
            if index == '?' {
                untracked = untracked + 1;
            } else {
                if index != ' ' {
                    staged = staged + 1;
                }
                if worktree != ' ' {
                    unstaged = unstaged + 1;
                }
            }
        }
        i = i + 1;
    }
    assert(ls.take(lines.len() as int) =~= ls);
    WorktreeStatus {
        has_changes: staged > 0 || unstaged > 0 || untracked > 0,
        staged,
        unstaged,
        untracked,
    }
}

/// A line that starts a block of the worktree listing.
pub open spec fn worktree_line(l: Seq<char>) -> bool {
    seq_starts_with(l, "worktree "@)
}

/// How many blocks the lines open.
pub open spec fn block_count(lines: Seq<Seq<char>>) -> nat {
    count_lines(lines, |l: Seq<char>| worktree_line(l))
}

/// Whether the block with index `k` holds a `bare` line.
pub open spec fn block_has_bare(lines: Seq<Seq<char>>, k: int) -> bool {
    exists|j: int|
        0 <= j < lines.len() && lines[j] == "bare"@ && #[trigger] block_count(lines.take(j + 1))
            == k + 1
}

proof fn lemma_count_prefix(lines: Seq<Seq<char>>, i: int, f: spec_fn(Seq<char>) -> bool)
    requires
        0 <= i <= lines.len(),
    ensures
        count_lines(lines.take(i), f) <= count_lines(lines, f),
    decreases lines.len(),
{
    if i < lines.len() {
        lemma_count_prefix(lines.drop_last(), i, f);
        assert(lines.drop_last().take(i) =~= lines.take(i));
    } else {
        assert(lines.take(i) =~= lines);
    }
}

pub(crate) proof fn lemma_fold_shape(lines: Seq<Seq<char>>)
    ensures
        ({
            let st = listing_fold(lines);
            &&& st.done.len() + (if st.path is Some { 1int } else { 0int }) == block_count(lines)
            &&& st.path is None ==> st.done.len() == 0
            &&& block_count(lines) > 0 ==> st.path is Some
            &&& forall|k: int| 0 <= k < st.done.len() ==> (#[trigger] st.done[k].is_main <==> k == 0)
            &&& forall|k: int|
                0 <= k < st.done.len() ==> (#[trigger] st.done[k].is_bare <==> block_has_bare(
                    lines,
                    k,
                ))
            &&& st.bare <==> block_has_bare(lines, block_count(lines) - 1)
        }),
    decreases lines.len(),
{
    let f = |l: Seq<char>| worktree_line(l);
    if lines.len() == 0 {
        assert(!block_has_bare(lines, -1));
    } else {
        let prev = lines.drop_last();
        let line = lines.last();
        let m = prev.len() as int;
        lemma_fold_shape(prev);
        let st = listing_fold(prev);
        let st2 = listing_fold(lines);
        assert(block_count(lines) == block_count(prev) + if f(line) { 1nat } else { 0nat });
        assert forall|j: int| 0 <= j < m implies #[trigger] lines.take(j + 1) == prev.take(j + 1) by {
            assert(lines.take(j + 1) =~= prev.take(j + 1));
        }
        assert(lines.take(m + 1) =~= lines);
        assert forall|j: int| 0 <= j < m implies #[trigger] block_count(prev.take(j + 1)) <= block_count(
            prev,
        ) by {
            lemma_count_prefix(prev, j + 1, f);
        }
        // How the witnesses over `lines` relate to those over `prev`.
        assert forall|k: int| #[trigger] block_has_bare(lines, k) <==> (block_has_bare(prev, k) || (
        line == "bare"@ && block_count(lines) == k + 1)) by {
            if block_has_bare(lines, k) {
                let j = choose|j: int|
                    0 <= j < lines.len() && lines[j] == "bare"@ && #[trigger] block_count(
                        lines.take(j + 1),
                    ) == k + 1;
                if j < m {
                    assert(prev[j] == lines[j]);
                    assert(block_count(prev.take(j + 1)) == k + 1);
                }
            }
            if block_has_bare(prev, k) {
                let j = choose|j: int|
                    0 <= j < prev.len() && prev[j] == "bare"@ && #[trigger] block_count(
                        prev.take(j + 1),
                    ) == k + 1;
                assert(lines[j] == prev[j]);
                assert(block_count(lines.take(j + 1)) == k + 1);
            }
            if line == "bare"@ && block_count(lines) == k + 1 {
                assert(lines[m] == line);
                assert(block_count(lines.take(m + 1)) == k + 1);
            }
        }
        if seq_starts_with(line, "worktree "@) {
            assert(!block_has_bare(prev, block_count(prev) as int)) by {
                if block_has_bare(prev, block_count(prev) as int) {
                    let j = choose|j: int|
                        0 <= j < prev.len() && prev[j] == "bare"@ && #[trigger] block_count(
                            prev.take(j + 1),
                        ) == block_count(prev) + 1;
                    assert(block_count(prev.take(j + 1)) <= block_count(prev));
                }
            }
            assert(line != "bare"@) by {
                reveal_strlit("worktree ");
                reveal_strlit("bare");
                if line == "bare"@ {
                    assert(line.take(9)[4] == ' ');
                }
            }
            assert(st2.done == flushed(st));
            if st.path is Some {
                assert(st2.done == st.done.push(
                    WorktreeView {
                        path: st.path->Some_0,
                        branch: match st.branch {
                            Some(b) => b,
                            None => Seq::empty(),
                        },
                        is_main: st.done.len() == 0,
                        is_bare: st.bare,
                    },
                ));
                assert forall|k: int| 0 <= k < st2.done.len() implies (#[trigger] st2.done[k].is_bare
                    <==> block_has_bare(lines, k)) by {
                    if k < st.done.len() {
                        assert(st2.done[k] == st.done[k]);
                    }
                }
                assert forall|k: int| 0 <= k < st2.done.len() implies (#[trigger] st2.done[k].is_main
                    <==> k == 0) by {
                    if k < st.done.len() {
                        assert(st2.done[k] == st.done[k]);
                    }
                }
            } else {
                assert(st2.done.len() == 0);
            }
        } else if seq_starts_with(line, "branch "@) {
            assert(line != "bare"@) by {
                reveal_strlit("branch ");
                reveal_strlit("bare");
                if line == "bare"@ {
                    assert(line.take(7)[4] == ' ');
                }
            }
        }
    }
}

/// A listing with N blocks gives exactly N records; the first is the primary
/// worktree and no other is.
pub proof fn lemma_one_record_per_block(text: Seq<char>)
    ensures
        listing_records(text).len() == block_count(lines_of(text)),
        forall|k: int|
            0 <= k < listing_records(text).len() ==> (#[trigger] listing_records(text)[k].is_main
                <==> k == 0),
{
    lemma_fold_shape(lines_of(text));
}

/// A record is bare exactly when its own block, from its `worktree` line up
/// to the next one, holds a line that is exactly `bare`.
pub proof fn lemma_bare_belongs_to_its_block(text: Seq<char>)
    ensures
        forall|k: int|
            0 <= k < listing_records(text).len() ==> (#[trigger] listing_records(text)[k].is_bare
                <==> block_has_bare(lines_of(text), k)),
{
    lemma_fold_shape(lines_of(text));
}

} // verus!
