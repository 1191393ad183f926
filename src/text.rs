//! Character-level helpers shared by the parsers: line splitting in the manner
//! of `str::lines`, prefix tests, substring extraction and whitespace trimming.
use vstd::prelude::*;

verus! {

/// The pieces of `s` between newline characters. There is always at least one
/// piece; a text that ends in a newline ends with an empty piece.
pub open spec fn nl_pieces(s: Seq<char>) -> Seq<Seq<char>>
    decreases s.len(),
{
    if s.len() == 0 {
        seq![Seq::<char>::empty()]
    } else {
        let p = nl_pieces(s.drop_last());
        if s.last() == '\n' {
            p.push(Seq::<char>::empty())
        } else {
            p.update(p.len() - 1, p.last().push(s.last()))
        }
    }
}

/// A line without the carriage return that preceded its newline, if any.
pub open spec fn strip_cr(l: Seq<char>) -> Seq<char> {
    if l.len() > 0 && l.last() == '\r' {
        l.drop_last()
    } else {
        l
    }
}

/// The lines of `s`, as `str::lines` yields them: split at `\n` or `\r\n`,
/// terminators removed, and no empty line after a final terminator.
pub open spec fn lines_of(s: Seq<char>) -> Seq<Seq<char>> {
    let p = nl_pieces(s);
    let done = p.drop_last().map_values(|l: Seq<char>| strip_cr(l));
    if p.last().len() == 0 {
        done
    } else {
        done.push(p.last())
    }
}

pub open spec fn seq_starts_with(s: Seq<char>, p: Seq<char>) -> bool {
    p.len() <= s.len() && s.take(p.len() as int) == p
}

pub open spec fn seq_ends_with(s: Seq<char>, p: Seq<char>) -> bool {
    p.len() <= s.len() && s.skip(s.len() - p.len()) == p
}

/// Whether `p` occurs in `s` as a contiguous run.
pub open spec fn seq_contains(s: Seq<char>, p: Seq<char>) -> bool {
    exists|i: int| 0 <= i <= s.len() - p.len() && #[trigger] s.subrange(i, i + p.len()) == p
}

/// The characters that `char::is_whitespace` accepts (Unicode `White_Space`).
pub open spec fn is_white(c: char) -> bool {
    ||| c == ' '
    ||| ('\t' <= c && c <= '\r')
    ||| c == '\u{85}'
    ||| c == '\u{A0}'
    ||| c == '\u{1680}'
    ||| ('\u{2000}' <= c && c <= '\u{200A}')
    ||| c == '\u{2028}'
    ||| c == '\u{2029}'
    ||| c == '\u{202F}'
    ||| c == '\u{205F}'
    ||| c == '\u{3000}'
}

/// `s` without leading whitespace.
pub open spec fn trim_front(s: Seq<char>) -> Seq<char>
    decreases s.len(),
{
    if s.len() > 0 && is_white(s[0]) {
        trim_front(s.drop_first())
    } else {
        s
    }
}

/// `s` without trailing whitespace.
pub open spec fn trim_back(s: Seq<char>) -> Seq<char>
    decreases s.len(),
{
    if s.len() > 0 && is_white(s.last()) {
        trim_back(s.drop_last())
    } else {
        s
    }
}

/// `s` without leading and trailing whitespace, as `str::trim` gives it.
pub open spec fn trimmed(s: Seq<char>) -> Seq<char> {
    trim_back(trim_front(s))
}

/// Whether `c` is whitespace, as `char::is_whitespace` decides.
pub fn is_whitespace_char(c: char) -> (r: bool)
    ensures
        r == is_white(c),
{
    c == ' ' || ('\t' <= c && c <= '\r') || c == '\u{85}' || c == '\u{A0}' || c == '\u{1680}'
        || ('\u{2000}' <= c && c <= '\u{200A}') || c == '\u{2028}' || c == '\u{2029}' || c
        == '\u{202F}' || c == '\u{205F}' || c == '\u{3000}'
}

/// The characters of `s`, in order.
pub fn chars_of(s: &str) -> (r: Vec<char>)
    ensures
        r@ == s@,
{
    let mut out: Vec<char> = Vec::new();
    for c in it: s.chars()
        invariant
            it.seq() == s@,
            out@ == it.seq().take(it.index() as int),
    {
        out.push(c);
    }
    out
}

/// The characters of `s` from index `from` (counted in characters) to `to`.
pub fn substring(s: &str, from: usize, to: usize) -> (r: String)
    requires
        from <= to <= s@.len(),
    ensures
        r@ == s@.subrange(from as int, to as int),
{
    String::from_str(s.substring_char(from, to))
}

/// Whether the characters `cs[start..end]` begin with `prefix`.
pub fn has_prefix_at(cs: &Vec<char>, start: usize, end: usize, prefix: &str) -> (r: bool)
    requires
        start <= end <= cs@.len(),
    ensures
        r == seq_starts_with(cs@.subrange(start as int, end as int), prefix@),
{
    let pc = chars_of(prefix);
    let pl = pc.len();
    if pl > end - start {
        return false;
    }
    let mut j: usize = 0;
    while j < pl
        invariant
            j <= pl,
            pl <= end - start,
            start <= end <= cs@.len(),
            pc@ == prefix@,
            pl == pc@.len(),
            forall|k: int| 0 <= k < j ==> cs@[start + k] == pc@[k],
        decreases pl - j,
    {
        if cs[start + j] != pc[j] {
            assert(cs@.subrange(start as int, end as int).take(pl as int)[j as int] != prefix@[j as int]);
            return false;
        }
        j = j + 1;
    }
    assert(cs@.subrange(start as int, end as int).take(pl as int) =~= prefix@);
    true
}

/// Whether `s` begins with `prefix`.
pub fn starts_with(s: &str, prefix: &str) -> (r: bool)
    ensures
        r == seq_starts_with(s@, prefix@),
{
    let cs = chars_of(s);
    assert(cs@.subrange(0, cs@.len() as int) =~= cs@);
    has_prefix_at(&cs, 0, cs.len(), prefix)
}

/// Whether `s` ends with `suffix`.
pub fn ends_with(s: &str, suffix: &str) -> (r: bool)
    ensures
        r == seq_ends_with(s@, suffix@),
{
    let cs = chars_of(s);
    let n = cs.len();
    let pl = suffix.unicode_len();
    if pl > n {
        return false;
    }
    let r = has_prefix_at(&cs, n - pl, n, suffix);
    proof {
        let t = s@.subrange((n - pl) as int, n as int);
        assert(t.take(pl as int) =~= t);
        assert(s@.skip(s@.len() - suffix@.len()) =~= t);
    }
    r
}

/// Whether `needle` occurs in `s`; on success, the index of its first occurrence.
pub fn find(s: &str, needle: &str) -> (r: Option<usize>)
    ensures
        r is None <==> !seq_contains(s@, needle@),
        r matches Some(i) ==> i + needle@.len() <= s@.len() && s@.subrange(
            i as int,
            i + needle@.len(),
        ) == needle@ && forall|j: int|
            0 <= j < i ==> #[trigger] s@.subrange(j, j + needle@.len()) != needle@,
{
    let cs = chars_of(s);
    let n = cs.len();
    let pl = needle.unicode_len();
    if pl > n {
        return None;
    }
    if pl == 0 {
        assert(s@.subrange(0, 0 + needle@.len() as int) =~= needle@);
        return Some(0);
    }
    let mut i: usize = 0;
    while i < n - pl + 1
        invariant
            1 <= pl <= n,
            cs@ == s@,
            n == s@.len(),
            pl == needle@.len(),
            i <= n - pl + 1,
            forall|j: int| 0 <= j < i ==> #[trigger] s@.subrange(j, j + pl) != needle@,
        decreases n - pl + 1 - i,
    {
        if has_prefix_at(&cs, i, i + pl, needle) {
            proof {
                let t = s@.subrange(i as int, i + pl);
                assert(t.take(pl as int) =~= t);
            }
            return Some(i);
        }
        proof {
            let t = s@.subrange(i as int, i + pl);
            assert(t.take(pl as int) =~= t);
        }
        i = i + 1;
    }
    None
}

/// `s` without leading and trailing whitespace.
pub fn trim(s: &str) -> (r: String)
    ensures
        r@ == trimmed(s@),
{
    let cs = chars_of(s);
    let n = cs.len();
    let mut a: usize = 0;
    assert(s@.skip(0) =~= s@);
    while a < n && is_whitespace_char(cs[a])
        invariant
            a <= n,
            n == s@.len(),
            cs@ == s@,
            trim_front(s@) == trim_front(s@.skip(a as int)),
        decreases n - a,
    {
        assert(s@.skip(a as int).drop_first() =~= s@.skip(a + 1));
        a = a + 1;
    }
    let mut b: usize = n;
    assert(s@.skip(a as int) =~= s@.subrange(a as int, n as int));
    while b > a && is_whitespace_char(cs[b - 1])
        invariant
            a <= b <= n,
            n == s@.len(),
            cs@ == s@,
            trim_back(s@.subrange(a as int, n as int)) == trim_back(s@.subrange(a as int, b as int)),
        decreases b,
    {
        assert(s@.subrange(a as int, b as int).drop_last() =~= s@.subrange(a as int, b - 1));
        b = b - 1;
    }
    substring(s, a, b)
}

/// The lines of `s`, as `str::lines` yields them.
pub fn split_lines(s: &str) -> (r: Vec<String>)
    ensures
        r.deep_view() == lines_of(s@),
{
    let cs = chars_of(s);
    let n = cs.len();
    let mut out: Vec<String> = Vec::new();
    let mut start: usize = 0;
    let mut i: usize = 0;
    proof {
        assert(s@.take(0) =~= Seq::<char>::empty());
        assert(out.deep_view() =~= nl_pieces(s@.take(0)).drop_last().map_values(
            |l: Seq<char>| strip_cr(l),
        ));
        assert(s@.subrange(0, 0) =~= Seq::<char>::empty());
    }
    while i < n
        invariant
            start <= i <= n,
            n == s@.len(),
            cs@ == s@,
            nl_pieces(s@.take(i as int)).len() >= 1,
            out.deep_view() == nl_pieces(s@.take(i as int)).drop_last().map_values(
                |l: Seq<char>| strip_cr(l),
            ),
            nl_pieces(s@.take(i as int)).last() == s@.subrange(start as int, i as int),
        decreases n - i,
    {
        let ghost old_p = nl_pieces(s@.take(i as int));
        let ghost old_out = out.deep_view();
        proof {
            assert(s@.take(i + 1).drop_last() =~= s@.take(i as int));
            assert(s@.take(i + 1).last() == s@[i as int]);
        }
        if cs[i] == '\n' {
            let end = if i > start && cs[i - 1] == '\r' {
                i - 1
            } else {
                i
            };
            let line = substring(s, start, end);
            out.push(line);
            proof {
                let piece = s@.subrange(start as int, i as int);
                if i > start && s@[i - 1] == '\r' {
                    assert(piece.drop_last() =~= s@.subrange(start as int, end as int));
                }
                assert(strip_cr(piece) == line@);
                let np = nl_pieces(s@.take(i + 1));
                assert(np == old_p.push(Seq::<char>::empty()));
                assert(np.drop_last() =~= old_p);
                assert(out.deep_view() =~= old_out.push(line@));
                assert(old_p.map_values(|l: Seq<char>| strip_cr(l)) =~= old_p.drop_last().map_values(
                    |l: Seq<char>| strip_cr(l),
                ).push(strip_cr(old_p.last())));
                assert(out.deep_view() =~= np.drop_last().map_values(|l: Seq<char>| strip_cr(l)));
                assert(s@.subrange(i + 1, i + 1) =~= Seq::<char>::empty());
            }
            start = i + 1;
        } else {
            proof {
                let np = nl_pieces(s@.take(i + 1));
                assert(np == old_p.update(old_p.len() - 1, old_p.last().push(s@[i as int])));
                assert(np.drop_last() =~= old_p.drop_last());
                assert(s@.subrange(start as int, i + 1) =~= s@.subrange(start as int, i as int).push(
                    s@[i as int],
                ));
            }
        }
        i = i + 1;
    }
    proof {
        assert(s@.take(n as int) =~= s@);
    }
    if start < n {
        let ghost before = out.deep_view();
        let line = substring(s, start, n);
        out.push(line);
        proof {
            let p = nl_pieces(s@);
            assert(out.deep_view() =~= before.push(line@));
            assert(out.deep_view() =~= p.drop_last().map_values(|l: Seq<char>| strip_cr(l)).push(
                p.last(),
            ));
        }
    }
    out
}

/// `s` without `prefix`, if `s` begins with it.
pub fn strip_prefix(s: &str, prefix: &str) -> (r: Option<String>)
    ensures
        r is Some <==> seq_starts_with(s@, prefix@),
        r matches Some(x) ==> x@ == s@.skip(prefix@.len() as int),
{
    if starts_with(s, prefix) {
        let k = prefix.unicode_len();
        let n = s.unicode_len();
        let r = substring(s, k, n);
        assert(r@ =~= s@.skip(prefix@.len() as int));
        Some(r)
    } else {
        None
    }
}

/// `s` without `suffix`, if `s` ends with it.
pub fn strip_suffix(s: &str, suffix: &str) -> (r: Option<String>)
    ensures
        r is Some <==> seq_ends_with(s@, suffix@),
        r matches Some(x) ==> x@ == s@.take(s@.len() - suffix@.len()),
{
    if ends_with(s, suffix) {
        let k = suffix.unicode_len();
        let n = s.unicode_len();
        let r = substring(s, 0, n - k);
        assert(r@ =~= s@.take(s@.len() - suffix@.len()));
        Some(r)
    } else {
        None
    }
}

/// Whether `a` and `b` hold the same characters.
pub fn same_text(a: &str, b: &str) -> (r: bool)
    ensures
        r == (a@ == b@),
{
    if a.unicode_len() != b.unicode_len() {
        return false;
    }
    let r = starts_with(a, b);
    assert(a@.take(b@.len() as int) =~= a@);
    r
}

proof fn lemma_nl_pieces_len(s: Seq<char>)
    ensures
        1 <= nl_pieces(s).len() <= s.len() + 1,
    decreases s.len(),
{
    if s.len() > 0 {
        lemma_nl_pieces_len(s.drop_last());
    }
}

/// A text has no more lines than characters, plus one.
pub proof fn lemma_lines_len(s: Seq<char>)
    ensures
        lines_of(s).len() <= s.len() + 1,
{
    lemma_nl_pieces_len(s);
}

/// The pieces of `s` between occurrences of `sep`, as `str::split` yields them.
pub open spec fn pieces(s: Seq<char>, sep: char) -> Seq<Seq<char>>
    decreases s.len(),
{
    if s.len() == 0 {
        seq![Seq::<char>::empty()]
    } else {
        let p = pieces(s.drop_last(), sep);
        if s.last() == sep {
            p.push(Seq::<char>::empty())
        } else {
            p.update(p.len() - 1, p.last().push(s.last()))
        }
    }
}

/// Splits `s` at every occurrence of `sep`.
pub fn split_char(s: &str, sep: char) -> (r: Vec<String>)
    ensures
        r.deep_view() == pieces(s@, sep),
{
    let cs = chars_of(s);
    let n = cs.len();
    let mut out: Vec<String> = Vec::new();
    let mut start: usize = 0;
    let mut i: usize = 0;
    proof {
        assert(s@.take(0) =~= Seq::<char>::empty());
        assert(out.deep_view() =~= pieces(s@.take(0), sep).drop_last());
        assert(s@.subrange(0, 0) =~= Seq::<char>::empty());
    }
    while i < n
        invariant
            start <= i <= n,
            n == s@.len(),
            cs@ == s@,
            pieces(s@.take(i as int), sep).len() >= 1,
            out.deep_view() == pieces(s@.take(i as int), sep).drop_last(),
            pieces(s@.take(i as int), sep).last() == s@.subrange(start as int, i as int),
        decreases n - i,
    {
        let ghost old_p = pieces(s@.take(i as int), sep);
        let ghost old_out = out.deep_view();
        proof {
            assert(s@.take(i + 1).drop_last() =~= s@.take(i as int));
            assert(s@.take(i + 1).last() == s@[i as int]);
        }
        if cs[i] == sep {
            let piece = substring(s, start, i);
            out.push(piece);
            proof {
                let np = pieces(s@.take(i + 1), sep);
                assert(np.drop_last() =~= old_p);
                assert(out.deep_view() =~= old_out.push(piece@));
                assert(old_p =~= old_p.drop_last().push(old_p.last()));
                assert(s@.subrange(i + 1, i + 1) =~= Seq::<char>::empty());
            }
            start = i + 1;
        } else {
            proof {
                let np = pieces(s@.take(i + 1), sep);
                assert(np.drop_last() =~= old_p.drop_last());
                assert(s@.subrange(start as int, i + 1) =~= s@.subrange(start as int, i as int).push(
                    s@[i as int],
                ));
            }
        }
        i = i + 1;
    }
    proof {
        assert(s@.take(n as int) =~= s@);
    }
    let ghost before = out.deep_view();
    let last = substring(s, start, n);
    out.push(last);
    proof {
        let p = pieces(s@, sep);
        assert(out.deep_view() =~= before.push(last@));
        assert(p =~= p.drop_last().push(p.last()));
    }
    out
}

/// The index of the first occurrence of `p` in `s`, if `p` occurs in it.
pub open spec fn first_occurrence(s: Seq<char>, p: Seq<char>) -> int {
    choose|i: int|
        0 <= i <= s.len() - p.len() && #[trigger] s.subrange(i, i + p.len()) == p && forall|j: int|
            0 <= j < i ==> #[trigger] s.subrange(j, j + p.len()) != p
}

/// The characters of `s` after the first occurrence of `needle`, if it occurs.
pub fn after_first(s: &str, needle: &str) -> (r: Option<String>)
    ensures
        r is Some <==> seq_contains(s@, needle@),
        r matches Some(x) ==> x@ == s@.skip(first_occurrence(s@, needle@) + needle@.len()),
{
    match find(s, needle) {
        Some(i) => {
            let k = needle.unicode_len();
            let n = s.unicode_len();
            proof {
                let f = first_occurrence(s@, needle@);
                assert(s@.subrange(i as int, i + needle@.len()) == needle@);
                assert(exists|j: int|
                    0 <= j <= s@.len() - needle@.len() && #[trigger] s@.subrange(j, j + needle@.len())
                        == needle@ && forall|m: int|
                        0 <= m < j ==> #[trigger] s@.subrange(m, m + needle@.len()) != needle@);
                if f < i {
                    assert(s@.subrange(f, f + needle@.len()) != needle@);
                } else if f > i {
                    assert(s@.subrange(i as int, i + needle@.len()) != needle@);
                }
            }
            let r = substring(s, i + k, n);
            assert(r@ =~= s@.skip(first_occurrence(s@, needle@) + needle@.len()));
            Some(r)
        },
        None => None,
    }
}

proof fn lemma_nl_pieces_concat(a: Seq<char>, b: Seq<char>)
    requires
        a.len() == 0 || a.last() == '\n',
    ensures
        nl_pieces(a + b) == nl_pieces(a).drop_last() + nl_pieces(b),
    decreases b.len(),
{
    lemma_nl_pieces_len(a);
    lemma_nl_pieces_len(b);
    if b.len() == 0 {
        assert(a + b =~= a);
        if a.len() > 0 {
            assert(nl_pieces(a) == nl_pieces(a.drop_last()).push(Seq::<char>::empty()));
        }
        assert(nl_pieces(a) =~= nl_pieces(a).drop_last() + nl_pieces(b));
    } else {
        let b1 = b.drop_last();
        let c = b.last();
        assert((a + b).drop_last() =~= a + b1);
        assert((a + b).last() == c);
        lemma_nl_pieces_concat(a, b1);
        lemma_nl_pieces_len(b1);
        let x = nl_pieces(a).drop_last();
        let y = nl_pieces(b1);
        if c == '\n' {
            assert((x + y).push(Seq::<char>::empty()) =~= x + y.push(Seq::<char>::empty()));
        } else {
            let v = y.last().push(c);
            assert((x + y).last() == y.last());
            assert((x + y).update((x + y).len() - 1, v) =~= x + y.update(y.len() - 1, v));
        }
    }
}

/// Splitting a text just after a newline splits its lines there.
pub proof fn lemma_lines_concat(a: Seq<char>, b: Seq<char>)
    requires
        a.len() == 0 || a.last() == '\n',
    ensures
        lines_of(a + b) == lines_of(a) + lines_of(b),
{
    lemma_nl_pieces_concat(a, b);
    lemma_nl_pieces_len(a);
    lemma_nl_pieces_len(b);
    let pa = nl_pieces(a);
    let pb = nl_pieces(b);
    if a.len() > 0 {
        assert(pa == nl_pieces(a.drop_last()).push(Seq::<char>::empty()));
    }
    assert(pa.last().len() == 0);
    let p = nl_pieces(a + b);
    assert(p.last() == pb.last());
    assert(p.drop_last() =~= pa.drop_last() + pb.drop_last());
    assert(p.drop_last().map_values(|l: Seq<char>| strip_cr(l)) =~= pa.drop_last().map_values(
        |l: Seq<char>| strip_cr(l),
    ) + pb.drop_last().map_values(|l: Seq<char>| strip_cr(l)));
    if pb.last().len() == 0 {
    } else {
        assert(lines_of(a + b) =~= lines_of(a) + lines_of(b));
    }
}

/// A text with no line-break characters.
pub open spec fn no_breaks(s: Seq<char>) -> bool {
    forall|i: int| 0 <= i < s.len() ==> #[trigger] s[i] != '\n' && s[i] != '\r'
}

proof fn lemma_nl_pieces_single(s: Seq<char>)
    requires
        forall|i: int| 0 <= i < s.len() ==> #[trigger] s[i] != '\n',
    ensures
        nl_pieces(s) == seq![s],
    decreases s.len(),
{
    if s.len() > 0 {
        lemma_nl_pieces_single(s.drop_last());
        assert(s.drop_last().push(s.last()) =~= s);
    } else {
        assert(s =~= Seq::<char>::empty());
    }
}

/// A line with no line breaks, followed by a newline, is that one line.
pub proof fn lemma_one_line(s: Seq<char>)
    requires
        no_breaks(s),
    ensures
        lines_of(s.push('\n')) == seq![s],
{
    lemma_nl_pieces_single(s);
    assert(s.push('\n').drop_last() =~= s);
    let p = nl_pieces(s.push('\n'));
    assert(p == seq![s].push(Seq::<char>::empty()));
    assert(p.drop_last() =~= seq![s]);
    if s.len() > 0 {
        assert(s.last() != '\r');
    }
    assert(p.drop_last().map_values(|l: Seq<char>| strip_cr(l)) =~= seq![s]);
}

} // verus!
