//! Multi-line description editor that detects links in its text.
use vstd::prelude::*;
use crate::text::{is_ws, is_whitespace, chars_of, string_of, string_of_range, occurs_at, matches_at, sub_chars, append_chars};
use crate::ui::input::{word_left, word_right, find_word_left, find_word_right, remove_range};
use crate::keys::{KeyCode, KeyEvent};

verus! {

/// The pieces of `s` between `'\n'` characters (one more piece than there are newlines).
pub open spec fn split_nl(s: Seq<char>) -> Seq<Seq<char>>
    decreases s.len(),
{
    if s.len() == 0 {
        seq![Seq::<char>::empty()]
    } else {
        let p = split_nl(s.drop_last());
        if s.last() == '\n' {
            p.push(Seq::<char>::empty())
        } else {
            p.update(p.len() - 1, p.last().push(s.last()))
        }
    }
}

pub proof fn lemma_split_nl_len(s: Seq<char>)
    ensures
        split_nl(s).len() >= 1,
    decreases s.len(),
{
    if s.len() > 0 {
        lemma_split_nl_len(s.drop_last());
    }
}

/// `l` without one trailing carriage return.
pub open spec fn strip_cr(l: Seq<char>) -> Seq<char> {
    if l.len() > 0 && l.last() == '\r' {
        l.drop_last()
    } else {
        l
    }
}

/// The lines of `s` as `str::lines` gives them: split at `'\n'`, a `'\r'`
/// before a `'\n'` removed, no empty line after a final `'\n'`; the empty
/// text has one empty line.
pub open spec fn lines_of(s: Seq<char>) -> Seq<Seq<char>> {
    if s.len() == 0 {
        seq![Seq::<char>::empty()]
    } else {
        let p = split_nl(s);
        let n: int = if s.last() == '\n' { p.len() - 1 } else { p.len() as int };
        Seq::new(n as nat, |i: int| if i < p.len() - 1 { strip_cr(p[i]) } else { p[i] })
    }
}

/// The lines joined with `'\n'`.
pub open spec fn join_lines(ls: Seq<Seq<char>>) -> Seq<char>
    decreases ls.len(),
{
    if ls.len() == 0 {
        Seq::<char>::empty()
    } else if ls.len() == 1 {
        ls[0]
    } else {
        join_lines(ls.drop_last()) + seq!['\n'] + ls.last()
    }
}


/// Joining the pieces between newlines gives the text back.
proof fn lemma_join_split_nl(s: Seq<char>)
    ensures
        join_lines(split_nl(s)) == s,
    decreases s.len(),
{
    if s.len() > 0 {
        let p = split_nl(s.drop_last());
        lemma_join_split_nl(s.drop_last());
        lemma_split_nl_len(s.drop_last());
        if s.last() == '\n' {
            let q = p.push(Seq::<char>::empty());
            assert(q.drop_last() =~= p);
            assert(join_lines(q) =~= s);
        } else {
            let q = p.update(p.len() - 1, p.last().push(s.last()));
            assert(s =~= s.drop_last().push(s.last()));
            if p.len() == 1 {
                assert(join_lines(q) == q[0]);
                assert(join_lines(q) =~= s);
            } else {
                assert(q.drop_last() =~= p.drop_last());
                assert(q.last() == p.last().push(s.last()));
                assert(join_lines(q) == join_lines(p.drop_last()) + seq!['\n'] + p.last().push(s.last()));
                assert(join_lines(p) == join_lines(p.drop_last()) + seq!['\n'] + p.last());
                assert(join_lines(q) =~= join_lines(p).push(s.last()));
            }
        }
    }
}

/// The pieces of a text without carriage returns hold none.
proof fn lemma_split_nl_no_cr(s: Seq<char>)
    requires
        forall|k: int| 0 <= k < s.len() ==> s[k] != '\r',
    ensures
        forall|i: int, j: int|
            0 <= i < split_nl(s).len() && 0 <= j < split_nl(s)[i].len() ==> split_nl(s)[i][j] != '\r',
    decreases s.len(),
{
    if s.len() > 0 {
        lemma_split_nl_no_cr(s.drop_last());
        lemma_split_nl_len(s.drop_last());
    }
}

/// A text without carriage returns and without a final newline reads back
/// unchanged from its lines: setting a description and reading it gives it back.
pub proof fn law_text_round_trip(s: Seq<char>)
    requires
        forall|k: int| 0 <= k < s.len() ==> s[k] != '\r',
        s.len() == 0 || s.last() != '\n',
    ensures
        join_lines(lines_of(s)) == s,
{
    if s.len() > 0 {
        let p = split_nl(s);
        lemma_split_nl_len(s);
        lemma_split_nl_no_cr(s);
        assert forall|i: int| 0 <= i < p.len() implies strip_cr(p[i]) == p[i] by {
            if p[i].len() > 0 {
                assert(p[i][p[i].len() - 1] != '\r');
            }
        }
        assert(lines_of(s) =~= p);
        lemma_join_split_nl(s);
    }
}

/// Characters that end a link.
pub open spec fn is_url_end(c: char) -> bool {
    is_ws(c) || c == ')' || c == ']' || c == '>' || c == '"' || c == '\''
}

/// The end of a link that starts at `q`: the first link-ending character, or the end of the line.
pub open spec fn url_end_from(l: Seq<char>, q: int) -> int
    decreases l.len() - q,
{
    if q < 0 || q >= l.len() {
        l.len() as int
    } else if is_url_end(l[q]) {
        q
    } else {
        url_end_from(l, q + 1)
    }
}

pub open spec fn https_prefix() -> Seq<char> {
    seq!['h', 't', 't', 'p', 's', ':', '/', '/']
}

pub open spec fn http_prefix() -> Seq<char> {
    seq!['h', 't', 't', 'p', ':', '/', '/']
}

/// A link starts at `p`: `https://` or `http://` is written there.
pub open spec fn url_starts(l: Seq<char>, p: int) -> bool {
    occurs_at(l, https_prefix(), p) || occurs_at(l, http_prefix(), p)
}

/// The links of line `l` found scanning from `p`, as `(start, end)` pairs:
/// each starts with `https://` or `http://` and runs to the next
/// link-ending character; scanning resumes after each link.
pub open spec fn scan_links(l: Seq<char>, p: int) -> Seq<(int, int)>
    decreases l.len() - p,
{
    if p < 0 || p >= l.len() {
        Seq::<(int, int)>::empty()
    } else if url_starts(l, p) {
        let e = url_end_from(l, p);
        if p < e <= l.len() {
            seq![(p, e)] + scan_links(l, e)
        } else {
            Seq::<(int, int)>::empty()
        }
    } else {
        scan_links(l, p + 1)
    }
}

/// The links of the first `k` lines, as `(line, start, end)` triples in reading order.
pub open spec fn links_upto(ls: Seq<Seq<char>>, k: int) -> Seq<(int, int, int)>
    decreases k,
{
    if k <= 0 {
        Seq::<(int, int, int)>::empty()
    } else {
        links_upto(ls, k - 1) + scan_links(ls[k - 1], 0).map_values(
            |x: (int, int)| (k - 1, x.0, x.1),
        )
    }
}

/// All links of the lines `ls`.
pub open spec fn links_of(ls: Seq<Seq<char>>) -> Seq<(int, int, int)> {
    links_upto(ls, ls.len() as int)
}

/// A link found in the text: its URL and where it lies.
#[derive(Debug, Clone)]
pub struct LinkSpan {
    pub url: String,
    pub line: usize,
    pub start: usize,
    pub end: usize,
}

/// `s` records the link `line[start..end]` of line number `line`.
pub open spec fn span_is(s: LinkSpan, line: int, start: int, end: int, text: Seq<char>) -> bool {
    &&& s.line == line
    &&& s.start == start
    &&& s.end == end
    &&& 0 <= start <= end <= text.len()
    &&& s.url@ == text.subrange(start, end)
}

/// What the text area asks its dialog to do after a key.
#[derive(Debug, Clone, PartialEq, Eq)]
pub enum TextAreaAction {
    Nothing,
    OpenLink(String),
    NextField,
    PrevField,
}

/// A multi-line text editor. `lines` is never empty; the cursor is a
/// (line, column) position inside it; `links` lists the links of the text.
#[derive(Debug, Clone)]
pub struct DescriptionTextArea {
    pub lines: Vec<Vec<char>>,
    pub cursor_row: usize,
    pub cursor_col: usize,
    pub links: Vec<LinkSpan>,
    pub scroll_offset: usize,
}

/// Executable [`url_end_from`].
fn find_url_end(l: &Vec<char>, q: usize) -> (r: usize)
    requires
        q <= l.len(),
    ensures
        r == url_end_from(l@, q as int),
        q <= r <= l.len(),
{
    let mut i = q;
    while i < l.len()
        invariant
            q <= i <= l.len(),
            url_end_from(l@, i as int) == url_end_from(l@, q as int),
        decreases l.len() - i,
    {
        let c = l[i];
        if is_whitespace(c) || c == ')' || c == ']' || c == '>' || c == '"' || c == '\'' {
            return i;
        }
        i = i + 1;
    }
    i
}

/// The links of one line (executable [`scan_links`] from 0), tagged with line `idx`.
fn line_links(l: &Vec<char>, idx: usize, out: &mut Vec<LinkSpan>)
    ensures
        final(out)@.len() == old(out)@.len() + scan_links(l@, 0).len(),
        forall|i: int| 0 <= i < old(out)@.len() ==> final(out)@[i] == old(out)@[i],
        forall|i: int|
            0 <= i < scan_links(l@, 0).len() ==> span_is(
                final(out)@[old(out)@.len() + i],
                idx as int,
                (#[trigger] scan_links(l@, 0)[i]).0,
                scan_links(l@, 0)[i].1,
                l@,
            ),
{
    let https: Vec<char> = vec!['h', 't', 't', 'p', 's', ':', '/', '/'];
    let http: Vec<char> = vec!['h', 't', 't', 'p', ':', '/', '/'];
    assert(https@ == https_prefix());
    assert(http@ == http_prefix());
    let ghost base = out@.len();
    let ghost orig = out@;
    let mut p: usize = 0;
    let ghost mut found: Seq<(int, int)> = Seq::empty();
    while p < l.len()
        invariant
            https@ == https_prefix(),
            http@ == http_prefix(),
            p <= l.len(),
            scan_links(l@, 0) == found + scan_links(l@, p as int),
            out@.len() == base + found.len(),
            forall|i: int| 0 <= i < base ==> out@[i] == orig[i],
            forall|i: int|
                0 <= i < found.len() ==> span_is(
                    out@[base + i],
                    idx as int,
                    (#[trigger] found[i]).0,
                    found[i].1,
                    l@,
                ),
        decreases l.len() - p,
    {
        if matches_at(l, &https, p) || matches_at(l, &http, p) {
            let e = find_url_end(l, p);
            if e > p {
                let url = string_of_range(l, p, e);
                let ghost prev_out = out@;
                out.push(LinkSpan { url, line: idx, start: p, end: e });
                proof {
                    assert forall|i: int| 0 <= i < base implies out@[i] == orig[i] by {
                        assert(out@[i] == prev_out[i]);
                    }
                    let nf = found.push((p as int, e as int));
                    assert forall|i: int|
                        0 <= i < nf.len() implies span_is(
                            out@[base + i],
                            idx as int,
                            (#[trigger] nf[i]).0,
                            nf[i].1,
                            l@,
                        ) by {
                        if i < found.len() {
                            assert(nf[i] == found[i]);
                            assert(out@[base + i] == prev_out[base + i]);
                        } else {
                            assert(nf[i] == (p as int, e as int));
                        }
                    }
                    assert(scan_links(l@, p as int) == seq![(p as int, e as int)] + scan_links(
                        l@,
                        e as int,
                    ));
                    found = nf;
                    assert(scan_links(l@, 0) =~= found + scan_links(l@, e as int));
                }
                p = e;
            } else {
                proof {
                    assert(scan_links(l@, p as int) == Seq::<(int, int)>::empty());
                    assert(scan_links(l@, l@.len() as int) == Seq::<(int, int)>::empty());
                }
                p = l.len();
            }
        } else {
            p = p + 1;
        }
    }
    assert(scan_links(l@, p as int) == Seq::<(int, int)>::empty());
    assert(scan_links(l@, 0) =~= found);
    assert forall|i: int|
        0 <= i < scan_links(l@, 0).len() implies span_is(
            out@[base + i],
            idx as int,
            (#[trigger] scan_links(l@, 0)[i]).0,
            scan_links(l@, 0)[i].1,
            l@,
        ) by {
        assert(scan_links(l@, 0)[i] == found[i]);
    }
}

/// The character sequences held by a vector of lines.
pub open spec fn view_lines(v: Seq<Vec<char>>) -> Seq<Seq<char>> {
    v.map_values(|l: Vec<char>| l@)
}

/// `l` without one trailing carriage return (executable [`strip_cr`]).
fn strip_cr_vec(l: Vec<char>) -> (r: Vec<char>)
    ensures
        r@ == strip_cr(l@),
{
    let n = l.len();
    if n > 0 && l[n - 1] == '\r' {
        sub_chars(&l, 0, n - 1)
    } else {
        l
    }
}

/// Splits a text into its lines, as [`lines_of`] states.
pub fn split_lines(v: &Vec<char>) -> (r: Vec<Vec<char>>)
    ensures
        view_lines(r@) == lines_of(v@),
        r@.len() >= 1,
{
    let n = v.len();
    if n == 0 {
        let mut r: Vec<Vec<char>> = Vec::new();
        r.push(Vec::new());
        assert(view_lines(r@) =~= lines_of(v@));
        return r;
    }
    let mut done: Vec<Vec<char>> = Vec::new();
    let mut cur: Vec<char> = Vec::new();
    let mut i: usize = 0;
    proof {
        assert(v@.take(0) =~= Seq::<char>::empty());
    }
    while i < n
        invariant
            n == v@.len(),
            i <= n,
            split_nl(v@.take(i as int)).len() >= 1,
            cur@ == split_nl(v@.take(i as int)).last(),
            view_lines(done@) =~= Seq::new(
                (split_nl(v@.take(i as int)).len() - 1) as nat,
                |k: int| strip_cr(split_nl(v@.take(i as int))[k]),
            ),
        decreases n - i,
    {
        let ghost raw = split_nl(v@.take(i as int));
        let c = v[i];
        proof {
            assert(v@.take(i + 1).drop_last() =~= v@.take(i as int));
            assert(v@.take(i + 1).last() == c);
        }
        if c == '\n' {
            let line = strip_cr_vec(cur);
            let ghost old_view = view_lines(done@);
            done.push(line);
            proof {
                assert(view_lines(done@) =~= old_view.push(strip_cr(raw.last())));
            }
            cur = Vec::new();
            proof {
                let raw2 = split_nl(v@.take(i + 1));
                assert(raw2 == raw.push(Seq::<char>::empty()));
                assert(view_lines(done@) =~= Seq::new(
                    (raw2.len() - 1) as nat,
                    |k: int| strip_cr(raw2[k]),
                ));
            }
        } else {
            cur.push(c);
            proof {
                let raw2 = split_nl(v@.take(i + 1));
                assert(raw2 == raw.update(raw.len() - 1, raw.last().push(c)));
                assert(view_lines(done@) =~= Seq::new(
                    (raw2.len() - 1) as nat,
                    |k: int| strip_cr(raw2[k]),
                ));
            }
        }
        i = i + 1;
        proof {
            lemma_split_nl_len(v@.take(i as int));
        }
    }
    proof {
        assert(v@.take(n as int) =~= v@);
    }
    let last = v[n - 1];
    let ghost p = split_nl(v@);
    if last != '\n' {
        let ghost old_view = view_lines(done@);
        done.push(cur);
        proof {
            assert(view_lines(done@) =~= old_view.push(p.last()));
            assert(view_lines(done@) =~= lines_of(v@));
        }
    } else {
        proof {
            assert(v@.drop_last() =~= v@.take(n - 1));
            lemma_split_nl_len(v@.drop_last());
            assert(split_nl(v@) == split_nl(v@.drop_last()).push(Seq::<char>::empty()));
            assert(view_lines(done@) =~= lines_of(v@));
        }
    }
    done
}

impl DescriptionTextArea {
    /// The view of the lines as character sequences.
    pub open spec fn text_lines(&self) -> Seq<Seq<char>> {
        view_lines(self.lines@)
    }

    /// The `links` field lists exactly the links of the text, in reading order.
    pub open spec fn links_match(&self) -> bool {
        let ls = links_of(self.text_lines());
        &&& self.links@.len() == ls.len()
        &&& forall|i: int|
            0 <= i < ls.len() ==> 0 <= (#[trigger] ls[i]).0 < self.text_lines().len() && span_is(
                self.links@[i],
                ls[i].0,
                ls[i].1,
                ls[i].2,
                self.text_lines()[ls[i].0],
            )
    }

    /// Well-formed: at least one line, the cursor inside the text, links up to date.
    pub open spec fn wf(&self) -> bool {
        &&& self.lines@.len() >= 1
        &&& self.cursor_row < self.lines@.len()
        &&& self.cursor_col <= self.lines@[self.cursor_row as int]@.len()
        &&& self.links_match()
    }

    /// The text: lines joined with `'\n'`.
    pub open spec fn text_view(&self) -> Seq<char> {
        join_lines(self.text_lines())
    }

    /// Recomputes the link list from the lines.
    fn update_links(&mut self)
        ensures
            final(self).links_match(),
            final(self).lines == old(self).lines,
            final(self).cursor_row == old(self).cursor_row,
            final(self).cursor_col == old(self).cursor_col,
            final(self).scroll_offset == old(self).scroll_offset,
    {
        let mut links: Vec<LinkSpan> = Vec::new();
        let n = self.lines.len();
        let ghost tl = self.text_lines();
        let mut k: usize = 0;
        while k < n
            invariant
                n == self.lines@.len(),
                tl == self.text_lines(),
                k <= n,
                links@.len() == links_upto(tl, k as int).len(),
                forall|i: int|
                    0 <= i < links_upto(tl, k as int).len() ==> 0 <= (#[trigger] links_upto(
                        tl,
                        k as int,
                    )[i]).0 < k && span_is(
                        links@[i],
                        links_upto(tl, k as int)[i].0,
                        links_upto(tl, k as int)[i].1,
                        links_upto(tl, k as int)[i].2,
                        tl[links_upto(tl, k as int)[i].0],
                    ),
            decreases n - k,
        {
            let ghost before = links@;
            line_links(&self.lines[k], k, &mut links);
            proof {
                let prev = links_upto(tl, k as int);
                let sc = scan_links(tl[k as int], 0);
                assert(tl[k as int] == self.lines@[k as int]@);
                let add = sc.map_values(|x: (int, int)| (k as int, x.0, x.1));
                assert(links_upto(tl, k + 1) == prev + add);
                assert forall|i: int|
                    0 <= i < links_upto(tl, k + 1).len() implies 0 <= (#[trigger] links_upto(
                        tl,
                        k + 1,
                    )[i]).0 < k + 1 && span_is(
                        links@[i],
                        links_upto(tl, k + 1)[i].0,
                        links_upto(tl, k + 1)[i].1,
                        links_upto(tl, k + 1)[i].2,
                        tl[links_upto(tl, k + 1)[i].0],
                    ) by {
                    if i < prev.len() {
                        assert(links_upto(tl, k + 1)[i] == prev[i]);
                    } else {
                        let j = i - prev.len();
                        assert(links_upto(tl, k + 1)[i] == add[j]);
                        assert(add[j] == (k as int, sc[j].0, sc[j].1));
                    }
                }
            }
            k = k + 1;
        }
        self.links = links;
    }

    /// An empty text area: one empty line, the cursor at its start.
    pub fn new() -> (r: Self)
        ensures
            r.wf(),
            r.text_lines() == seq![Seq::<char>::empty()],
            r.cursor_row == 0 && r.cursor_col == 0,
            r.links@.len() == 0,
    {
        let mut lines: Vec<Vec<char>> = Vec::new();
        lines.push(Vec::new());
        let ta = DescriptionTextArea {
            lines,
            cursor_row: 0,
            cursor_col: 0,
            links: Vec::new(),
            scroll_offset: 0,
        };
        proof {
            let tl = ta.text_lines();
            assert(tl =~= seq![Seq::<char>::empty()]);
            assert(scan_links(tl[0], 0) == Seq::<(int, int)>::empty());
            assert(links_upto(tl, 0) == Seq::<(int, int, int)>::empty());
            assert(scan_links(tl[0], 0).map_values(|x: (int, int)| (0int, x.0, x.1))
                =~= Seq::<(int, int, int)>::empty());
            assert(links_upto(tl, 1) =~= Seq::<(int, int, int)>::empty());
        }
        ta
    }

    /// A text area holding `text`, the cursor at its start.
    pub fn with_text(text: &str) -> (r: Self)
        ensures
            r.wf(),
            r.text_lines() == lines_of(text@),
            r.cursor_row == 0 && r.cursor_col == 0,
    {
        let mut ta = Self::new();
        ta.set_text(text);
        ta
    }

    /// Replaces the text with `text` and moves the cursor to the start.
    pub fn set_text(&mut self, text: &str)
        ensures
            final(self).wf(),
            final(self).text_lines() == lines_of(text@),
            final(self).cursor_row == 0 && final(self).cursor_col == 0,
            final(self).scroll_offset == 0,
    {
        let v = chars_of(text);
        self.lines = split_lines(&v);
        self.cursor_row = 0;
        self.cursor_col = 0;
        self.scroll_offset = 0;
        proof {
            if v@.len() > 0 {
                lemma_split_nl_len(v@);
            }
            assert(self.lines@[0]@ == self.text_lines()[0]);
        }
        self.update_links();
    }

    /// The text: the lines joined with `'\n'`.
    pub fn text(&self) -> (r: String)
        requires
            self.lines@.len() >= 1,
        ensures
            r@ == self.text_view(),
    {
        let ghost tl = self.text_lines();
        let mut out = sub_chars(&self.lines[0], 0, self.lines[0].len());
        proof {
            assert(self.lines@[0]@.subrange(0, self.lines@[0]@.len() as int) == tl[0]);
            assert(tl.take(1).drop_last() =~= Seq::<Seq<char>>::empty());
            assert(join_lines(tl.take(1)) == tl[0]);
        }
        let mut k: usize = 1;
        while k < self.lines.len()
            invariant
                tl == self.text_lines(),
                1 <= k <= self.lines@.len(),
                out@ == join_lines(tl.take(k as int)),
            decreases self.lines@.len() - k,
        {
            let mut nl: Vec<char> = Vec::new();
            nl.push('\n');
            let with_nl = append_chars(&out, &nl);
            out = append_chars(&with_nl, &self.lines[k]);
            proof {
                assert(tl.take(k + 1).drop_last() =~= tl.take(k as int));
                assert(tl.take(k + 1).last() == self.lines@[k as int]@);
            }
            k = k + 1;
        }
        proof {
            assert(tl.take(self.lines@.len() as int) =~= tl);
        }
        string_of(&out)
    }

    /// Whether the text is empty (a single empty line).
    pub fn is_empty(&self) -> (r: bool)
        requires
            self.lines@.len() >= 1,
        ensures
            r == (self.lines@.len() == 1 && self.lines@[0]@.len() == 0),
            r == (self.text_view().len() == 0),
    {
        proof {
            law_empty_iff_no_text(*self);
        }
        self.lines.len() == 1 && self.lines[0].len() == 0
    }

    /// Link `j` covers the cursor position.
    pub open spec fn covers_cursor(&self, j: int) -> bool {
        self.links@[j].line == self.cursor_row && self.links@[j].start <= self.cursor_col
            < self.links@[j].end
    }

    /// Link `j` is the first link that covers the cursor.
    pub open spec fn first_cover(&self, j: int) -> bool {
        &&& 0 <= j < self.links@.len()
        &&& self.covers_cursor(j)
        &&& forall|i: int| 0 <= i < j ==> !#[trigger] self.covers_cursor(i)
    }

    /// The URL of the first link that covers the cursor, if any.
    pub open spec fn link_under_cursor(&self) -> Option<String> {
        if exists|j: int| #[trigger] self.first_cover(j) {
            Some(self.links@[choose|j: int| #[trigger] self.first_cover(j)].url)
        } else {
            None
        }
    }

    /// The URL of the first link that covers the cursor, if any.
    pub fn link_at_cursor(&self) -> (r: Option<String>)
        ensures
            r == self.link_under_cursor(),
    {
        let mut i: usize = 0;
        while i < self.links.len()
            invariant
                i <= self.links@.len(),
                forall|j: int| 0 <= j < i ==> !#[trigger] self.covers_cursor(j),
            decreases self.links@.len() - i,
        {
            let l = &self.links[i];
            if l.line == self.cursor_row && self.cursor_col >= l.start && self.cursor_col < l.end {
                proof {
                    assert(self.first_cover(i as int));
                    let w = choose|j: int| #[trigger] self.first_cover(j);
                    if w < i {
                        assert(!self.covers_cursor(w));
                    }
                    if w > i {
                        assert(!self.covers_cursor(i as int));
                    }
                }
                return Some(l.url.clone());
            }
            i = i + 1;
        }
        proof {
            assert forall|j: int| !#[trigger] self.first_cover(j) by {
                if 0 <= j < self.links@.len() {
                    assert(!self.covers_cursor(j));
                }
            }
        }
        None
    }

    /// The URLs of all links, in reading order.
    pub fn links(&self) -> (r: Vec<String>)
        ensures
            r@.len() == self.links@.len(),
            forall|i: int| 0 <= i < r@.len() ==> #[trigger] r@[i] == self.links@[i].url,
    {
        let mut r: Vec<String> = Vec::new();
        let mut i: usize = 0;
        while i < self.links.len()
            invariant
                i <= self.links@.len(),
                r@.len() == i,
                forall|j: int| 0 <= j < i ==> #[trigger] r@[j] == self.links@[j].url,
            decreases self.links@.len() - i,
        {
            r.push(self.links[i].url.clone());
            i = i + 1;
        }
        r
    }

    /// The line the cursor is on.
    pub open spec fn cur_line(&self) -> Seq<char> {
        self.text_lines()[self.cursor_row as int]
    }

    /// Inserts `c` at the cursor.
    pub fn insert_char(&mut self, c: char)
        requires
            old(self).wf(),
            old(self).cur_line().len() < usize::MAX,
        ensures
            final(self).wf(),
            final(self).text_lines() == old(self).text_lines().update(
                old(self).cursor_row as int,
                old(self).cur_line().take(old(self).cursor_col as int).push(c) + old(
                    self,
                ).cur_line().skip(old(self).cursor_col as int),
            ),
            final(self).cursor_row == old(self).cursor_row,
            final(self).cursor_col == old(self).cursor_col + 1,
    {
        let row = self.cursor_row;
        let col = self.cursor_col;
        let mut line = sub_chars(&self.lines[row], 0, self.lines[row].len());
        let ghost before = line@;
        line.insert(col, c);
        proof {
            assert(self.lines@[row as int]@.subrange(0, self.lines@[row as int]@.len() as int)
                == self.cur_line());
            assert(line@ =~= before.take(col as int).push(c) + before.skip(col as int));
        }
        self.lines.set(row, line);
        self.cursor_col = col + 1;
        proof {
            assert(self.text_lines() =~= old(self).text_lines().update(
                row as int,
                old(self).cur_line().take(col as int).push(c) + old(self).cur_line().skip(
                    col as int,
                ),
            ));
        }
        self.update_links();
    }

    /// Splits the current line at the cursor; the cursor moves to the start of the new line.
    pub fn insert_newline(&mut self)
        requires
            old(self).wf(),
            old(self).lines@.len() < usize::MAX,
        ensures
            final(self).wf(),
            final(self).text_lines() == old(self).text_lines().take(old(self).cursor_row as int)
                + seq![
                old(self).cur_line().take(old(self).cursor_col as int),
                old(self).cur_line().skip(old(self).cursor_col as int),
            ] + old(self).text_lines().skip(old(self).cursor_row + 1),
            final(self).cursor_row == old(self).cursor_row + 1,
            final(self).cursor_col == 0,
    {
        let row = self.cursor_row;
        let col = self.cursor_col;
        let len = self.lines[row].len();
        let head = sub_chars(&self.lines[row], 0, col);
        let rest = sub_chars(&self.lines[row], col, len);
        self.lines.set(row, head);
        self.lines.insert(row + 1, rest);
        self.cursor_row = row + 1;
        self.cursor_col = 0;
        proof {
            let ol = old(self).cur_line();
            assert(ol.subrange(0, col as int) == ol.take(col as int));
            assert(ol.subrange(col as int, len as int) =~= ol.skip(col as int));
            assert(self.text_lines() =~= old(self).text_lines().take(row as int) + seq![
                ol.take(col as int),
                ol.skip(col as int),
            ] + old(self).text_lines().skip(row + 1));
        }
        self.update_links();
    }

    /// Deletes the character before the cursor; at the start of a line,
    /// joins the line to the previous one.
    pub fn delete_backward(&mut self)
        requires
            old(self).wf(),
        ensures
            final(self).wf(),
            old(self).cursor_col > 0 ==> final(self).text_lines() == old(self).text_lines().update(
                old(self).cursor_row as int,
                old(self).cur_line().remove(old(self).cursor_col - 1),
            ) && final(self).cursor_row == old(self).cursor_row && final(self).cursor_col == old(
                self,
            ).cursor_col - 1,
            old(self).cursor_col == 0 && old(self).cursor_row > 0 ==> {
                let r = old(self).cursor_row as int;
                let prev = old(self).text_lines()[r - 1];
                &&& final(self).text_lines() == old(self).text_lines().take(r - 1) + seq![
                    prev + old(self).cur_line(),
                ] + old(self).text_lines().skip(r + 1)
                &&& final(self).cursor_row == r - 1
                &&& final(self).cursor_col == prev.len()
            },
            old(self).cursor_col == 0 && old(self).cursor_row == 0 ==> final(self).text_lines()
                == old(self).text_lines() && final(self).cursor_row == 0 && final(self).cursor_col
                == 0,
    {
        let row = self.cursor_row;
        let col = self.cursor_col;
        if col > 0 {
            let mut line = sub_chars(&self.lines[row], 0, self.lines[row].len());
            proof {
                assert(line@ =~= old(self).cur_line());
            }
            line.remove(col - 1);
            self.lines.set(row, line);
            self.cursor_col = col - 1;
            proof {
                assert(self.text_lines() =~= old(self).text_lines().update(
                    row as int,
                    old(self).cur_line().remove(col - 1),
                ));
            }
        } else if row > 0 {
            let current = self.lines.remove(row);
            let joined = append_chars(&self.lines[row - 1], &current);
            let plen = self.lines[row - 1].len();
            self.lines.set(row - 1, joined);
            self.cursor_row = row - 1;
            self.cursor_col = plen;
            proof {
                let ot = old(self).text_lines();
                assert(self.text_lines() =~= ot.take(row - 1) + seq![
                    ot[row - 1] + old(self).cur_line(),
                ] + ot.skip(row + 1));
            }
        }
        self.update_links();
    }

    /// Deletes the character at the cursor; at the end of a line, joins the next line to it.
    pub fn delete_forward(&mut self)
        requires
            old(self).wf(),
        ensures
            final(self).wf(),
            final(self).cursor_row == old(self).cursor_row,
            final(self).cursor_col == old(self).cursor_col,
            old(self).cursor_col < old(self).cur_line().len() ==> final(self).text_lines() == old(
                self,
            ).text_lines().update(
                old(self).cursor_row as int,
                old(self).cur_line().remove(old(self).cursor_col as int),
            ),
            old(self).cursor_col == old(self).cur_line().len() && old(self).cursor_row + 1 < old(
                self,
            ).lines@.len() ==> {
                let r = old(self).cursor_row as int;
                &&& final(self).text_lines() == old(self).text_lines().take(r) + seq![
                    old(self).cur_line() + old(self).text_lines()[r + 1],
                ] + old(self).text_lines().skip(r + 2)
            },
            old(self).cursor_col == old(self).cur_line().len() && old(self).cursor_row + 1 == old(
                self,
            ).lines@.len() ==> final(self).text_lines() == old(self).text_lines(),
    {
        let row = self.cursor_row;
        let col = self.cursor_col;
        if col < self.lines[row].len() {
            let mut line = sub_chars(&self.lines[row], 0, self.lines[row].len());
            proof {
                assert(line@ =~= old(self).cur_line());
            }
            line.remove(col);
            self.lines.set(row, line);
            proof {
                assert(self.text_lines() =~= old(self).text_lines().update(
                    row as int,
                    old(self).cur_line().remove(col as int),
                ));
            }
        } else if row < self.lines.len() - 1 {
            let next = self.lines.remove(row + 1);
            let joined = append_chars(&self.lines[row], &next);
            self.lines.set(row, joined);
            proof {
                let ot = old(self).text_lines();
                assert(self.text_lines() =~= ot.take(row as int) + seq![
                    old(self).cur_line() + ot[row + 1],
                ] + ot.skip(row + 2));
            }
        }
        self.update_links();
    }

    /// Moves one character left, to the end of the previous line at a line start.
    pub fn move_left(&mut self)
        requires
            old(self).wf(),
        ensures
            final(self).wf(),
            final(self).lines == old(self).lines,
            final(self).links == old(self).links,
            old(self).cursor_col > 0 ==> final(self).cursor_row == old(self).cursor_row
                && final(self).cursor_col == old(self).cursor_col - 1,
            old(self).cursor_col == 0 && old(self).cursor_row > 0 ==> final(self).cursor_row == old(
                self,
            ).cursor_row - 1 && final(self).cursor_col == old(self).text_lines()[old(
                self,
            ).cursor_row - 1].len(),
            old(self).cursor_col == 0 && old(self).cursor_row == 0 ==> final(self).cursor_row == 0
                && final(self).cursor_col == 0,
    {
        if self.cursor_col > 0 {
            self.cursor_col = self.cursor_col - 1;
        } else if self.cursor_row > 0 {
            self.cursor_row = self.cursor_row - 1;
            self.cursor_col = self.lines[self.cursor_row].len();
        }
    }

    /// Moves one character right, to the start of the next line at a line end.
    pub fn move_right(&mut self)
        requires
            old(self).wf(),
        ensures
            final(self).wf(),
            final(self).lines == old(self).lines,
            final(self).links == old(self).links,
            old(self).cursor_col < old(self).cur_line().len() ==> final(self).cursor_row == old(
                self,
            ).cursor_row && final(self).cursor_col == old(self).cursor_col + 1,
            old(self).cursor_col == old(self).cur_line().len() && old(self).cursor_row + 1 < old(
                self,
            ).lines@.len() ==> final(self).cursor_row == old(self).cursor_row + 1
                && final(self).cursor_col == 0,
            old(self).cursor_col == old(self).cur_line().len() && old(self).cursor_row + 1 == old(
                self,
            ).lines@.len() ==> final(self).cursor_row == old(self).cursor_row
                && final(self).cursor_col == old(self).cursor_col,
    {
        if self.cursor_col < self.lines[self.cursor_row].len() {
            self.cursor_col = self.cursor_col + 1;
        } else if self.cursor_row < self.lines.len() - 1 {
            self.cursor_row = self.cursor_row + 1;
            self.cursor_col = 0;
        }
    }

    /// Moves one line up, keeping the column where the line is long enough.
    pub fn move_up(&mut self)
        requires
            old(self).wf(),
        ensures
            final(self).wf(),
            final(self).lines == old(self).lines,
            final(self).links == old(self).links,
            old(self).cursor_row > 0 ==> {
                let len = old(self).text_lines()[old(self).cursor_row - 1].len();
                &&& final(self).cursor_row == old(self).cursor_row - 1
                &&& final(self).cursor_col == if old(self).cursor_col < len {
                    old(self).cursor_col as int
                } else {
                    len as int
                }
            },
            old(self).cursor_row == 0 ==> final(self).cursor_row == 0 && final(self).cursor_col
                == old(self).cursor_col,
    {
        if self.cursor_row > 0 {
            self.cursor_row = self.cursor_row - 1;
            let len = self.lines[self.cursor_row].len();
            if self.cursor_col > len {
                self.cursor_col = len;
            }
        }
    }

    /// Moves one line down, keeping the column where the line is long enough.
    pub fn move_down(&mut self)
        requires
            old(self).wf(),
        ensures
            final(self).wf(),
            final(self).lines == old(self).lines,
            final(self).links == old(self).links,
            old(self).cursor_row + 1 < old(self).lines@.len() ==> {
                let len = old(self).text_lines()[old(self).cursor_row + 1].len();
                &&& final(self).cursor_row == old(self).cursor_row + 1
                &&& final(self).cursor_col == if old(self).cursor_col < len {
                    old(self).cursor_col as int
                } else {
                    len as int
                }
            },
            old(self).cursor_row + 1 == old(self).lines@.len() ==> final(self).cursor_row == old(
                self,
            ).cursor_row && final(self).cursor_col == old(self).cursor_col,
    {
        if self.cursor_row < self.lines.len() - 1 {
            self.cursor_row = self.cursor_row + 1;
            let len = self.lines[self.cursor_row].len();
            if self.cursor_col > len {
                self.cursor_col = len;
            }
        }
    }

    /// Moves to the start of the line.
    pub fn move_home(&mut self)
        requires
            old(self).wf(),
        ensures
            final(self).wf(),
            final(self).lines == old(self).lines,
            final(self).links == old(self).links,
            final(self).cursor_row == old(self).cursor_row,
            final(self).cursor_col == 0,
    {
        self.cursor_col = 0;
    }

    /// Moves to the end of the line.
    pub fn move_end(&mut self)
        requires
            old(self).wf(),
        ensures
            final(self).wf(),
            final(self).lines == old(self).lines,
            final(self).links == old(self).links,
            final(self).cursor_row == old(self).cursor_row,
            final(self).cursor_col == old(self).cur_line().len(),
    {
        self.cursor_col = self.lines[self.cursor_row].len();
    }

    /// Moves to the start of the previous word; at a line start, to the end of the previous line.
    pub fn move_word_left(&mut self)
        requires
            old(self).wf(),
        ensures
            final(self).wf(),
            final(self).lines == old(self).lines,
            final(self).links == old(self).links,
            old(self).cursor_col > 0 ==> final(self).cursor_row == old(self).cursor_row
                && final(self).cursor_col == word_left(
                old(self).cur_line(),
                old(self).cursor_col as int,
            ),
            old(self).cursor_col == 0 && old(self).cursor_row > 0 ==> final(self).cursor_row == old(
                self,
            ).cursor_row - 1 && final(self).cursor_col == old(self).text_lines()[old(
                self,
            ).cursor_row - 1].len(),
            old(self).cursor_col == 0 && old(self).cursor_row == 0 ==> final(self).cursor_row == 0
                && final(self).cursor_col == 0,
    {
        if self.cursor_col == 0 {
            if self.cursor_row > 0 {
                self.cursor_row = self.cursor_row - 1;
                self.cursor_col = self.lines[self.cursor_row].len();
            }
            return;
        }
        let pos = find_word_left(&self.lines[self.cursor_row], self.cursor_col);
        self.cursor_col = pos;
    }

    /// Moves to the start of the next word; at a line end, to the start of the next line.
    pub fn move_word_right(&mut self)
        requires
            old(self).wf(),
        ensures
            final(self).wf(),
            final(self).lines == old(self).lines,
            final(self).links == old(self).links,
            old(self).cursor_col < old(self).cur_line().len() ==> final(self).cursor_row == old(
                self,
            ).cursor_row && final(self).cursor_col == word_right(
                old(self).cur_line(),
                old(self).cursor_col as int,
            ),
            old(self).cursor_col == old(self).cur_line().len() && old(self).cursor_row + 1 < old(
                self,
            ).lines@.len() ==> final(self).cursor_row == old(self).cursor_row + 1
                && final(self).cursor_col == 0,
            old(self).cursor_col == old(self).cur_line().len() && old(self).cursor_row + 1 == old(
                self,
            ).lines@.len() ==> final(self).cursor_row == old(self).cursor_row
                && final(self).cursor_col == old(self).cursor_col,
    {
        let len = self.lines[self.cursor_row].len();
        if self.cursor_col >= len {
            if self.cursor_row < self.lines.len() - 1 {
                self.cursor_row = self.cursor_row + 1;
                self.cursor_col = 0;
            }
            return;
        }
        let pos = find_word_right(&self.lines[self.cursor_row], self.cursor_col);
        self.cursor_col = pos;
    }

    /// Deletes back to the start of the previous word; at a line start,
    /// joins the line to the previous one.
    pub fn delete_word_backward(&mut self)
        requires
            old(self).wf(),
        ensures
            final(self).wf(),
            old(self).cursor_col > 0 ==> {
                let p = word_left(old(self).cur_line(), old(self).cursor_col as int);
                &&& final(self).text_lines() == old(self).text_lines().update(
                    old(self).cursor_row as int,
                    old(self).cur_line().take(p) + old(self).cur_line().skip(
                        old(self).cursor_col as int,
                    ),
                )
                &&& final(self).cursor_row == old(self).cursor_row
                &&& final(self).cursor_col == p
            },
            old(self).cursor_col == 0 && old(self).cursor_row > 0 ==> {
                let r = old(self).cursor_row as int;
                let prev = old(self).text_lines()[r - 1];
                &&& final(self).text_lines() == old(self).text_lines().take(r - 1) + seq![
                    prev + old(self).cur_line(),
                ] + old(self).text_lines().skip(r + 1)
                &&& final(self).cursor_row == r - 1
                &&& final(self).cursor_col == prev.len()
            },
            old(self).cursor_col == 0 && old(self).cursor_row == 0 ==> final(self).text_lines()
                == old(self).text_lines() && final(self).cursor_row == 0 && final(self).cursor_col
                == 0,
    {
        if self.cursor_col == 0 {
            self.delete_backward();
            return;
        }
        let row = self.cursor_row;
        let col = self.cursor_col;
        let pos = find_word_left(&self.lines[row], col);
        let line = remove_range(&self.lines[row], pos, col);
        self.lines.set(row, line);
        self.cursor_col = pos;
        proof {
            assert(self.text_lines() =~= old(self).text_lines().update(
                row as int,
                old(self).cur_line().take(pos as int) + old(self).cur_line().skip(col as int),
            ));
        }
        self.update_links();
    }
}

/// The editing operation a key performs in the text area.
#[derive(Debug, Clone, Copy, PartialEq, Eq)]
pub enum TextAreaEdit {
    Keep,
    InsertChar(char),
    Newline,
    DeleteBackward,
    DeleteForward,
    DeleteWordBackward,
    Left,
    Right,
    Up,
    Down,
    Home,
    End,
    WordLeft,
    WordRight,
}

/// The edit that `key` performs.
pub open spec fn key_edit(key: KeyEvent) -> TextAreaEdit {
    let m = key.modifiers;
    match key.code {
        KeyCode::Char(c) => if c == 'o' && m.control {
            TextAreaEdit::Keep
        } else if c == 'b' && m.alt {
            TextAreaEdit::WordLeft
        } else if c == 'f' && m.alt {
            TextAreaEdit::WordRight
        } else {
            TextAreaEdit::InsertChar(c)
        },
        KeyCode::Enter => TextAreaEdit::Newline,
        KeyCode::Backspace => if m.alt {
            TextAreaEdit::DeleteWordBackward
        } else {
            TextAreaEdit::DeleteBackward
        },
        KeyCode::Delete => TextAreaEdit::DeleteForward,
        KeyCode::Left => if m.alt {
            TextAreaEdit::WordLeft
        } else {
            TextAreaEdit::Left
        },
        KeyCode::Right => if m.alt {
            TextAreaEdit::WordRight
        } else {
            TextAreaEdit::Right
        },
        KeyCode::Up => TextAreaEdit::Up,
        KeyCode::Down => TextAreaEdit::Down,
        KeyCode::Home => TextAreaEdit::Home,
        KeyCode::End => TextAreaEdit::End,
        _ => TextAreaEdit::Keep,
    }
}

/// The action that `key` returns, given the link (if any) under the cursor.
pub open spec fn key_action(key: KeyEvent, link: Option<String>) -> TextAreaAction {
    match key.code {
        KeyCode::Char(c) => if c == 'o' && key.modifiers.control {
            match link {
                Some(u) => TextAreaAction::OpenLink(u),
                None => TextAreaAction::Nothing,
            }
        } else {
            TextAreaAction::Nothing
        },
        KeyCode::Tab => if key.modifiers.shift {
            TextAreaAction::Nothing
        } else {
            TextAreaAction::NextField
        },
        KeyCode::BackTab => TextAreaAction::PrevField,
        _ => TextAreaAction::Nothing,
    }
}

impl DescriptionTextArea {
    /// The state after an edit, as the editing functions state it.
    pub open spec fn edit_post(old: Self, new: Self, e: TextAreaEdit) -> bool {
        let r = old.cursor_row as int;
        let c = old.cursor_col as int;
        let ol = old.cur_line();
        let ot = old.text_lines();
        let n = old.lines@.len();
        &&& new.wf()
        &&& match e {
            TextAreaEdit::Keep => new.lines == old.lines && new.cursor_row == old.cursor_row
                && new.cursor_col == old.cursor_col,
            TextAreaEdit::InsertChar(ch) => new.text_lines() == ot.update(
                r,
                ol.take(c).push(ch) + ol.skip(c),
            ) && new.cursor_row == r && new.cursor_col == c + 1,
            TextAreaEdit::Newline => new.text_lines() == ot.take(r) + seq![ol.take(c), ol.skip(c)]
                + ot.skip(r + 1) && new.cursor_row == r + 1 && new.cursor_col == 0,
            TextAreaEdit::DeleteBackward => if c > 0 {
                new.text_lines() == ot.update(r, ol.remove(c - 1)) && new.cursor_row == r
                    && new.cursor_col == c - 1
            } else if r > 0 {
                new.text_lines() == ot.take(r - 1) + seq![ot[r - 1] + ol] + ot.skip(r + 1)
                    && new.cursor_row == r - 1 && new.cursor_col == ot[r - 1].len()
            } else {
                new.text_lines() == ot && new.cursor_row == 0 && new.cursor_col == 0
            },
            TextAreaEdit::DeleteForward => new.cursor_row == r && new.cursor_col == c && if c
                < ol.len() {
                new.text_lines() == ot.update(r, ol.remove(c))
            } else if r + 1 < n {
                new.text_lines() == ot.take(r) + seq![ol + ot[r + 1]] + ot.skip(r + 2)
            } else {
                new.text_lines() == ot
            },
            TextAreaEdit::DeleteWordBackward => if c > 0 {
                let p = word_left(ol, c);
                new.text_lines() == ot.update(r, ol.take(p) + ol.skip(c)) && new.cursor_row == r
                    && new.cursor_col == p
            } else if r > 0 {
                new.text_lines() == ot.take(r - 1) + seq![ot[r - 1] + ol] + ot.skip(r + 1)
                    && new.cursor_row == r - 1 && new.cursor_col == ot[r - 1].len()
            } else {
                new.text_lines() == ot && new.cursor_row == 0 && new.cursor_col == 0
            },
            TextAreaEdit::Left => new.lines == old.lines && if c > 0 {
                new.cursor_row == r && new.cursor_col == c - 1
            } else if r > 0 {
                new.cursor_row == r - 1 && new.cursor_col == ot[r - 1].len()
            } else {
                new.cursor_row == 0 && new.cursor_col == 0
            },
            TextAreaEdit::Right => new.lines == old.lines && if c < ol.len() {
                new.cursor_row == r && new.cursor_col == c + 1
            } else if r + 1 < n {
                new.cursor_row == r + 1 && new.cursor_col == 0
            } else {
                new.cursor_row == r && new.cursor_col == c
            },
            TextAreaEdit::Up => new.lines == old.lines && if r > 0 {
                new.cursor_row == r - 1 && new.cursor_col == if c < ot[r - 1].len() {
                    c
                } else {
                    ot[r - 1].len() as int
                }
            } else {
                new.cursor_row == r && new.cursor_col == c
            },
            TextAreaEdit::Down => new.lines == old.lines && if r + 1 < n {
                new.cursor_row == r + 1 && new.cursor_col == if c < ot[r + 1].len() {
                    c
                } else {
                    ot[r + 1].len() as int
                }
            } else {
                new.cursor_row == r && new.cursor_col == c
            },
            TextAreaEdit::Home => new.lines == old.lines && new.cursor_row == r && new.cursor_col
                == 0,
            TextAreaEdit::End => new.lines == old.lines && new.cursor_row == r && new.cursor_col
                == ol.len(),
            TextAreaEdit::WordLeft => new.lines == old.lines && if c > 0 {
                new.cursor_row == r && new.cursor_col == word_left(ol, c)
            } else if r > 0 {
                new.cursor_row == r - 1 && new.cursor_col == ot[r - 1].len()
            } else {
                new.cursor_row == 0 && new.cursor_col == 0
            },
            TextAreaEdit::WordRight => new.lines == old.lines && if c < ol.len() {
                new.cursor_row == r && new.cursor_col == word_right(ol, c)
            } else if r + 1 < n {
                new.cursor_row == r + 1 && new.cursor_col == 0
            } else {
                new.cursor_row == r && new.cursor_col == c
            },
        }
    }

    /// Handles a key: edits the text or moves the cursor as [`key_edit`]
    /// says, and returns the action [`key_action`] gives (Ctrl+O opens the
    /// link under the cursor; Tab and Shift+Tab leave the field).
    pub fn handle_key(&mut self, key: KeyEvent) -> (r: TextAreaAction)
        requires
            old(self).wf(),
            old(self).cur_line().len() < usize::MAX,
            old(self).lines@.len() < usize::MAX,
        ensures
            Self::edit_post(*old(self), *final(self), key_edit(key)),
            r == key_action(key, old(self).link_under_cursor()),
    {
        let m = key.modifiers;
        match key.code {
            KeyCode::Char(c) => {
                if c == 'o' && m.control {
                    let link = self.link_at_cursor();
                    match link {
                        Some(u) => TextAreaAction::OpenLink(u),
                        None => TextAreaAction::Nothing,
                    }
                } else if c == 'b' && m.alt {
                    self.move_word_left();
                    TextAreaAction::Nothing
                } else if c == 'f' && m.alt {
                    self.move_word_right();
                    TextAreaAction::Nothing
                } else {
                    self.insert_char(c);
                    TextAreaAction::Nothing
                }
            },
            KeyCode::Tab => {
                if m.shift {
                    TextAreaAction::Nothing
                } else {
                    TextAreaAction::NextField
                }
            },
            KeyCode::BackTab => TextAreaAction::PrevField,
            KeyCode::Enter => {
                self.insert_newline();
                TextAreaAction::Nothing
            },
            KeyCode::Backspace => {
                if m.alt {
                    self.delete_word_backward();
                } else {
                    self.delete_backward();
                }
                TextAreaAction::Nothing
            },
            KeyCode::Delete => {
                self.delete_forward();
                TextAreaAction::Nothing
            },
            KeyCode::Left => {
                if m.alt {
                    self.move_word_left();
                } else {
                    self.move_left();
                }
                TextAreaAction::Nothing
            },
            KeyCode::Right => {
                if m.alt {
                    self.move_word_right();
                } else {
                    self.move_right();
                }
                TextAreaAction::Nothing
            },
            KeyCode::Up => {
                self.move_up();
                TextAreaAction::Nothing
            },
            KeyCode::Down => {
                self.move_down();
                TextAreaAction::Nothing
            },
            KeyCode::Home => {
                self.move_home();
                TextAreaAction::Nothing
            },
            KeyCode::End => {
                self.move_end();
                TextAreaAction::Nothing
            },
            _ => TextAreaAction::Nothing,
        }
    }
}


/// How a character of the text area is drawn.
#[derive(Debug, Clone, Copy, PartialEq, Eq, Structural)]
pub enum CellKind {
    /// Plain text
    Text,
    /// Part of a link
    Link,
    /// Under the cursor
    Cursor,
}

/// Whether a link of `links` covers column `col` of line `row`.
pub open spec fn in_link(links: Seq<LinkSpan>, row: int, col: int) -> bool {
    exists|i: int| 0 <= i < links.len() && (#[trigger] links[i]).line == row && links[i].start <= col < links[i].end
}

impl DescriptionTextArea {
    /// The first line shown in a view `height` lines high: the scroll
    /// offset, moved just enough to show the cursor's line.
    pub fn view_scroll(&self, height: usize) -> (r: usize)
        requires
            self.wf(),
            self.scroll_offset + height <= usize::MAX,
        ensures
            r == if self.cursor_row < self.scroll_offset {
                self.cursor_row as int
            } else if self.cursor_row >= self.scroll_offset + height {
                self.cursor_row - height + 1
            } else {
                self.scroll_offset as int
            },
    {
        let _n = self.lines.len();
        if self.cursor_row < self.scroll_offset {
            self.cursor_row
        } else if self.cursor_row >= self.scroll_offset + height {
            self.cursor_row - height + 1
        } else {
            self.scroll_offset
        }
    }

    /// How the character at column `col` of line `row` is drawn: under the
    /// cursor when the area is focused and the cursor is there, else as part
    /// of a link when one covers it, else as plain text.
    pub fn cell_kind(&self, row: usize, col: usize, focused: bool) -> (r: CellKind)
        ensures
            r == if focused && row == self.cursor_row && col == self.cursor_col {
                CellKind::Cursor
            } else if in_link(self.links@, row as int, col as int) {
                CellKind::Link
            } else {
                CellKind::Text
            },
    {
        if focused && row == self.cursor_row && col == self.cursor_col {
            return CellKind::Cursor;
        }
        let mut i: usize = 0;
        while i < self.links.len()
            invariant
                i <= self.links@.len(),
                !(focused && row == self.cursor_row && col == self.cursor_col),
                forall|j: int|
                    0 <= j < i ==> !((#[trigger] self.links@[j]).line == row && self.links@[j].start <= col
                        < self.links@[j].end),
            decreases self.links@.len() - i,
        {
            let l = &self.links[i];
            if l.line == row && l.start <= col && col < l.end {
                assert(self.links@[i as int].line == row && self.links@[i as int].start <= col
                    < self.links@[i as int].end);
                assert(in_link(self.links@, row as int, col as int));
                return CellKind::Link;
            }
            i = i + 1;
        }
        CellKind::Text
    }
}


/// Backspace right after a line break undoes it: when Enter takes the editor
/// from `a` to `b` and Backspace takes it from `b` to `c`, the text and the
/// cursor of `c` are those of `a`.
pub proof fn law_backspace_undoes_newline(a: DescriptionTextArea, b: DescriptionTextArea, c: DescriptionTextArea)
    requires
        a.wf(),
        DescriptionTextArea::edit_post(a, b, TextAreaEdit::Newline),
        DescriptionTextArea::edit_post(b, c, TextAreaEdit::DeleteBackward),
    ensures
        c.text_lines() == a.text_lines(),
        c.cursor_row == a.cursor_row,
        c.cursor_col == a.cursor_col,
{
    let t = a.text_lines();
    let r = a.cursor_row as int;
    let l = a.cur_line();
    let bt = b.text_lines();
    assert(bt.len() == t.len() + 1);
    assert(bt[r] == l.take(a.cursor_col as int));
    assert(bt[r + 1] == l.skip(a.cursor_col as int));
    assert(b.cur_line() == bt[r + 1]);
    assert(bt[r] + bt[r + 1] =~= l);
    assert(bt.take(r) =~= t.take(r));
    assert(bt.skip(r + 2) =~= t.skip(r + 1));
    assert(c.text_lines() =~= t);
}

/// Enter and then Backspace, as keys, leave the text and the cursor as they
/// were; Tab (without Shift) asks for the next field, Shift+Tab for the
/// previous one, and only Ctrl+O opens a link.
pub proof fn law_enter_backspace_keys(
    a: DescriptionTextArea,
    b: DescriptionTextArea,
    c: DescriptionTextArea,
    enter: KeyEvent,
    backspace: KeyEvent,
)
    requires
        a.wf(),
        enter.code == KeyCode::Enter,
        backspace.code == KeyCode::Backspace,
        !backspace.modifiers.alt,
        DescriptionTextArea::edit_post(a, b, key_edit(enter)),
        DescriptionTextArea::edit_post(b, c, key_edit(backspace)),
    ensures
        c.text_lines() == a.text_lines(),
        c.cursor_row == a.cursor_row,
        c.cursor_col == a.cursor_col,
        key_action(enter, a.link_under_cursor()) == TextAreaAction::Nothing,
        key_action(backspace, b.link_under_cursor()) == TextAreaAction::Nothing,
{
    law_backspace_undoes_newline(a, b, c);
}

/// The action a key asks for: `NextField` exactly for Tab without Shift,
/// `PrevField` exactly for Shift+Tab (BackTab), and `OpenLink` only for
/// Ctrl+O, with the link under the cursor.
pub proof fn law_key_actions(key: KeyEvent, link: Option<String>)
    ensures
        (key_action(key, link) == TextAreaAction::NextField) <==> (key.code == KeyCode::Tab
            && !key.modifiers.shift),
        (key_action(key, link) == TextAreaAction::PrevField) <==> (key.code == KeyCode::BackTab),
        key_action(key, link) is OpenLink ==> (key.code == KeyCode::Char('o')
            && key.modifiers.control && link == Some(key_action(key, link)->OpenLink_0)),
{
}
/// The editor is empty exactly when its text is empty.
pub proof fn law_empty_iff_no_text(ta: DescriptionTextArea)
    requires
        ta.lines@.len() >= 1,
    ensures
        (ta.lines@.len() == 1 && ta.lines@[0]@.len() == 0) <==> ta.text_view().len() == 0,
{
    let ls = ta.text_lines();
    assert(ls.len() == ta.lines@.len());
    if ls.len() == 1 {
        assert(ls[0] == ta.lines@[0]@);
    } else {
        assert(ls.len() >= 2);
        assert(join_lines(ls) == join_lines(ls.drop_last()) + seq!['\n'] + ls.last());
        assert(join_lines(ls).len() >= 1);
    }
}

/// A link spans `l[a..e]`: it starts with `https://` or `http://`, holds
/// no white space and none of `)`, `]`, `>`, `"`, `'`, and is followed by
/// one of those characters or by the end of the line.
pub open spec fn link_extent(l: Seq<char>, a: int, e: int) -> bool {
    &&& 0 <= a < e <= l.len()
    &&& (l.subrange(a, a + 8) == seq!['h', 't', 't', 'p', 's', ':', '/', '/'] || l.subrange(a, a
        + 7) == seq!['h', 't', 't', 'p', ':', '/', '/'])
    &&& forall|k: int|
        a <= k < e ==> !(is_ws(#[trigger] l[k]) || l[k] == ')' || l[k] == ']' || l[k] == '>'
            || l[k] == '"' || l[k] == '\'')
    &&& e < l.len() ==> (is_ws(l[e]) || l[e] == ')' || l[e] == ']' || l[e] == '>' || l[e] == '"'
        || l[e] == '\'')
}

proof fn lemma_url_end(l: Seq<char>, q: int)
    requires
        0 <= q <= l.len(),
    ensures
        q <= url_end_from(l, q) <= l.len(),
        forall|k: int| q <= k < url_end_from(l, q) ==> !is_url_end(#[trigger] l[k]),
        url_end_from(l, q) < l.len() ==> is_url_end(l[url_end_from(l, q)]),
    decreases l.len() - q,
{
    if q < l.len() && !is_url_end(l[q]) {
        lemma_url_end(l, q + 1);
    }
}

proof fn lemma_scan_links(l: Seq<char>, p: int)
    requires
        0 <= p,
    ensures
        forall|i: int|
            0 <= i < scan_links(l, p).len() ==> p <= (#[trigger] scan_links(l, p)[i]).0
                && link_extent(l, scan_links(l, p)[i].0, scan_links(l, p)[i].1),
    decreases l.len() - p,
{
    if p < l.len() {
        if url_starts(l, p) {
            let e = url_end_from(l, p);
            lemma_url_end(l, p);
            if p < e <= l.len() {
                lemma_scan_links(l, e);
                let rest = scan_links(l, e);
                assert forall|i: int| 0 <= i < scan_links(l, p).len() implies p <= (
                #[trigger] scan_links(l, p)[i]).0 && link_extent(
                    l,
                    scan_links(l, p)[i].0,
                    scan_links(l, p)[i].1,
                ) by {
                    if i > 0 {
                        assert(scan_links(l, p)[i] == rest[i - 1]);
                    } else {
                        assert(scan_links(l, p)[0] == (p, e));
                        assert forall|k: int| p <= k < e implies !(is_ws(#[trigger] l[k])
                            || l[k] == ')' || l[k] == ']' || l[k] == '>' || l[k] == '"' || l[k]
                            == '\'') by {
                            assert(!is_url_end(l[k]));
                        }
                        assert(link_extent(l, p, e));
                    }
                }
            }
        } else {
            lemma_scan_links(l, p + 1);
            assert(scan_links(l, p) == scan_links(l, p + 1));
        }
    }
}

proof fn lemma_links_upto(ls: Seq<Seq<char>>, k: int)
    requires
        0 <= k <= ls.len(),
    ensures
        forall|i: int|
            0 <= i < links_upto(ls, k).len() ==> 0 <= (#[trigger] links_upto(ls, k)[i]).0 < k
                && link_extent(ls[links_upto(ls, k)[i].0], links_upto(ls, k)[i].1, links_upto(ls, k)[i].2),
    decreases k,
{
    if k > 0 {
        lemma_links_upto(ls, k - 1);
        lemma_scan_links(ls[k - 1], 0);
        let pre = links_upto(ls, k - 1);
        let sc = scan_links(ls[k - 1], 0);
        let m = sc.map_values(|x: (int, int)| (k - 1, x.0, x.1));
        assert(links_upto(ls, k) == pre + m);
        assert forall|i: int| 0 <= i < links_upto(ls, k).len() implies 0 <= (
        #[trigger] links_upto(ls, k)[i]).0 < k && link_extent(
            ls[links_upto(ls, k)[i].0],
            links_upto(ls, k)[i].1,
            links_upto(ls, k)[i].2,
        ) by {
            if i < pre.len() {
                assert(links_upto(ls, k)[i] == pre[i]);
            } else {
                let j = i - pre.len();
                assert(links_upto(ls, k)[i] == m[j]);
                assert(m[j] == (k - 1, sc[j].0, sc[j].1));
            }
        }
    }
}

/// Every link the editor lists is a whole `http(s)://` link of its line:
/// its URL is the text between `start` and `end`, it holds no white space
/// and none of `)`, `]`, `>`, `"`, `'`, and one of those (or the end of
/// the line) follows it.
pub proof fn law_link_spans(ta: DescriptionTextArea)
    requires
        ta.wf(),
    ensures
        forall|i: int|
            0 <= i < ta.links@.len() ==> {
                let s = #[trigger] ta.links@[i];
                &&& s.line < ta.text_lines().len()
                &&& link_extent(ta.text_lines()[s.line as int], s.start as int, s.end as int)
                &&& s.url@ == ta.text_lines()[s.line as int].subrange(s.start as int, s.end as int)
            },
{
    let tl = ta.text_lines();
    lemma_links_upto(tl, tl.len() as int);
    let ls = links_of(tl);
    assert forall|i: int| 0 <= i < ta.links@.len() implies {
        let s = #[trigger] ta.links@[i];
        &&& s.line < tl.len()
        &&& link_extent(tl[s.line as int], s.start as int, s.end as int)
        &&& s.url@ == tl[s.line as int].subrange(s.start as int, s.end as int)
    } by {
        assert(0 <= ls[i].0 < tl.len());
        assert(span_is(ta.links@[i], ls[i].0, ls[i].1, ls[i].2, tl[ls[i].0]));
    }
}

/// A line that begins with `https://` or `http://` (and has more after it)
/// has a link at its very start.
pub proof fn law_line_start_link(l: Seq<char>)
    requires
        (l.len() > 8 && l.subrange(0, 8) == seq!['h', 't', 't', 'p', 's', ':', '/', '/']) || (l.len()
            > 7 && l.subrange(0, 7) == seq!['h', 't', 't', 'p', ':', '/', '/']),
    ensures
        scan_links(l, 0).len() > 0,
        scan_links(l, 0)[0].0 == 0,
        link_extent(l, 0, scan_links(l, 0)[0].1),
{
    assert(url_starts(l, 0)) by {
        if l.len() > 8 && l.subrange(0, 8) == seq!['h', 't', 't', 'p', 's', ':', '/', '/'] {
            assert(https_prefix() =~= seq!['h', 't', 't', 'p', 's', ':', '/', '/']);
        } else {
            assert(http_prefix() =~= seq!['h', 't', 't', 'p', ':', '/', '/']);
        }
    }
    lemma_url_end(l, 0);
    let e = url_end_from(l, 0);
    assert(!is_url_end(l[0])) by {
        assert(l[0] == l.subrange(0, 7)[0]);
    }
    assert(e > 0);
    lemma_scan_links(l, 0);
    assert(scan_links(l, 0)[0] == (0int, e));
}

} // verus!
