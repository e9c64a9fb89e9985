//! Searching tasks by title and description.
use vstd::prelude::*;
use crate::models::priority::Priority;
use crate::models::task::{Task, TaskStatus, same_task, refs_of};
use crate::ui::task_list::{RowTone, title_tone_of, truncated, truncate_str, when_label};
use crate::utils::datetime::{Clock, format_relative_date_at};
use crate::text::{
    chars_of, chars_of_string, find_from, is_char_boundary, lowercase, occurs_at, contains_seq,
    prefix_bytes, string_of, take_bytes, to_lowercase, utf8_len, utf8_len_of, str_byte_len,
    is_ascii_seq, ascii_lowered,
    sub_chars, lemma_utf8_len_take_mono, is_boundary, byte_slice, lemma_prefix_bytes_order, slice_bytes, lemma_ends_are_boundaries,
};

verus! {

/// A task that matches a search, with where it matched.
#[derive(Debug, Clone)]
pub struct SearchResult {
    /// The matching task
    pub task: Task,
    /// Byte range of the first match in the lower-cased title
    pub title_match: Option<(usize, usize)>,
    /// Snippet of the description around the first match
    pub desc_snippet: Option<String>,
}

/// The first position where `needle` occurs in `hay`.
pub open spec fn first_occurrence(hay: Seq<char>, needle: Seq<char>) -> int {
    choose|i: int| occurs_at(hay, needle, i) && forall|j: int| 0 <= j < i ==> !occurs_at(hay, needle, j)
}

/// The byte range of the first match of lower-cased query `q` in the
/// lower-cased title, as `str::find` gives it.
pub open spec fn title_match_of(title: Seq<char>, q: Seq<char>) -> Option<(int, int)> {
    let lt = lowercase(title);
    if contains_seq(lt, q) {
        let b = utf8_len(lt.take(first_occurrence(lt, q)));
        Some((b as int, (b + utf8_len(q)) as int))
    } else {
        None
    }
}

/// The byte offset of the first match of `q` in the lower-cased description.
pub open spec fn desc_match_of(desc: Seq<char>, q: Seq<char>) -> Option<int> {
    let ld = lowercase(desc);
    if contains_seq(ld, q) {
        Some(utf8_len(ld.take(first_occurrence(ld, q))) as int)
    } else {
        None
    }
}

/// The byte range of the description shown around a match at byte `pos`:
/// twenty bytes before it, thirty after the match, within the text.
pub open spec fn snippet_range(desc: Seq<char>, pos: int, q: Seq<char>) -> (int, int) {
    let start = if pos >= 20 { pos - 20 } else { 0 };
    let e = pos + utf8_len(q) + 30;
    let end = if e < utf8_len(desc) { e } else { utf8_len(desc) as int };
    (start, end)
}

/// The snippet shown for a description matching at byte `pos`, with `...`
/// where text is cut off.
pub open spec fn snippet_text(desc: Seq<char>, pos: int, q: Seq<char>) -> Seq<char> {
    let (start, end) = snippet_range(desc, pos, q);
    (if start > 0 { "..."@ } else { Seq::empty() }) + byte_slice(desc, start, end) + (if end
        < utf8_len(desc) {
        "..."@
    } else {
        Seq::empty()
    })
}

/// Whether the snippet of a matching description can be cut without
/// splitting a character (its range is a pair of boundaries in order).
pub open spec fn snippet_cuttable(desc: Seq<char>, q: Seq<char>) -> bool {
    match desc_match_of(desc, q) {
        Some(pos) => {
            let (start, end) = snippet_range(desc, pos, q);
            start <= end && is_char_boundary(desc, start) && is_char_boundary(desc, end)
        },
        None => true,
    }
}

/// The snippet for a task's description, if it matches.
pub open spec fn snippet_of(t: Task, q: Seq<char>) -> Option<Seq<char>> {
    match t.description {
        Some(d) => match desc_match_of(d@, q) {
            Some(pos) => Some(snippet_text(d@, pos, q)),
            None => None,
        },
        None => None,
    }
}

/// A task is found when its title or its description matches.
pub open spec fn found(t: Task, q: Seq<char>) -> bool {
    title_match_of(t.title@, q) is Some || snippet_of(t, q) is Some
}

/// Every matching description of `tasks` can be cut for its snippet.
pub open spec fn snippets_cuttable(tasks: Seq<Task>, q: Seq<char>) -> bool {
    forall|i: int|
        0 <= i < tasks.len() ==> match (#[trigger] tasks[i]).description {
            Some(d) => snippet_cuttable(d@, q),
            None => true,
        }
}

/// `r` lists, in order, the tasks of `tasks` found for lower-cased query
/// `q`, each with its title match and snippet.
pub open spec fn search_results_for(r: Seq<SearchResult>, tasks: Seq<Task>, q: Seq<char>) -> bool {
    let hits = tasks.filter(|t: Task| found(t, q));
    &&& r.len() == hits.len()
    &&& forall|i: int|
        0 <= i < r.len() ==> {
            &&& same_task(#[trigger] r[i].task, hits[i])
            &&& match r[i].title_match {
                Some((a, b)) => title_match_of(hits[i].title@, q) == Some((a as int, b as int)),
                None => title_match_of(hits[i].title@, q) is None,
            }
            &&& match r[i].desc_snippet {
                Some(s) => snippet_of(hits[i], q) == Some(s@),
                None => snippet_of(hits[i], q) is None,
            }
        }
}

/// The first position of `needle` in `hay`, when it occurs (executable).
fn first_match(hay: &Vec<char>, needle: &Vec<char>) -> (r: Option<usize>)
    ensures
        match r {
            Some(i) => contains_seq(hay@, needle@) && i == first_occurrence(hay@, needle@)
                && occurs_at(hay@, needle@, i as int),
            None => !contains_seq(hay@, needle@),
        },
{
    match find_from(hay, needle, 0) {
        Some(i) => {
            proof {
                let f = first_occurrence(hay@, needle@);
                assert(occurs_at(hay@, needle@, i as int));
                assert(contains_seq(hay@, needle@));
                if f < i {
                    assert(occurs_at(hay@, needle@, f));
                } else if f > i {
                    assert(!occurs_at(hay@, needle@, i as int));
                }
            }
            Some(i)
        },
        None => {
            assert forall|j: int| !occurs_at(hay@, needle@, j) by {
                if j < 0 {
                }
            }
            None
        },
    }
}

/// A match of `q` at `k` ends within the text's bytes.
proof fn lemma_match_bytes(hay: Seq<char>, q: Seq<char>, k: int)
    requires
        occurs_at(hay, q, k),
    ensures
        utf8_len(hay.take(k)) + utf8_len(q) == utf8_len(hay.take(k + q.len())),
        utf8_len(hay.take(k + q.len())) <= utf8_len(hay),
{
    assert(hay.take(k + q.len()) =~= hay.take(k) + q);
    crate::text::lemma_utf8_len_append(hay.take(k), q);
    lemma_utf8_len_take_mono(hay, k + q.len(), hay.len() as int);
    assert(hay.take(hay.len() as int) =~= hay);
}

/// The number of UTF-8 bytes of `v[..k]`, given that all of `v` fits.
fn bytes_before(v: &Vec<char>, k: usize) -> (r: usize)
    requires
        k <= v@.len(),
        utf8_len(v@) <= usize::MAX,
    ensures
        r == utf8_len(v@.take(k as int)),
{
    let p = sub_chars(v, 0, k);
    assert(p@ =~= v@.take(k as int));
    proof {
        lemma_utf8_len_take_mono(v@, k as int, v@.len() as int);
        assert(v@.take(v@.len() as int) =~= v@);
    }
    utf8_len_of(&p)
}

/// The byte range of the first match of `ql` in a lower-cased title.
#[verifier::rlimit(40)]
fn title_match(title: &String, ql: &Vec<char>, q_bytes: usize) -> (r: Option<(usize, usize)>)
    requires
        q_bytes == utf8_len(ql@),
    ensures
        match r {
            Some((a, b)) => title_match_of(title@, ql@) == Some((a as int, b as int)),
            None => title_match_of(title@, ql@) is None,
        },
{
    let ghost q = ql@;
    let tl_s = to_lowercase(title.as_str());
    let tl_n = str_byte_len(tl_s.as_str());
    let tl = chars_of_string(&tl_s);
    let title_match: Option<(usize, usize)> = match first_match(&tl, &ql) {
        Some(k) => {
            let b = bytes_before(&tl, k);
            proof {
                lemma_match_bytes(tl@, q, k as int);
            }
            Some((b, b + q_bytes))
        },
        None => None,
    };
    title_match
}

/// The cut text of `dv` between byte boundaries `start <= end`, with `...`
/// where text is cut off.
fn cut_snippet(dv: &Vec<char>, start: usize, end: usize, d_n: usize) -> (r: Vec<char>)
    requires
        start <= end,
        is_char_boundary(dv@, start as int),
        is_char_boundary(dv@, end as int),
        d_n == utf8_len(dv@),
    ensures
        r@ == (if start > 0 { "..."@ } else { Seq::empty() }) + byte_slice(dv@, start as int, end as int) + (
        if end < d_n {
            "..."@
        } else {
            Seq::empty()
        }),
{
    proof {
        lemma_prefix_bytes_order(dv@, start as int, end as int);
        reveal_strlit("...");
    }
    let head = take_bytes(dv, start);
    let upto = take_bytes(dv, end);
    let mut snip: Vec<char> = Vec::new();
    if start > 0 {
        snip.push('.');
        snip.push('.');
        snip.push('.');
    }
    let ghost lead = snip@;
    let mid = sub_chars(&upto, head.len(), upto.len());
    let mut j: usize = 0;
    while j < mid.len()
        invariant
            j <= mid@.len(),
            snip@ == lead + mid@.take(j as int),
        decreases mid@.len() - j,
    {
        snip.push(mid[j]);
        assert(mid@.take(j + 1) =~= mid@.take(j as int).push(mid@[j as int]));
        j = j + 1;
    }
    let ghost body = snip@;
    if end < d_n {
        snip.push('.');
        snip.push('.');
        snip.push('.');
    }
    assert(mid@.take(mid@.len() as int) =~= mid@);
    assert(mid@ =~= byte_slice(dv@, start as int, end as int));
    assert(lead =~= (if start > 0 { "..."@ } else { Seq::<char>::empty() }));
    assert(snip@ =~= (if start > 0 { "..."@ } else { Seq::<char>::empty() }) + byte_slice(
        dv@,
        start as int,
        end as int,
    ) + (if end < d_n {
        "..."@
    } else {
        Seq::<char>::empty()
    }));
    snip
}

/// The snippet of description `d` around the first match of `ql`.
#[verifier::rlimit(60)]
fn snippet(d: &String, ql: &Vec<char>, q_bytes: usize) -> (r: Option<String>)
    requires
        q_bytes == utf8_len(ql@),
        snippet_cuttable(d@, ql@),
    ensures
        match r {
            Some(s) => desc_match_of(d@, ql@) is Some && s@ == snippet_text(d@, desc_match_of(d@, ql@)->0, ql@),
            None => desc_match_of(d@, ql@) is None,
        },
{
    let dl_s = to_lowercase(d.as_str());
    let dl = chars_of_string(&dl_s);
    let dl_n = str_byte_len(dl_s.as_str());
    match first_match(&dl, ql) {
        Some(k) => {
            let pos = bytes_before(&dl, k);
            let dv = chars_of_string(d);
            let d_n = str_byte_len(d.as_str());
            let start = if pos >= 20 { pos - 20 } else { 0 };
            let e: u128 = pos as u128 + q_bytes as u128 + 30;
            let end: usize = if e < d_n as u128 { e as usize } else { d_n };
            assert((start as int, end as int) == snippet_range(d@, pos as int, ql@));
            let snip = cut_snippet(&dv, start, end, d_n);
            Some(string_of(&snip))
        },
        None => None,
    }
}

/// The title match and description snippet of one task for lower-cased
/// query `ql`, of `q_bytes` bytes.
fn search_one(t: &Task, ql: &Vec<char>, q_bytes: usize) -> (r: (Option<(usize, usize)>, Option<String>))
    requires
        q_bytes == utf8_len(ql@),
        match t.description {
            Some(d) => snippet_cuttable(d@, ql@),
            None => true,
        },
    ensures
        match r.0 {
            Some((a, b)) => title_match_of(t.title@, ql@) == Some((a as int, b as int)),
            None => title_match_of(t.title@, ql@) is None,
        },
        match r.1 {
            Some(s) => snippet_of(*t, ql@) == Some(s@),
            None => snippet_of(*t, ql@) is None,
        },
{
    let tm = title_match(&t.title, ql, q_bytes);
    let ds = match &t.description {
        Some(d) => snippet(d, ql, q_bytes),
        None => None,
    };
    (tm, ds)
}

/// Searches `tasks` for `query`, ignoring case (by Unicode lower-casing):
/// the tasks whose title or description contains it, with the byte range of
/// the title match and a snippet of the description around its match. An
/// empty query finds nothing.
pub fn search_tasks(query: &str, tasks: &[Task]) -> (r: Vec<SearchResult>)
    requires
        snippets_cuttable(tasks@, lowercase(query@)),
    ensures
        lowercase(query@).len() == 0 ==> r@.len() == 0,
        lowercase(query@).len() > 0 ==> search_results_for(r@, tasks@, lowercase(query@)),
        is_ascii_seq(query@) ==> lowercase(query@) == ascii_lowered(query@),
{
    let refs = refs_of(tasks);
    search_task_refs(query, &refs)
}

/// [`search_tasks`] over references to the tasks.
pub fn search_task_refs(query: &str, tasks: &Vec<&Task>) -> (r: Vec<SearchResult>)
    requires
        snippets_cuttable(tasks@.map_values(|t: &Task| *t), lowercase(query@)),
    ensures
        lowercase(query@).len() == 0 ==> r@.len() == 0,
        lowercase(query@).len() > 0 ==> search_results_for(
            r@,
            tasks@.map_values(|t: &Task| *t),
            lowercase(query@),
        ),
        is_ascii_seq(query@) ==> lowercase(query@) == ascii_lowered(query@),
{
    let ghost ts = tasks@.map_values(|t: &Task| *t);
    let ql_s = to_lowercase(query);
    let ql = chars_of_string(&ql_s);
    if ql.len() == 0 {
        return Vec::new();
    }
    let q_bytes = str_byte_len(ql_s.as_str());
    let ghost q = ql@;
    let ghost pred = |t: Task| found(t, q);
    let mut out: Vec<SearchResult> = Vec::new();
    let mut i: usize = 0;
    while i < tasks.len()
        invariant
            i <= tasks@.len(),
            ts == tasks@.map_values(|t: &Task| *t),
            q == ql@,
            q == lowercase(query@),
            q_bytes == utf8_len(q),
            pred == (|t: Task| found(t, q)),
            snippets_cuttable(ts, q),
            search_results_for(out@, ts.take(i as int), q),
        decreases tasks@.len() - i,
    {
        let t = tasks[i];
        proof {
            assert(ts[i as int] == *t);
        }
        let (title_match, desc_snippet) = search_one(t, &ql, q_bytes);
        let ghost before = out@;
        assert(ts.take(i + 1) =~= ts.take(i as int).push(ts[i as int]));
        proof {
            ts.take(i as int).lemma_filter_push(ts[i as int], pred);
        }
        if title_match.is_some() || desc_snippet.is_some() {
            let c = t.copy();
            out.push(SearchResult { task: c, title_match, desc_snippet });
            proof {
                let hits = ts.take(i + 1).filter(pred);
                assert(hits == ts.take(i as int).filter(pred).push(ts[i as int]));
                assert forall|j: int| 0 <= j < out@.len() implies {
                    &&& same_task(#[trigger] out@[j].task, hits[j])
                    &&& match out@[j].title_match {
                        Some((a, b)) => title_match_of(hits[j].title@, q) == Some((a as int, b as int)),
                        None => title_match_of(hits[j].title@, q) is None,
                    }
                    &&& match out@[j].desc_snippet {
                        Some(s) => snippet_of(hits[j], q) == Some(s@),
                        None => snippet_of(hits[j], q) is None,
                    }
                } by {
                    if j < before.len() {
                        assert(out@[j] == before[j]);
                    }
                }
            }
        } else {
            proof {
                assert(!found(ts[i as int], q));
            }
        }
        i = i + 1;
    }
    assert(ts.take(ts.len() as int) =~= ts);
    out
}

/// Whether the snippet of description `d` for `ql` can be cut (executable
/// [`snippet_cuttable`]).
#[verifier::rlimit(40)]
fn snippet_ok(d: &String, ql: &Vec<char>, q_bytes: usize) -> (r: bool)
    requires
        q_bytes == utf8_len(ql@),
    ensures
        r == snippet_cuttable(d@, ql@),
{
    let dl_s = to_lowercase(d.as_str());
    let dl = chars_of_string(&dl_s);
    let dl_n = str_byte_len(dl_s.as_str());
    match first_match(&dl, ql) {
        Some(k) => {
            let pos = bytes_before(&dl, k);
            let dv = chars_of_string(d);
            let d_n = str_byte_len(d.as_str());
            let start = if pos >= 20 { pos - 20 } else { 0 };
            let e: u128 = pos as u128 + q_bytes as u128 + 30;
            let end: usize = if e < d_n as u128 { e as usize } else { d_n };
            assert((start as int, end as int) == snippet_range(d@, pos as int, ql@));
            start <= end && is_boundary(&dv, start) && is_boundary(&dv, end)
        },
        None => true,
    }
}

/// Whether every matching description of `tasks` can be cut for its snippet
/// under the lower-cased `query`.
#[verifier::rlimit(40)]
fn all_cuttable(query: &str, tasks: &Vec<&Task>) -> (b: bool)
    ensures
        b <==> snippets_cuttable(tasks@.map_values(|t: &Task| *t), lowercase(query@)),
        is_ascii_seq(query@) ==> lowercase(query@) == ascii_lowered(query@),
{
    let ghost ts = tasks@.map_values(|t: &Task| *t);
    let ql_s = to_lowercase(query);
    let ql = chars_of_string(&ql_s);
    let q_bytes = str_byte_len(ql_s.as_str());
    let mut i: usize = 0;
    while i < tasks.len()
        invariant
            i <= tasks@.len(),
            ts == tasks@.map_values(|t: &Task| *t),
            ql@ == lowercase(query@),
            is_ascii_seq(query@) ==> ql@ == ascii_lowered(query@),
            q_bytes == utf8_len(ql@),
            forall|j: int|
                0 <= j < i ==> match (#[trigger] ts[j]).description {
                    Some(d) => snippet_cuttable(d@, ql@),
                    None => true,
                },
        decreases tasks@.len() - i,
    {
        proof {
            assert(ts[i as int] == *tasks@[i as int]);
        }
        match &tasks[i].description {
            Some(d) => {
                if !snippet_ok(d, &ql, q_bytes) {
                    assert(!snippets_cuttable(ts, lowercase(query@)));
                    return false;
                }
            },
            None => {},
        }
        i = i + 1;
    }
    true
}

/// Searches like [`search_tasks`] when every matching description can be
/// cut for its snippet, and gives `None` otherwise.
pub fn search_tasks_checked(query: &str, tasks: &[Task]) -> (r: Option<Vec<SearchResult>>)
    ensures
        r is Some <==> snippets_cuttable(tasks@, lowercase(query@)),
        r matches Some(v) ==> (lowercase(query@).len() == 0 ==> v@.len() == 0) && (lowercase(
            query@,
        ).len() > 0 ==> search_results_for(v@, tasks@, lowercase(query@))),
        is_ascii_seq(query@) ==> lowercase(query@) == ascii_lowered(query@),
{
    let refs = refs_of(tasks);
    if all_cuttable(query, &refs) {
        Some(search_tasks(query, tasks))
    } else {
        None
    }
}

/// [`search_tasks_checked`] over references to the tasks.
pub fn search_task_refs_checked(query: &str, tasks: &Vec<&Task>) -> (r: Option<Vec<SearchResult>>)
    ensures
        r is Some <==> snippets_cuttable(tasks@.map_values(|t: &Task| *t), lowercase(query@)),
        r matches Some(v) ==> (lowercase(query@).len() == 0 ==> v@.len() == 0) && (lowercase(
            query@,
        ).len() > 0 ==> search_results_for(
            v@,
            tasks@.map_values(|t: &Task| *t),
            lowercase(query@),
        )),
        is_ascii_seq(query@) ==> lowercase(query@) == ascii_lowered(query@),
{
    if all_cuttable(query, tasks) {
        Some(search_task_refs(query, tasks))
    } else {
        None
    }
}


/// A search result as the result list shows it: the title split round its
/// match, each side shortened to fit.
#[derive(Debug, Clone)]
pub struct ResultRow {
    /// `▶ ` for the selected result, else two spaces
    pub selector: &'static str,
    /// `[ ]`, `[▸]` or `[✓]`
    pub checkbox: &'static str,
    /// `!!`, ` !`, two spaces or ` ↓`
    pub priority: &'static str,
    /// The bytes the title may take
    pub title_width: usize,
    /// The title before the match, or the whole title when it does not match
    pub lead: Option<String>,
    /// The matching part of the title
    pub matched: Option<String>,
    /// The title after the match
    pub tail: Option<String>,
    /// The due date's label, or empty
    pub due: String,
    /// Colour of the row
    pub tone: RowTone,
    /// Whether the row is selected (and bold)
    pub selected: bool,
}

/// The view of an optional string.
pub open spec fn opt_view(o: Option<String>) -> Option<Seq<char>> {
    match o {
        Some(s) => Some(s@),
        None => None,
    }
}

/// The checkbox of a status in the result list.
pub open spec fn result_checkbox(s: TaskStatus) -> Seq<char> {
    match s {
        TaskStatus::Pending => "[ ]"@,
        TaskStatus::InProgress => "[▸]"@,
        _ => "[✓]"@,
    }
}

/// The priority marker in the result list.
pub open spec fn result_priority(p: Priority) -> Seq<char> {
    match p {
        Priority::Urgent => "!!"@,
        Priority::High => " !"@,
        Priority::Medium => "  "@,
        Priority::Low => " ↓"@,
    }
}

/// The due date's label in the result list.
pub open spec fn result_due(t: Task, clock: Clock) -> Seq<char> {
    match t.due_date {
        Some(d) => when_label(d, clock),
        None => Seq::empty(),
    }
}

/// The bytes left for the title in a result row `width` wide, at least 10.
pub open spec fn result_title_width(t: Task, width: int, clock: Clock) -> int {
    let left = width - (15 + utf8_len(result_due(t, clock)));
    if left > 10 {
        left
    } else {
        10
    }
}

/// `a - b`, or 0 when `b` is larger.
pub open spec fn less(a: int, b: int) -> int {
    if a > b {
        a - b
    } else {
        0
    }
}

/// `s` can be shortened to `max` bytes (see [`truncated`]) without
/// splitting a character.
pub open spec fn truncatable(s: Seq<char>, max: int) -> bool {
    utf8_len(s) > max ==> is_char_boundary(s, if max > 3 { max - 3 } else { max })
}

/// The end of a title match, kept within the title.
pub open spec fn match_end(title: Seq<char>, b: int) -> int {
    if b < utf8_len(title) {
        b
    } else {
        utf8_len(title) as int
    }
}

/// The title of `t` can be cut round match `m` and shortened without
/// splitting a character.
pub open spec fn result_cuttable(t: Task, m: Option<(usize, usize)>, width: int, clock: Clock) -> bool {
    let tw = result_title_width(t, width, clock);
    let title = t.title@;
    let n = utf8_len(title) as int;
    match m {
        Some((a, b)) => {
            let e = match_end(title, b as int);
            &&& a <= e
            &&& is_char_boundary(title, a as int)
            &&& is_char_boundary(title, e)
            &&& a > 0 ==> truncatable(byte_slice(title, 0, a as int), tw)
            &&& b < n ==> truncatable(byte_slice(title, b as int, n), less(tw, b as int))
        },
        None => truncatable(title, tw),
    }
}

/// The row `r` shows result `t` with title match `m` as the result list does.
pub open spec fn shows_result(
    r: ResultRow,
    t: Task,
    m: Option<(usize, usize)>,
    selected: bool,
    width: int,
    clock: Clock,
) -> bool {
    let tw = r.title_width as int;
    let title = t.title@;
    let n = utf8_len(title) as int;
    &&& r.selector@ == (if selected { "▶ "@ } else { "  "@ })
    &&& r.checkbox@ == result_checkbox(t.status)
    &&& r.priority@ == result_priority(t.priority)
    &&& tw == result_title_width(t, width, clock)
    &&& r.due@ == result_due(t, clock)
    &&& r.tone == title_tone_of(t, clock)
    &&& r.selected == selected
    &&& match m {
        Some((a, b)) => {
            &&& opt_view(r.lead) == (if a > 0 {
                Some(truncated(byte_slice(title, 0, a as int), tw))
            } else {
                None
            })
            &&& opt_view(r.matched) == Some(byte_slice(title, a as int, match_end(title, b as int)))
            &&& opt_view(r.tail) == (if b < n {
                Some(truncated(byte_slice(title, b as int, n), less(tw, b as int)))
            } else {
                None
            })
        },
        None => {
            &&& opt_view(r.lead) == Some(truncated(title, tw))
            &&& r.matched is None
            &&& r.tail is None
        },
    }
}

/// The checkbox (executable [`result_checkbox`]).
fn checkbox_of(s: TaskStatus) -> (r: &'static str)
    ensures
        r@ == result_checkbox(s),
{
    match s {
        TaskStatus::Pending => "[ ]",
        TaskStatus::InProgress => "[▸]",
        _ => "[✓]",
    }
}

/// The priority marker (executable [`result_priority`]).
fn priority_marker(p: Priority) -> (r: &'static str)
    ensures
        r@ == result_priority(p),
{
    match p {
        Priority::Urgent => "!!",
        Priority::High => " !",
        Priority::Medium => "  ",
        Priority::Low => " ↓",
    }
}

/// The due label and title width of a result row.
fn result_layout(t: &Task, width: u16, clock: Clock) -> (r: (String, usize))
    requires
        clock.wf(),
    ensures
        r.0@ == result_due(*t, clock),
        r.1 == result_title_width(*t, width as int, clock),
{
    let due = match t.due_date {
        Some(d) => format_relative_date_at(d, clock),
        None => String::new(),
    };
    let fixed: u128 = 15u128 + str_byte_len(due.as_str()) as u128;
    let w = width as u128;
    let tw: usize = if w > fixed && w - fixed > 10 { (w - fixed) as usize } else { 10 };
    (due, tw)
}

/// Whether `v` can be shortened to `max` bytes (executable [`truncatable`]).
fn can_truncate(v: &Vec<char>, max: usize) -> (r: bool)
    requires
        utf8_len(v@) <= usize::MAX,
    ensures
        r == truncatable(v@, max as int),
{
    let n = utf8_len_of(v);
    if n > max {
        is_boundary(v, if max > 3 { max - 3 } else { max })
    } else {
        true
    }
}

/// Builds the row of search result `t` with title match `m`, in a list
/// `width` wide on the clock. The title must be cut between characters.
pub fn result_row_at(t: &Task, m: Option<(usize, usize)>, selected: bool, width: u16, clock: Clock) -> (r: ResultRow)
    requires
        clock.wf(),
        result_cuttable(*t, m, width as int, clock),
    ensures
        shows_result(r, *t, m, selected, width as int, clock),
{
    let (due, tw) = result_layout(t, width, clock);
    let title = chars_of_string(&t.title);
    let n = str_byte_len(t.title.as_str());
    proof {
        lemma_ends_are_boundaries(title@);
    }
    let (lead, matched, tail) = match m {
        Some((a, b)) => {
            let e = if b < n { b } else { n };
            let lead = if a > 0 {
                let s = string_of(&slice_bytes(&title, 0, a));
                Some(truncate_str(s.as_str(), tw))
            } else {
                None
            };
            let mid = string_of(&slice_bytes(&title, a, e));
            let tail = if b < n {
                let s = string_of(&slice_bytes(&title, b, n));
                Some(truncate_str(s.as_str(), tw.saturating_sub(b)))
            } else {
                None
            };
            (lead, Some(mid), tail)
        },
        None => (Some(truncate_str(t.title.as_str(), tw)), None, None),
    };
    let tone = if t.status == TaskStatus::Completed || t.status == TaskStatus::Archived {
        RowTone::Completed
    } else if t.is_overdue_at(clock.now) {
        RowTone::Overdue
    } else if t.is_due_today_at(clock) {
        RowTone::DueToday
    } else if t.is_due_this_week_at(clock.now) {
        RowTone::DueThisWeek
    } else {
        RowTone::Primary
    };
    proof {
        reveal_strlit("▶ ");
        reveal_strlit("  ");
    }
    ResultRow {
        selector: if selected { "▶ " } else { "  " },
        checkbox: checkbox_of(t.status),
        priority: priority_marker(t.priority),
        title_width: tw,
        lead,
        matched,
        tail,
        due,
        tone,
        selected,
    }
}

/// Builds the row as [`result_row_at`] does when its title can be cut
/// between characters, and gives `None` otherwise.
pub fn result_row_checked_at(
    t: &Task,
    m: Option<(usize, usize)>,
    selected: bool,
    width: u16,
    clock: Clock,
) -> (r: Option<ResultRow>)
    requires
        clock.wf(),
    ensures
        r is Some <==> result_cuttable(*t, m, width as int, clock),
        r matches Some(row) ==> shows_result(row, *t, m, selected, width as int, clock),
{
    let (_, tw) = result_layout(t, width, clock);
    let title = chars_of_string(&t.title);
    let n = str_byte_len(t.title.as_str());
    proof {
        lemma_ends_are_boundaries(title@);
    }
    let ok = match m {
        Some((a, b)) => {
            let e = if b < n { b } else { n };
            if a <= e && is_boundary(&title, a) && is_boundary(&title, e) {
                let lead_ok = if a > 0 {
                    let s = slice_bytes(&title, 0, a);
                    proof {
                        lemma_prefix_bytes_order(title@, 0, a as int);
                        lemma_slice_fits(title@, 0, a as int);
                    }
                    can_truncate(&s, tw)
                } else {
                    true
                };
                let tail_ok = if b < n {
                    let s = slice_bytes(&title, b, n);
                    proof {
                        lemma_slice_fits(title@, b as int, n as int);
                    }
                    can_truncate(&s, tw.saturating_sub(b))
                } else {
                    true
                };
                lead_ok && tail_ok
            } else {
                false
            }
        },
        None => can_truncate(&title, tw),
    };
    if ok {
        Some(result_row_at(t, m, selected, width, clock))
    } else {
        None
    }
}

/// A slice of `s` between boundaries takes no more bytes than `s`.
proof fn lemma_slice_fits(s: Seq<char>, a: int, b: int)
    requires
        0 <= a <= b,
        is_char_boundary(s, a),
        is_char_boundary(s, b),
    ensures
        utf8_len(byte_slice(s, a, b)) <= utf8_len(s),
{
    lemma_prefix_bytes_order(s, a, b);
    let pa = prefix_bytes(s, a).len() as int;
    let pb = prefix_bytes(s, b).len() as int;
    let sl = byte_slice(s, a, b);
    assert(s.take(pb) =~= s.take(pa) + sl);
    crate::text::lemma_utf8_len_append(s.take(pa), sl);
    lemma_utf8_len_take_mono(s, pb, s.len() as int);
    assert(s.take(s.len() as int) =~= s);
}

/// A description snippet as the result list shows it: the text before the
/// first match of the query, and the match and what follows, when found.
#[derive(Debug, Clone)]
pub struct SnippetLine {
    /// The text before the match, or the whole snippet
    pub head: String,
    /// The matched text and the text after it
    pub found: Option<(String, String)>,
}

/// Where the snippet line cuts: at the first match of the lower-cased
/// query in the lower-cased snippet, for as many bytes as the query has.
pub open spec fn snippet_cut(snippet: Seq<char>, query: Seq<char>) -> Option<(int, int)> {
    match desc_match_of(snippet, lowercase(query)) {
        Some(p) => Some((p, p + utf8_len(query))),
        None => None,
    }
}

/// The snippet can be cut there without splitting a character.
pub open spec fn snippet_line_cuttable(snippet: Seq<char>, query: Seq<char>) -> bool {
    match snippet_cut(snippet, query) {
        Some((p, e)) => e <= utf8_len(snippet) && is_char_boundary(snippet, p) && is_char_boundary(snippet, e),
        None => true,
    }
}

/// Splits a description snippet round the first match of `query`, ignoring
/// case. The cut must fall between characters.
pub fn snippet_line(snippet: &str, query: &str) -> (r: SnippetLine)
    requires
        snippet_line_cuttable(snippet@, query@),
    ensures
        match snippet_cut(snippet@, query@) {
            Some((p, e)) => r.head@ == byte_slice(snippet@, 0, p) && match r.found {
                Some((m, a)) => m@ == byte_slice(snippet@, p, e) && a@ == byte_slice(
                    snippet@,
                    e,
                    utf8_len(snippet@) as int,
                ),
                None => false,
            },
            None => r.head@ == snippet@ && r.found is None,
        },
{
    match snippet_cut_at(snippet, query) {
        Some((p, e)) => {
            let v = chars_of(snippet);
            let n = str_byte_len(snippet);
            proof {
                lemma_ends_are_boundaries(v@);
                lemma_prefix_bytes_order(v@, p as int, e as int);
                lemma_prefix_bytes_order(v@, e as int, n as int);
                lemma_ends_are_boundaries(v@);
            }
            let head = string_of(&slice_bytes(&v, 0, p));
            let m = string_of(&slice_bytes(&v, p, e));
            let a = string_of(&slice_bytes(&v, e, n));
            SnippetLine { head, found: Some((m, a)) }
        },
        None => SnippetLine { head: crate::text::string_from(snippet), found: None },
    }
}

/// Where a snippet line cuts (executable [`snippet_cut`]), when the cut ends
/// within the snippet.
#[verifier::rlimit(60)]
fn snippet_cut_at(snippet: &str, query: &str) -> (r: Option<(usize, usize)>)
    requires
        snippet_line_cuttable(snippet@, query@),
    ensures
        match r {
            Some((p, e)) => snippet_cut(snippet@, query@) == Some((p as int, e as int)),
            None => snippet_cut(snippet@, query@) is None,
        },
{
    let ql_s = to_lowercase(query);
    let ql = chars_of_string(&ql_s);
    let sl_s = to_lowercase(snippet);
    let sl = chars_of_string(&sl_s);
    let sl_n = str_byte_len(sl_s.as_str());
    let q_n = str_byte_len(query);
    let s_n = str_byte_len(snippet);
    let ghost q = lowercase(query@);
    let ghost ls = lowercase(snippet@);
    assert(ql@ == q && sl@ == ls);
    assert(utf8_len(sl@) <= usize::MAX);
    match first_match(&sl, &ql) {
        Some(k) => {
            let p = bytes_before(&sl, k);
            assert(desc_match_of(snippet@, q) == Some(p as int));
            assert(snippet_cut(snippet@, query@) == Some((p as int, p + utf8_len(query@))));
            assert(p + q_n <= s_n);
            Some((p, p + q_n))
        },
        None => {
            assert(desc_match_of(snippet@, q) is None);
            None
        },
    }
}


/// Splits the snippet as [`snippet_line`] does when the cut falls between
/// characters, and gives `None` otherwise.
#[verifier::rlimit(60)]
pub fn snippet_line_checked(snippet: &str, query: &str) -> (r: Option<SnippetLine>)
    ensures
        r is Some <==> snippet_line_cuttable(snippet@, query@),
        r matches Some(line) ==> match snippet_cut(snippet@, query@) {
            Some((p, e)) => line.head@ == byte_slice(snippet@, 0, p) && match line.found {
                Some((m, a)) => m@ == byte_slice(snippet@, p, e) && a@ == byte_slice(
                    snippet@,
                    e,
                    utf8_len(snippet@) as int,
                ),
                None => false,
            },
            None => line.head@ == snippet@ && line.found is None,
        },
{
    let ql_s = to_lowercase(query);
    let ql = chars_of_string(&ql_s);
    let sl_s = to_lowercase(snippet);
    let sl = chars_of_string(&sl_s);
    let _sl_n = str_byte_len(sl_s.as_str());
    let q_n = str_byte_len(query);
    let s_n = str_byte_len(snippet);
    let ghost q = lowercase(query@);
    assert(ql@ == q && sl@ == lowercase(snippet@));
    match first_match(&sl, &ql) {
        Some(k) => {
            let p = bytes_before(&sl, k);
            assert(desc_match_of(snippet@, q) == Some(p as int));
            let e: u128 = p as u128 + q_n as u128;
            if e > s_n as u128 {
                return None;
            }
            let v = chars_of(snippet);
            if !(is_boundary(&v, p) && is_boundary(&v, e as usize)) {
                return None;
            }
            Some(snippet_line(snippet, query))
        },
        None => {
            assert(desc_match_of(snippet@, q) is None);
            Some(snippet_line(snippet, query))
        },
    }
}

} // verus!
