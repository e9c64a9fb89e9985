//! Quick capture: a one-line task entry with inline syntax,
//! `<title> [@project] [#tag ...] [!priority] [due:date]`.
//!
//! | Token | Meaning |
//! |-------|---------|
//! | `@Name` | project, matched loosely against the project names |
//! | `#tag` | tag |
//! | `!1`–`!4` | priority, 1 urgent to 4 low |
//! | `due:val` | due date, as the due date field reads it |
//! | `\@` `\#` | a literal `@` or `#` in the title |
//! | anything else | a word of the title |
use vstd::prelude::*;
use crate::models::priority::Priority;
use crate::models::project::Project;
use crate::models::task::Task;
use crate::storage::tags::Tag;
use crate::text::{is_ws, lowercase, occurs_at, contains_seq, views_of};
use crate::ui::input::{TextInput, word_left, word_right};
use crate::keys::{KeyCode, KeyEvent};
use crate::utils::datetime::Clock;
use crate::ui::dialogs::due_date::{due_instant, parse_due_date_at};
use crate::ui::dialogs::add_task::AddTaskDialog;
use crate::ui::tag_input::TagInput;
use crate::models::task::copy_strings;
use crate::text::{trim, split_on};
use crate::ui::layout::Area;
use crate::ui::theme::icons::{DIAMOND, PRIORITY_URGENT, PRIORITY_HIGH, PRIORITY_LOW, CIRCLE, CHECKBOX_PROGRESS};

verus! {

/// The words of `s`: its maximal runs of non-white-space characters, as
/// `str::split_whitespace` gives them.
pub open spec fn words(s: Seq<char>) -> Seq<Seq<char>>
    decreases s.len(),
{
    if s.len() == 0 {
        Seq::empty()
    } else {
        let p = words(s.drop_last());
        if is_ws(s.last()) {
            p
        } else if s.len() >= 2 && !is_ws(s[s.len() - 2]) {
            p.update(p.len() - 1, p.last().push(s.last()))
        } else {
            p.push(seq![s.last()])
        }
    }
}

/// A text that ends inside a word has at least one word, and every word is
/// non-empty.
pub proof fn lemma_words(s: Seq<char>)
    ensures
        s.len() > 0 && !is_ws(s.last()) ==> words(s).len() > 0,
        forall|i: int| 0 <= i < words(s).len() ==> (#[trigger] words(s)[i]).len() > 0,
    decreases s.len(),
{
    if s.len() > 0 {
        lemma_words(s.drop_last());
        let p = words(s.drop_last());
        if !is_ws(s.last()) && s.len() >= 2 && !is_ws(s[s.len() - 2]) {
            assert(s.drop_last().last() == s[s.len() - 2]);
            assert forall|i: int| 0 <= i < words(s).len() implies (#[trigger] words(s)[i]).len()
                > 0 by {
                if i < p.len() - 1 {
                    assert(words(s)[i] == p[i]);
                }
            }
        } else if !is_ws(s.last()) {
            assert forall|i: int| 0 <= i < words(s).len() implies (#[trigger] words(s)[i]).len()
                > 0 by {
                if i < p.len() {
                    assert(words(s)[i] == p[i]);
                }
            }
        }
    }
}

/// The character sequences held by a vector of character vectors.
pub open spec fn char_views(v: Seq<Vec<char>>) -> Seq<Seq<char>> {
    v.map_values(|x: Vec<char>| x@)
}

/// Splits `v` into its words (executable [`words`]).
pub fn split_words(v: &Vec<char>) -> (r: Vec<Vec<char>>)
    ensures
        char_views(r@) == words(v@),
{
    let mut done: Vec<Vec<char>> = Vec::new();
    let mut cur: Vec<char> = Vec::new();
    let mut i: usize = 0;
    while i < v.len()
        invariant
            i <= v@.len(),
            cur@.len() > 0 <==> (i > 0 && !is_ws(v@[i - 1])),
            cur@.len() > 0 ==> words(v@.take(i as int)) == char_views(done@).push(cur@),
            cur@.len() == 0 ==> words(v@.take(i as int)) == char_views(done@),
        decreases v@.len() - i,
    {
        let c = v[i];
        proof {
            assert(v@.take(i + 1).drop_last() =~= v@.take(i as int));
            assert(v@.take(i + 1).last() == c);
            if i > 0 {
                assert(v@.take(i + 1)[i - 1] == v@[i - 1]);
            }
        }
        if crate::text::is_whitespace(c) {
            if cur.len() > 0 {
                let ghost d = char_views(done@);
                done.push(cur);
                cur = Vec::new();
                assert(char_views(done@) =~= d.push(words(v@.take(i as int)).last()));
            }
        } else {
            let ghost d = char_views(done@);
            cur.push(c);
            proof {
                if cur@.len() > 1 {
                    assert(char_views(done@).push(cur@) =~= words(v@.take(i as int)).update(
                        words(v@.take(i as int)).len() - 1,
                        words(v@.take(i as int)).last().push(c),
                    ));
                } else {
                    assert(cur@ =~= seq![c]);
                }
            }
        }
        i = i + 1;
    }
    assert(v@.take(v@.len() as int) =~= v@);
    if cur.len() > 0 {
        let ghost d = char_views(done@);
        done.push(cur);
        assert(char_views(done@) =~= d.push(words(v@).last()));
    }
    done
}

/// The words joined with single spaces.
pub open spec fn join_words(ws: Seq<Seq<char>>) -> Seq<char>
    decreases ws.len(),
{
    if ws.len() == 0 {
        Seq::empty()
    } else if ws.len() == 1 {
        ws[0]
    } else {
        join_words(ws.drop_last()) + seq![' '] + ws.last()
    }
}

/// Joins words with single spaces (executable [`join_words`]).
pub fn join_chars(ws: &Vec<Vec<char>>) -> (r: Vec<char>)
    ensures
        r@ == join_words(char_views(ws@)),
{
    let mut out: Vec<char> = Vec::new();
    let mut i: usize = 0;
    while i < ws.len()
        invariant
            i <= ws@.len(),
            out@ == join_words(char_views(ws@).take(i as int)),
        decreases ws@.len() - i,
    {
        let ghost before = out@;
        if i > 0 {
            out.push(' ');
        }
        let w = &ws[i];
        let mut j: usize = 0;
        let ghost base = out@;
        while j < w.len()
            invariant
                j <= w@.len(),
                out@ == base + w@.take(j as int),
            decreases w@.len() - j,
        {
            out.push(w[j]);
            assert(w@.take(j + 1) =~= w@.take(j as int).push(w@[j as int]));
            j = j + 1;
        }
        proof {
            assert(w@.take(w@.len() as int) =~= w@);
            let t = char_views(ws@).take(i + 1);
            assert(t.drop_last() =~= char_views(ws@).take(i as int));
            assert(t.last() == w@);
            if i > 0 {
                assert(out@ =~= before + seq![' '] + w@);
            } else {
                assert(out@ =~= w@);
            }
        }
        i = i + 1;
    }
    assert(char_views(ws@).take(ws@.len() as int) =~= char_views(ws@));
    out
}

/// What a line of quick capture says, word by word.
pub struct CaptureView {
    /// The words of the title
    pub title_words: Seq<Seq<char>>,
    /// The project named by the last `@` token
    pub project: Option<Seq<char>>,
    /// The tags, in order
    pub tags: Seq<Seq<char>>,
    /// The priority of the last valid `!` token
    pub priority: Option<Priority>,
    /// The text of the last `due:` token
    pub due_text: Option<Seq<char>>,
}

/// Nothing said yet.
pub open spec fn empty_capture() -> CaptureView {
    CaptureView {
        title_words: Seq::empty(),
        project: None,
        tags: Seq::empty(),
        priority: None,
        due_text: None,
    }
}

/// The priority a `!` token names: 1 urgent, 2 high, 3 medium, 4 low.
pub open spec fn priority_level(l: Seq<char>) -> Option<Priority> {
    if l == seq!['1'] {
        Some(Priority::Urgent)
    } else if l == seq!['2'] {
        Some(Priority::High)
    } else if l == seq!['3'] {
        Some(Priority::Medium)
    } else if l == seq!['4'] {
        Some(Priority::Low)
    } else {
        None
    }
}

/// Whether `w` starts with `due:`.
pub open spec fn is_due_word(w: Seq<char>) -> bool {
    w.len() >= 4 && w.take(4) == seq!['d', 'u', 'e', ':']
}

/// What word `w` adds to capture `c`.
pub open spec fn absorb(c: CaptureView, w: Seq<char>) -> CaptureView {
    let title = CaptureView { title_words: c.title_words.push(w), ..c };
    if w.len() >= 1 && w[0] == '@' {
        if w.len() > 1 {
            CaptureView { project: Some(w.skip(1)), ..c }
        } else {
            title
        }
    } else if w.len() >= 1 && w[0] == '#' {
        if w.len() > 1 {
            CaptureView { tags: c.tags.push(w.skip(1)), ..c }
        } else {
            title
        }
    } else if w.len() >= 1 && w[0] == '!' {
        match priority_level(w.skip(1)) {
            Some(p) => CaptureView { priority: Some(p), ..c },
            None => title,
        }
    } else if is_due_word(w) {
        if w.len() > 4 {
            CaptureView { due_text: Some(w.skip(4)), ..c }
        } else {
            c
        }
    } else if w.len() >= 2 && w[0] == '\\' && w[1] == '@' {
        CaptureView { title_words: c.title_words.push(seq!['@'] + w.skip(2)), ..c }
    } else if w.len() >= 2 && w[0] == '\\' && w[1] == '#' {
        CaptureView { title_words: c.title_words.push(seq!['#'] + w.skip(2)), ..c }
    } else {
        title
    }
}

/// What the words say, read in order.
pub open spec fn absorb_all(ws: Seq<Seq<char>>) -> CaptureView
    decreases ws.len(),
{
    if ws.len() == 0 {
        empty_capture()
    } else {
        absorb(absorb_all(ws.drop_last()), ws.last())
    }
}

/// What a line says.
pub open spec fn capture_of(input: Seq<char>) -> CaptureView {
    absorb_all(words(input))
}

/// The characters of an optional string.
pub open spec fn opt_chars(o: Option<String>) -> Option<Seq<char>> {
    match o {
        Some(s) => Some(s@),
        None => None,
    }
}

/// The due instant a `due:` text gives at the time of `clock`.
pub open spec fn due_of(t: Option<Seq<char>>, clock: Clock) -> Option<i64> {
    match t {
        Some(x) => match due_instant(x, clock) {
            Some(d) => Some(d as i64),
            None => None,
        },
        None => None,
    }
}

/// Parsed result from quick capture input. The due date is in
/// microseconds since the Unix epoch.
#[derive(Debug, Clone)]
pub struct ParsedCapture {
    /// The task title (remaining words after token extraction)
    pub title: String,
    /// Project name from `@Name` token
    pub project_name: Option<String>,
    /// Tags from `#tag` tokens
    pub tags: Vec<String>,
    /// Priority from `!1`–`!4` token
    pub priority: Option<Priority>,
    /// Raw due date text from `due:value` token
    pub due_date_text: Option<String>,
    /// Parsed due date
    pub due_date: Option<i64>,
}

impl Default for ParsedCapture {
    fn default() -> (r: Self)
        ensures
            r.title@.len() == 0,
            r.project_name is None,
            r.tags@.len() == 0,
            r.priority is None,
            r.due_date_text is None,
            r.due_date is None,
    {
        ParsedCapture {
            title: String::new(),
            project_name: None,
            tags: Vec::new(),
            priority: None,
            due_date_text: None,
            due_date: None,
        }
    }
}

impl ParsedCapture {
    /// The parse of line `input` at the time of `clock`.
    pub open spec fn reads(&self, input: Seq<char>, clock: Clock) -> bool {
        let c = capture_of(input);
        &&& self.title@ == join_words(c.title_words)
        &&& opt_chars(self.project_name) == c.project
        &&& crate::text::views_of(self.tags@) == c.tags
        &&& self.priority == c.priority
        &&& opt_chars(self.due_date_text) == c.due_text
        &&& self.due_date == due_of(c.due_text, clock)
    }
}

/// The characters of optional character vectors.
pub open spec fn opt_vec(o: Option<Vec<char>>) -> Option<Seq<char>> {
    match o {
        Some(v) => Some(v@),
        None => None,
    }
}

/// Whether `w` starts with `c`.
fn starts_with_char(w: &Vec<char>, c: char) -> (r: bool)
    ensures
        r == (w@.len() >= 1 && w@[0] == c),
{
    w.len() >= 1 && w[0] == c
}

/// The characters of `w` from position `k` on.
fn chars_from(w: &Vec<char>, k: usize) -> (r: Vec<char>)
    requires
        k <= w@.len(),
    ensures
        r@ == w@.skip(k as int),
{
    crate::text::sub_chars(w, k, w.len())
}

/// The priority a `!` token names (executable [`priority_level`]).
fn level_of(l: &Vec<char>) -> (r: Option<Priority>)
    ensures
        r == priority_level(l@),
{
    if l.len() != 1 {
        proof {
            assert(l@ != seq!['1'] && l@ != seq!['2'] && l@ != seq!['3'] && l@ != seq!['4']);
        }
        return None;
    }
    let c = l[0];
    proof {
        assert(l@ == seq![c]);
    }
    if c == '1' {
        Some(Priority::Urgent)
    } else if c == '2' {
        Some(Priority::High)
    } else if c == '3' {
        Some(Priority::Medium)
    } else if c == '4' {
        Some(Priority::Low)
    } else {
        assert(l@ != seq!['1'] && l@ != seq!['2'] && l@ != seq!['3'] && l@ != seq!['4']);
        None
    }
}

/// Parses a line of quick capture at the time of `clock` (see
/// [`capture_of`]): each word is a token or a word of the title.
pub fn parse_capture_input_at(input: &str, clock: Clock) -> (r: ParsedCapture)
    requires
        clock.wf(),
    ensures
        r.reads(input@, clock),
{
    let chars = crate::text::chars_of(input);
    let ws = split_words(&chars);
    let ghost wv = char_views(ws@);
    let mut title_words: Vec<Vec<char>> = Vec::new();
    let mut project: Option<Vec<char>> = None;
    let mut tags: Vec<Vec<char>> = Vec::new();
    let mut priority: Option<Priority> = None;
    let mut due_text: Option<Vec<char>> = None;
    let mut i: usize = 0;
    while i < ws.len()
        invariant
            i <= ws@.len(),
            wv == char_views(ws@),
            ({
                let c = absorb_all(wv.take(i as int));
                &&& char_views(title_words@) == c.title_words
                &&& opt_vec(project) == c.project
                &&& char_views(tags@) == c.tags
                &&& priority == c.priority
                &&& opt_vec(due_text) == c.due_text
            }),
        decreases ws@.len() - i,
    {
        let w = &ws[i];
        let ghost c0 = absorb_all(wv.take(i as int));
        proof {
            assert(wv.take(i + 1).drop_last() =~= wv.take(i as int));
            assert(wv.take(i + 1).last() == w@);
        }
        let ghost tw = char_views(title_words@);
        let ghost tg = char_views(tags@);
        if starts_with_char(w, '@') {
            if w.len() > 1 {
                project = Some(chars_from(w, 1));
            } else {
                title_words.push(w.clone());
                assert(char_views(title_words@) =~= tw.push(w@));
            }
        } else if starts_with_char(w, '#') {
            if w.len() > 1 {
                tags.push(chars_from(w, 1));
                assert(char_views(tags@) =~= tg.push(w@.skip(1)));
            } else {
                title_words.push(w.clone());
                assert(char_views(title_words@) =~= tw.push(w@));
            }
        } else if starts_with_char(w, '!') {
            let l = chars_from(w, 1);
            match level_of(&l) {
                Some(p) => {
                    priority = Some(p);
                },
                None => {
                    title_words.push(w.clone());
                    assert(char_views(title_words@) =~= tw.push(w@));
                },
            }
        } else if w.len() >= 4 && w[0] == 'd' && w[1] == 'u' && w[2] == 'e' && w[3] == ':' {
            assert(w@.take(4) =~= seq!['d', 'u', 'e', ':']);
            if w.len() > 4 {
                due_text = Some(chars_from(w, 4));
            }
        } else if w.len() >= 2 && w[0] == '\\' && (w[1] == '@' || w[1] == '#') {
            proof {
                if w@.len() >= 4 {
                    assert(w@.take(4)[0] == '\\');
                }
            }
            let mut t: Vec<char> = Vec::new();
            t.push(w[1]);
            let rest = chars_from(w, 2);
            let t2 = crate::text::append_chars(&t, &rest);
            title_words.push(t2);
            assert(char_views(title_words@) =~= tw.push(seq![w@[1]] + w@.skip(2)));
        } else {
            proof {
                if w@.len() >= 4 {
                    assert(!is_due_word(w@) || w@.take(4)[0] == 'd');
                }
            }
            title_words.push(w.clone());
            assert(char_views(title_words@) =~= tw.push(w@));
        }
        i = i + 1;
    }
    assert(wv.take(ws@.len() as int) =~= wv);
    let title = crate::text::string_of(&join_chars(&title_words));
    let mut tag_strings: Vec<String> = Vec::new();
    let mut k: usize = 0;
    while k < tags.len()
        invariant
            k <= tags@.len(),
            crate::text::views_of(tag_strings@) == char_views(tags@).take(k as int),
        decreases tags@.len() - k,
    {
        let ghost before = crate::text::views_of(tag_strings@);
        let t = crate::text::string_of(&tags[k]);
        tag_strings.push(t);
        assert(crate::text::views_of(tag_strings@) =~= before.push(tags@[k as int]@));
        assert(char_views(tags@).take(k + 1) =~= char_views(tags@).take(k as int).push(
            tags@[k as int]@,
        ));
        k = k + 1;
    }
    assert(char_views(tags@).take(tags@.len() as int) =~= char_views(tags@));
    let project_name = match &project {
        Some(p) => Some(crate::text::string_of(p)),
        None => None,
    };
    let due_date_text = match &due_text {
        Some(t) => Some(crate::text::string_of(t)),
        None => None,
    };
    let due_date = match &due_date_text {
        Some(t) => parse_due_date_at(t.as_str(), clock),
        None => None,
    };
    ParsedCapture { title, project_name, tags: tag_strings, priority, due_date_text, due_date }
}

/// Parses a line of quick capture, reading due dates at the current time.
pub fn parse_capture_input(input: &str) -> (r: ParsedCapture)
    ensures
        exists|c: Clock| c.wf() && r.reads(input@, c),
{
    parse_capture_input_at(input, Clock::read())
}

/// What the suggestion list offers.
#[derive(Debug, Clone, Copy, PartialEq, Eq, Structural)]
pub enum SuggestionMode {
    /// No suggestions
    Nothing,
    /// Project names, for an `@` token
    Projects,
    /// Tag names, for a `#` token
    Tags,
    /// Priority levels, for a `!` token
    Priorities,
}

/// What the dialog asks of its owner after a key press.
#[derive(Debug, Clone, Copy, PartialEq, Eq, Structural)]
pub enum QuickCaptureAction {
    /// Nothing to do; the dialog stays open
    Nothing,
    /// The task is to be created
    Submit,
    /// The dialog is to be closed
    Cancel,
    /// The full task dialog is to take over
    ExpandToFull,
}

/// How a project name is compared: lower-cased.
pub open spec fn name_key(p: Project) -> Seq<char> {
    lowercase(p.name@)
}

/// The three ways a name can match a lower-cased query.
#[derive(Clone, Copy, PartialEq, Eq, Structural)]
pub enum NameMatch {
    /// Equal
    Exact,
    /// Starts with the query
    Prefix,
    /// Contains the query
    Substring,
}

/// Whether lower-cased name `key` matches `lower` in way `m`.
pub open spec fn name_matches(key: Seq<char>, lower: Seq<char>, m: NameMatch) -> bool {
    match m {
        NameMatch::Exact => key == lower,
        NameMatch::Prefix => occurs_at(key, lower, 0),
        NameMatch::Substring => contains_seq(key, lower),
    }
}

/// The position of the first project whose name matches `lower` in way `m`.
pub open spec fn first_match(ps: Seq<Project>, lower: Seq<char>, m: NameMatch) -> Option<int>
    decreases ps.len(),
{
    if ps.len() == 0 {
        None
    } else {
        match first_match(ps.drop_last(), lower, m) {
            Some(i) => Some(i),
            None => if name_matches(name_key(ps.last()), lower, m) {
                Some(ps.len() - 1)
            } else {
                None
            },
        }
    }
}

/// The project a name designates: the first whose lower-cased name equals
/// the lower-cased name, else the first that starts with it, else the first
/// that contains it.
pub open spec fn fuzzy_project(ps: Seq<Project>, name: Seq<char>) -> Option<Project> {
    let lower = lowercase(name);
    match first_match(ps, lower, NameMatch::Exact) {
        Some(i) => Some(ps[i]),
        None => match first_match(ps, lower, NameMatch::Prefix) {
            Some(i) => Some(ps[i]),
            None => match first_match(ps, lower, NameMatch::Substring) {
                Some(i) => Some(ps[i]),
                None => None,
            },
        },
    }
}

/// A found position lies within the projects and matches.
pub proof fn lemma_first_match(ps: Seq<Project>, lower: Seq<char>, m: NameMatch)
    ensures
        first_match(ps, lower, m) matches Some(i) ==> 0 <= i < ps.len() && name_matches(
            name_key(ps[i]),
            lower,
            m,
        ),
    decreases ps.len(),
{
    if ps.len() > 0 {
        lemma_first_match(ps.drop_last(), lower, m);
    }
}

/// Whether lower-cased name `key` matches `lower` in way `m` (executable).
fn name_matches_exec(key: &Vec<char>, lower: &Vec<char>, m: NameMatch) -> (r: bool)
    ensures
        r == name_matches(key@, lower@, m),
{
    match m {
        NameMatch::Exact => crate::text::same_chars(key, lower),
        NameMatch::Prefix => crate::text::matches_at(key, lower, 0),
        NameMatch::Substring => crate::text::contains_chars(key, lower),
    }
}

/// The lower-cased characters of `s`.
fn lower_chars(s: &String) -> (r: Vec<char>)
    ensures
        r@ == lowercase(s@),
{
    let l = crate::text::to_lowercase(s.as_str());
    crate::text::chars_of_string(&l)
}

/// The position of the first project whose name matches `lower` in way `m`.
fn find_match(ps: &Vec<Project>, lower: &Vec<char>, m: NameMatch) -> (r: Option<usize>)
    ensures
        match r {
            Some(i) => first_match(ps@, lower@, m) == Some(i as int),
            None => first_match(ps@, lower@, m) is None,
        },
{
    let mut i: usize = 0;
    while i < ps.len()
        invariant
            i <= ps@.len(),
            first_match(ps@.take(i as int), lower@, m) is None,
        decreases ps@.len() - i,
    {
        proof {
            assert(ps@.take(i + 1).drop_last() =~= ps@.take(i as int));
        }
        let key = lower_chars(&ps[i].name);
        if name_matches_exec(&key, lower, m) {
            proof {
                lemma_first_match_prefix(ps@, lower@, m, i + 1);
            }
            return Some(i);
        }
        i = i + 1;
    }
    assert(ps@.take(ps@.len() as int) =~= ps@);
    None
}

/// The first match within a prefix of the projects is the first match.
proof fn lemma_first_match_prefix(ps: Seq<Project>, lower: Seq<char>, m: NameMatch, k: int)
    requires
        0 <= k <= ps.len(),
        first_match(ps.take(k), lower, m) is Some,
    ensures
        first_match(ps, lower, m) == first_match(ps.take(k), lower, m),
    decreases ps.len() - k,
{
    if k < ps.len() {
        assert(ps.take(k + 1).drop_last() =~= ps.take(k));
        lemma_first_match_prefix(ps, lower, m, k + 1);
    } else {
        assert(ps.take(k) =~= ps);
    }
}

/// The tags of `xs` that `acc` lacks, added to it in order, each once.
pub open spec fn append_new(acc: Seq<Seq<char>>, xs: Seq<Seq<char>>) -> Seq<Seq<char>>
    decreases xs.len(),
{
    if xs.len() == 0 {
        acc
    } else {
        let a = append_new(acc, xs.drop_last());
        if a.contains(xs.last()) {
            a
        } else {
            a.push(xs.last())
        }
    }
}

/// The tags used by the tasks of project `id`, each once, in order of
/// first use.
pub open spec fn project_tags(tasks: Seq<Task>, id: Seq<char>) -> Seq<Seq<char>>
    decreases tasks.len(),
{
    if tasks.len() == 0 {
        Seq::empty()
    } else {
        let p = project_tags(tasks.drop_last(), id);
        let t = tasks.last();
        if t.project_id matches Some(q) && q@ == id {
            append_new(p, views_of(t.tags@))
        } else {
            p
        }
    }
}

/// A table from project identifiers to tag lists has each identifier once.
pub open spec fn table_wf(m: Seq<(String, Vec<String>)>) -> bool {
    forall|i: int, j: int| 0 <= i < j < m.len() ==> (#[trigger] m[i]).0@ != (#[trigger] m[j]).0@
}

/// The tags the table lists for project `id` (none if it lacks `id`).
pub open spec fn table_lookup(m: Seq<(String, Vec<String>)>, id: Seq<char>) -> Seq<Seq<char>> {
    if exists|i: int| 0 <= i < m.len() && (#[trigger] m[i]).0@ == id {
        let k = choose|i: int| 0 <= i < m.len() && (#[trigger] m[i]).0@ == id;
        views_of(m[k].1@)
    } else {
        Seq::empty()
    }
}

/// In a table with each identifier once, the entry for `id` is the one
/// that carries it.
proof fn lemma_table_lookup(m: Seq<(String, Vec<String>)>, i: int, id: Seq<char>)
    requires
        table_wf(m),
        0 <= i < m.len(),
        m[i].0@ == id,
    ensures
        table_lookup(m, id) == views_of(m[i].1@),
{
    let c = choose|c: int| 0 <= c < m.len() && (#[trigger] m[c]).0@ == id;
    if c < i {
        assert(m[c].0@ != m[i].0@);
    } else if c > i {
        assert(m[i].0@ != m[c].0@);
    }
}

/// Whether `v` holds a string equal to `x`.
fn holds_string(v: &Vec<String>, x: &String) -> (r: bool)
    ensures
        r == views_of(v@).contains(x@),
{
    let mut i: usize = 0;
    while i < v.len()
        invariant
            i <= v@.len(),
            forall|j: int| 0 <= j < i ==> (#[trigger] v@[j])@ != x@,
        decreases v@.len() - i,
    {
        if v[i] == *x {
            assert(views_of(v@)[i as int] == x@);
            return true;
        }
        i = i + 1;
    }
    assert forall|j: int| 0 <= j < views_of(v@).len() implies views_of(v@)[j] != x@ by {
        assert(views_of(v@)[j] == v@[j]@);
    }
    false
}

/// Adds to `acc` each of `xs` it lacks (executable [`append_new`]).
fn add_new_tags(acc: &mut Vec<String>, xs: &Vec<String>)
    ensures
        views_of(final(acc)@) == append_new(views_of(old(acc)@), views_of(xs@)),
{
    let ghost a0 = views_of(acc@);
    let mut i: usize = 0;
    while i < xs.len()
        invariant
            i <= xs@.len(),
            views_of(acc@) == append_new(a0, views_of(xs@).take(i as int)),
        decreases xs@.len() - i,
    {
        proof {
            assert(views_of(xs@).take(i + 1).drop_last() =~= views_of(xs@).take(i as int));
            assert(views_of(xs@).take(i + 1).last() == xs@[i as int]@);
        }
        if !holds_string(acc, &xs[i]) {
            let ghost before = views_of(acc@);
            acc.push(xs[i].clone());
            assert(views_of(acc@) =~= before.push(xs@[i as int]@));
        }
        i = i + 1;
    }
    assert(views_of(xs@).take(xs@.len() as int) =~= views_of(xs@));
}

/// Replacing the tag list of an entry of the table.
proof fn lemma_table_update(
    m0: Seq<(String, Vec<String>)>,
    m1: Seq<(String, Vec<String>)>,
    j: int,
    k: String,
    l: Vec<String>,
)
    requires
        table_wf(m0),
        0 <= j < m0.len(),
        m0[j].0@ == k@,
        m1 == m0.update(j, (k, l)),
    ensures
        table_wf(m1),
        table_lookup(m1, k@) == views_of(l@),
        table_lookup(m0, k@) == views_of(m0[j].1@),
        forall|id: Seq<char>| id != k@ ==> #[trigger] table_lookup(m1, id) == table_lookup(m0, id),
{
    assert forall|a: int, b: int| 0 <= a < b < m1.len() implies (#[trigger] m1[a]).0@
        != (#[trigger] m1[b]).0@ by {
        assert(m1[a].0@ == m0[a].0@ && m1[b].0@ == m0[b].0@);
    }
    lemma_table_lookup(m1, j, k@);
    lemma_table_lookup(m0, j, k@);
    assert forall|id: Seq<char>| id != k@ implies #[trigger] table_lookup(m1, id) == table_lookup(
        m0,
        id,
    ) by {
        if exists|c: int| 0 <= c < m1.len() && (#[trigger] m1[c]).0@ == id {
            let c = choose|c: int| 0 <= c < m1.len() && (#[trigger] m1[c]).0@ == id;
            lemma_table_lookup(m1, c, id);
            assert(m1[c] == m0[c]);
            lemma_table_lookup(m0, c, id);
        } else {
            assert forall|c: int| 0 <= c < m0.len() implies (#[trigger] m0[c]).0@ != id by {
                assert(m1[c].0@ == m0[c].0@);
            }
        }
    }
}

/// Adding an entry for a project the table lacks.
proof fn lemma_table_push(
    m0: Seq<(String, Vec<String>)>,
    m1: Seq<(String, Vec<String>)>,
    k: String,
    l: Vec<String>,
)
    requires
        table_wf(m0),
        forall|c: int| 0 <= c < m0.len() ==> (#[trigger] m0[c]).0@ != k@,
        m1 == m0.push((k, l)),
    ensures
        table_wf(m1),
        table_lookup(m1, k@) == views_of(l@),
        table_lookup(m0, k@) == Seq::<Seq<char>>::empty(),
        forall|id: Seq<char>| id != k@ ==> #[trigger] table_lookup(m1, id) == table_lookup(m0, id),
{
    assert forall|a: int, b: int| 0 <= a < b < m1.len() implies (#[trigger] m1[a]).0@
        != (#[trigger] m1[b]).0@ by {
        if b == m1.len() - 1 {
            assert(m1[a] == m0[a]);
        } else {
            assert(m1[a] == m0[a] && m1[b] == m0[b]);
        }
    }
    lemma_table_lookup(m1, m1.len() - 1, k@);
    assert forall|id: Seq<char>| id != k@ implies #[trigger] table_lookup(m1, id) == table_lookup(
        m0,
        id,
    ) by {
        if exists|c: int| 0 <= c < m1.len() && (#[trigger] m1[c]).0@ == id {
            let c = choose|c: int| 0 <= c < m1.len() && (#[trigger] m1[c]).0@ == id;
            lemma_table_lookup(m1, c, id);
            assert(c < m0.len());
            assert(m1[c] == m0[c]);
            lemma_table_lookup(m0, c, id);
        } else {
            assert forall|c: int| 0 <= c < m0.len() implies (#[trigger] m0[c]).0@ != id by {
                assert(m1[c] == m0[c]);
            }
        }
    }
}

/// Builds the table of the tags each project's tasks use.
fn build_tag_table(tasks: &[Task]) -> (r: Vec<(String, Vec<String>)>)
    ensures
        table_wf(r@),
        forall|id: Seq<char>| #[trigger] table_lookup(r@, id) == project_tags(tasks@, id),
{
    let mut m: Vec<(String, Vec<String>)> = Vec::new();
    let mut i: usize = 0;
    while i < tasks.len()
        invariant
            i <= tasks@.len(),
            table_wf(m@),
            forall|id: Seq<char>| #[trigger] table_lookup(m@, id) == project_tags(
                tasks@.take(i as int),
                id,
            ),
        decreases tasks@.len() - i,
    {
        proof {
            assert(tasks@.take(i + 1).drop_last() =~= tasks@.take(i as int));
            assert(tasks@.take(i + 1).last() == tasks@[i as int]);
        }
        match &tasks[i].project_id {
            Some(pid) => {
                let mut j: usize = 0;
                while j < m.len() && !(m[j].0 == *pid)
                    invariant
                        j <= m@.len(),
                        forall|k: int| 0 <= k < j ==> (#[trigger] m@[k]).0@ != pid@,
                    decreases m@.len() - j,
                {
                    j = j + 1;
                }
                let ghost m0 = m@;
                if j < m.len() {
                    let mut list = m[j].1.clone();
                    assert(list@ =~= m@[j as int].1@);
                    add_new_tags(&mut list, &tasks[i].tags);
                    let key = m[j].0.clone();
                    let ghost l = list;
                    m.set(j, (key, list));
                    proof {
                        lemma_table_update(m0, m@, j as int, key, l);
                        assert(table_lookup(m0, pid@) == project_tags(tasks@.take(i as int), pid@));
                        assert forall|id: Seq<char>| #[trigger] table_lookup(m@, id) == project_tags(
                            tasks@.take(i + 1),
                            id,
                        ) by {
                            assert(table_lookup(m0, id) == project_tags(tasks@.take(i as int), id));
                        }
                    }
                } else {
                    let mut list: Vec<String> = Vec::new();
                    add_new_tags(&mut list, &tasks[i].tags);
                    let key = pid.clone();
                    let ghost l = list;
                    m.push((key, list));
                    proof {
                        lemma_table_push(m0, m@, key, l);
                        assert(views_of(Seq::<String>::empty()) =~= Seq::<Seq<char>>::empty());
                        assert(table_lookup(m0, pid@) == project_tags(tasks@.take(i as int), pid@));
                        assert forall|id: Seq<char>| #[trigger] table_lookup(m@, id) == project_tags(
                            tasks@.take(i + 1),
                            id,
                        ) by {
                            assert(table_lookup(m0, id) == project_tags(tasks@.take(i as int), id));
                        }
                    }
                }
            },
            None => {
                proof {
                    assert forall|id: Seq<char>| #[trigger] table_lookup(m@, id) == project_tags(
                        tasks@.take(i + 1),
                        id,
                    ) by {
                        assert(table_lookup(m@, id) == project_tags(tasks@.take(i as int), id));
                    }
                }
            },
        }
        i = i + 1;
    }
    assert(tasks@.take(tasks@.len() as int) =~= tasks@);
    m
}

/// Where the token ending at position `c` of `v` starts: after the last
/// space before `c`, or at 0.
pub open spec fn token_start(v: Seq<char>, c: int) -> int
    decreases c,
{
    if c <= 0 {
        0
    } else if v[c - 1] == ' ' {
        c
    } else {
        token_start(v, c - 1)
    }
}

proof fn lemma_token_start(v: Seq<char>, c: int)
    requires
        0 <= c <= v.len(),
    ensures
        0 <= token_start(v, c) <= c,
    decreases c,
{
    if c > 0 && v[c - 1] != ' ' {
        lemma_token_start(v, c - 1);
    }
}

/// The `@`, `#` or `!` token the cursor ends: what it offers, the text after
/// its first character, and where it starts and ends.
pub open spec fn active_token(v: Seq<char>, c: int) -> Option<(SuggestionMode, Seq<char>, int, int)> {
    if c == 0 || v.len() == 0 {
        None
    } else {
        let s = token_start(v, c);
        let tok = v.subrange(s, c);
        if tok.len() >= 1 && tok[0] == '@' {
            Some((SuggestionMode::Projects, tok.skip(1), s, c))
        } else if tok.len() >= 1 && tok[0] == '#' {
            Some((SuggestionMode::Tags, tok.skip(1), s, c))
        } else if tok.len() >= 1 && tok[0] == '!' {
            Some((SuggestionMode::Priorities, tok.skip(1), s, c))
        } else {
            None
        }
    }
}

/// The names of the projects.
pub open spec fn project_names(ps: Seq<Project>) -> Seq<Seq<char>> {
    ps.map_values(|p: Project| p.name@)
}

/// The names of the projects whose names equal `lower` once lower-cased.
pub open spec fn exact_names(ps: Seq<Project>, lower: Seq<char>) -> Seq<Seq<char>>
    decreases ps.len(),
{
    if ps.len() == 0 {
        Seq::empty()
    } else {
        let a = exact_names(ps.drop_last(), lower);
        if name_key(ps.last()) == lower {
            a.push(ps.last().name@)
        } else {
            a
        }
    }
}

/// `acc` with the names of the projects that match `lower` in way `m` and
/// that it lacks, in order.
pub open spec fn more_names(acc: Seq<Seq<char>>, ps: Seq<Project>, lower: Seq<char>, m: NameMatch) -> Seq<
    Seq<char>,
>
    decreases ps.len(),
{
    if ps.len() == 0 {
        acc
    } else {
        let a = more_names(acc, ps.drop_last(), lower, m);
        if name_matches(name_key(ps.last()), lower, m) && !a.contains(ps.last().name@) {
            a.push(ps.last().name@)
        } else {
            a
        }
    }
}

/// The projects offered for a partial `@` name: all of them for an empty
/// one; else those whose lower-cased name equals it, then those that start
/// with it, then those that contain it.
pub open spec fn project_suggestions(ps: Seq<Project>, partial: Seq<char>) -> Seq<Seq<char>> {
    let lower = lowercase(partial);
    if lower.len() == 0 {
        project_names(ps)
    } else {
        more_names(
            more_names(exact_names(ps, lower), ps, lower, NameMatch::Prefix),
            ps,
            lower,
            NameMatch::Substring,
        )
    }
}

/// The tags offered for a partial `#` name `lower` (lower-cased), split in
/// those the project uses and the others: tags already typed are left out,
/// and so are those whose lower-cased name does not contain `lower`.
pub open spec fn tag_split(
    all: Seq<Tag>,
    already: Seq<Seq<char>>,
    scoped: Seq<Seq<char>>,
    lower: Seq<char>,
) -> (Seq<Seq<char>>, Seq<Seq<char>>)
    decreases all.len(),
{
    if all.len() == 0 {
        (Seq::empty(), Seq::empty())
    } else {
        let (sc, ot) = tag_split(all.drop_last(), already, scoped, lower);
        let n = all.last().name@;
        let lk = lowercase(n);
        if already.contains(lk) || !(lower.len() == 0 || contains_seq(lk, lower)) {
            (sc, ot)
        } else if scoped.contains(lk) {
            (sc.push(n), ot)
        } else {
            (sc, ot.push(n))
        }
    }
}

/// The lower-cased forms of some texts.
pub open spec fn lowered(v: Seq<Seq<char>>) -> Seq<Seq<char>> {
    v.map_values(|x: Seq<char>| lowercase(x))
}

/// The tags offered for a partial `#` name: those the project's tasks use
/// first, then the others.
pub open spec fn tag_suggestions(
    all: Seq<Tag>,
    typed: Seq<Seq<char>>,
    scoped: Seq<Seq<char>>,
    partial: Seq<char>,
) -> Seq<Seq<char>> {
    let (sc, ot) = tag_split(all, lowered(typed), lowered(scoped), lowercase(partial));
    sc + ot
}

/// The levels offered for a partial `!` token: those of 1 to 4 that start
/// with it.
pub open spec fn priority_suggestions(partial: Seq<char>) -> Seq<Seq<char>> {
    seq![seq!['1'], seq!['2'], seq!['3'], seq!['4']].filter(
        |p: Seq<char>| occurs_at(p, partial, 0),
    )
}

/// The dialog's state.
#[derive(Debug, Clone)]
pub struct QuickCaptureDialog {
    /// Text input field
    pub input: TextInput,
    /// Parsed result from current input
    pub parsed: ParsedCapture,
    /// Available projects for matching
    pub projects: Vec<Project>,
    /// Available tags
    pub all_tags: Vec<Tag>,
    /// Project matched from the `@name` token
    pub matched_project: Option<Project>,
    /// Suggestions shown
    pub suggestions: Vec<String>,
    /// Highlighted suggestion
    pub selected_suggestion: Option<usize>,
    /// What the suggestions are
    pub suggestion_mode: SuggestionMode,
    /// Project picked from the suggestions (kept across parses)
    pub explicit_project: Option<Project>,
    /// For each project identifier, the tags its tasks use
    pub project_tag_map: Vec<(String, Vec<String>)>,
}

impl QuickCaptureDialog {
    /// Well-formed: the input's cursor in its text, each project once in
    /// the tag table, the highlight on a suggestion.
    pub open spec fn wf(&self) -> bool {
        &&& self.input.wf()
        &&& table_wf(self.project_tag_map@)
        &&& self.selected_suggestion matches Some(i) ==> i < self.suggestions@.len()
    }

    /// The project the task goes to: the one picked, else the one matched.
    pub open spec fn chosen_project(&self) -> Option<Project> {
        match self.explicit_project {
            Some(p) => Some(p),
            None => self.matched_project,
        }
    }

    /// The suggestions for the token the cursor ends, and what they are.
    pub open spec fn suggestions_due(&self) -> (SuggestionMode, Seq<Seq<char>>) {
        match active_token(self.input.value@, self.input.cursor as int) {
            Some((SuggestionMode::Projects, partial, _, _)) => (
                SuggestionMode::Projects,
                project_suggestions(self.projects@, partial),
            ),
            Some((SuggestionMode::Tags, partial, _, _)) => (
                SuggestionMode::Tags,
                tag_suggestions(
                    self.all_tags@,
                    views_of(self.parsed.tags@),
                    match self.chosen_project() {
                        Some(p) => table_lookup(self.project_tag_map@, p.id@),
                        None => Seq::empty(),
                    },
                    partial,
                ),
            ),
            Some((SuggestionMode::Priorities, partial, _, _)) => (
                SuggestionMode::Priorities,
                priority_suggestions(partial),
            ),
            _ => (SuggestionMode::Nothing, Seq::empty()),
        }
    }

    /// The suggestions are those due, the first one highlighted.
    pub open spec fn suggestions_current(&self) -> bool {
        let (mode, list) = self.suggestions_due();
        &&& self.suggestion_mode == mode
        &&& views_of(self.suggestions@) == list
        &&& self.selected_suggestion == if list.len() == 0 {
            None::<usize>
        } else {
            Some(0usize)
        }
    }

    /// `post` is `pre` parsed again: the parse of its line, the project the
    /// `@` name designates, and the picked project dropped when the line
    /// names one.
    pub open spec fn reparsed(pre: Self, post: Self, clock: Clock) -> bool {
        &&& post.parsed.reads(pre.input.value@, clock)
        &&& post.matched_project == match opt_chars(post.parsed.project_name) {
            Some(n) => fuzzy_project(pre.projects@, n),
            None => None,
        }
        &&& post.explicit_project == if post.parsed.project_name is Some {
            None
        } else {
            pre.explicit_project
        }
        &&& post == (Self {
            parsed: post.parsed,
            matched_project: post.matched_project,
            explicit_project: post.explicit_project,
            ..pre
        })
    }
}

/// Lower-cases each text.
fn lower_all(v: &Vec<String>) -> (r: Vec<Vec<char>>)
    ensures
        char_views(r@) == lowered(views_of(v@)),
{
    let mut r: Vec<Vec<char>> = Vec::new();
    let mut i: usize = 0;
    while i < v.len()
        invariant
            i <= v@.len(),
            char_views(r@) == lowered(views_of(v@)).take(i as int),
        decreases v@.len() - i,
    {
        let ghost before = char_views(r@);
        let l = lower_chars(&v[i]);
        r.push(l);
        assert(char_views(r@) =~= before.push(lowercase(v@[i as int]@)));
        assert(lowered(views_of(v@)).take(i + 1) =~= lowered(views_of(v@)).take(i as int).push(
            lowercase(v@[i as int]@),
        ));
        i = i + 1;
    }
    assert(lowered(views_of(v@)).take(v@.len() as int) =~= lowered(views_of(v@)));
    r
}

/// Whether `v` holds `x`.
fn holds_chars(v: &Vec<Vec<char>>, x: &Vec<char>) -> (r: bool)
    ensures
        r == char_views(v@).contains(x@),
{
    let mut i: usize = 0;
    while i < v.len()
        invariant
            i <= v@.len(),
            forall|j: int| 0 <= j < i ==> (#[trigger] v@[j])@ != x@,
        decreases v@.len() - i,
    {
        if crate::text::same_chars(&v[i], x) {
            assert(char_views(v@)[i as int] == x@);
            return true;
        }
        i = i + 1;
    }
    assert forall|j: int| 0 <= j < char_views(v@).len() implies char_views(v@)[j] != x@ by {
        assert(char_views(v@)[j] == v@[j]@);
    }
    false
}

/// The projects offered for lower-cased partial name `lower`.
fn project_names_for(ps: &Vec<Project>, lower: &Vec<char>) -> (r: Vec<String>)
    ensures
        lower@.len() == 0 ==> views_of(r@) == project_names(ps@),
        lower@.len() > 0 ==> views_of(r@) == more_names(
            more_names(exact_names(ps@, lower@), ps@, lower@, NameMatch::Prefix),
            ps@,
            lower@,
            NameMatch::Substring,
        ),
{
    let mut r: Vec<String> = Vec::new();
    if lower.len() == 0 {
        let mut i: usize = 0;
        while i < ps.len()
            invariant
                i <= ps@.len(),
                views_of(r@) == project_names(ps@).take(i as int),
            decreases ps@.len() - i,
        {
            let ghost before = views_of(r@);
            r.push(ps[i].name.clone());
            assert(views_of(r@) =~= before.push(ps@[i as int].name@));
            assert(project_names(ps@).take(i + 1) =~= project_names(ps@).take(i as int).push(
                ps@[i as int].name@,
            ));
            i = i + 1;
        }
        assert(project_names(ps@).take(ps@.len() as int) =~= project_names(ps@));
        return r;
    }
    let mut i: usize = 0;
    while i < ps.len()
        invariant
            i <= ps@.len(),
            views_of(r@) == exact_names(ps@.take(i as int), lower@),
        decreases ps@.len() - i,
    {
        proof {
            assert(ps@.take(i + 1).drop_last() =~= ps@.take(i as int));
        }
        let key = lower_chars(&ps[i].name);
        if crate::text::same_chars(&key, lower) {
            let ghost before = views_of(r@);
            r.push(ps[i].name.clone());
            assert(views_of(r@) =~= before.push(ps@[i as int].name@));
        }
        i = i + 1;
    }
    assert(ps@.take(ps@.len() as int) =~= ps@);
    let ghost s1 = views_of(r@);
    more_project_names(&mut r, ps, lower, NameMatch::Prefix);
    more_project_names(&mut r, ps, lower, NameMatch::Substring);
    r
}

/// Adds the names of the projects that match in way `m` and that `acc`
/// lacks (executable [`more_names`]).
fn more_project_names(acc: &mut Vec<String>, ps: &Vec<Project>, lower: &Vec<char>, m: NameMatch)
    ensures
        views_of(final(acc)@) == more_names(views_of(old(acc)@), ps@, lower@, m),
{
    let ghost a0 = views_of(acc@);
    let mut i: usize = 0;
    while i < ps.len()
        invariant
            i <= ps@.len(),
            views_of(acc@) == more_names(a0, ps@.take(i as int), lower@, m),
        decreases ps@.len() - i,
    {
        proof {
            assert(ps@.take(i + 1).drop_last() =~= ps@.take(i as int));
        }
        let key = lower_chars(&ps[i].name);
        if name_matches_exec(&key, lower, m) && !holds_string(acc, &ps[i].name) {
            let ghost before = views_of(acc@);
            acc.push(ps[i].name.clone());
            assert(views_of(acc@) =~= before.push(ps@[i as int].name@));
        }
        i = i + 1;
    }
    assert(ps@.take(ps@.len() as int) =~= ps@);
}

/// The tags offered (executable [`tag_split`], the two lists joined).
fn tag_names_for(all: &Vec<Tag>, already: &Vec<Vec<char>>, scoped: &Vec<Vec<char>>, lower: &Vec<char>) -> (r: Vec<String>)
    ensures
        views_of(r@) == tag_split(all@, char_views(already@), char_views(scoped@), lower@).0 + tag_split(
            all@,
            char_views(already@),
            char_views(scoped@),
            lower@,
        ).1,
{
    let mut sc: Vec<String> = Vec::new();
    let mut ot: Vec<String> = Vec::new();
    let mut i: usize = 0;
    while i < all.len()
        invariant
            i <= all@.len(),
            (views_of(sc@), views_of(ot@)) == tag_split(
                all@.take(i as int),
                char_views(already@),
                char_views(scoped@),
                lower@,
            ),
        decreases all@.len() - i,
    {
        proof {
            assert(all@.take(i + 1).drop_last() =~= all@.take(i as int));
        }
        let lk = lower_chars(&all[i].name);
        let ok = lower.len() == 0 || crate::text::contains_chars(&lk, lower);
        if !holds_chars(already, &lk) && ok {
            if holds_chars(scoped, &lk) {
                let ghost before = views_of(sc@);
                sc.push(all[i].name.clone());
                assert(views_of(sc@) =~= before.push(all@[i as int].name@));
            } else {
                let ghost before = views_of(ot@);
                ot.push(all[i].name.clone());
                assert(views_of(ot@) =~= before.push(all@[i as int].name@));
            }
        }
        i = i + 1;
    }
    assert(all@.take(all@.len() as int) =~= all@);
    let ghost a = views_of(sc@);
    let ghost b = views_of(ot@);
    let mut k: usize = 0;
    while k < ot.len()
        invariant
            k <= ot@.len(),
            views_of(ot@) == b,
            views_of(sc@) == a + b.take(k as int),
        decreases ot@.len() - k,
    {
        let ghost before = views_of(sc@);
        sc.push(ot[k].clone());
        assert(views_of(sc@) =~= before.push(b[k as int]));
        assert(b.take(k + 1) =~= b.take(k as int).push(b[k as int]));
        assert(a + b.take(k + 1) =~= (a + b.take(k as int)).push(b[k as int]));
        k = k + 1;
    }
    assert(b.take(b.len() as int) =~= b);
    sc
}

/// The levels offered for a partial `!` token (executable
/// [`priority_suggestions`]).
fn priority_names_for(partial: &Vec<char>) -> (r: Vec<String>)
    ensures
        views_of(r@) == priority_suggestions(partial@),
{
    let ghost all = seq![seq!['1'], seq!['2'], seq!['3'], seq!['4']];
    let ghost pred = |p: Seq<char>| occurs_at(p, partial@, 0);
    let mut r: Vec<String> = Vec::new();
    let mut k: usize = 0;
    while k < 4
        invariant
            k <= 4,
            all == seq![seq!['1'], seq!['2'], seq!['3'], seq!['4']],
            pred == (|p: Seq<char>| occurs_at(p, partial@, 0)),
            views_of(r@) == all.take(k as int).filter(pred),
        decreases 4 - k,
    {
        let c = if k == 0 {
            '1'
        } else if k == 1 {
            '2'
        } else if k == 2 {
            '3'
        } else {
            '4'
        };
        let mut d: Vec<char> = Vec::new();
        d.push(c);
        assert(d@ == all[k as int]);
        proof {
            assert(all.take(k + 1) =~= all.take(k as int).push(all[k as int]));
            all.take(k as int).lemma_filter_push(all[k as int], pred);
        }
        if crate::text::matches_at(&d, partial, 0) {
            let ghost before = views_of(r@);
            r.push(crate::text::string_of(&d));
            assert(views_of(r@) =~= before.push(d@));
        }
        k = k + 1;
    }
    assert(all.take(4) =~= all);
    r
}

/// The position of the first project named exactly `name`.
pub open spec fn first_named(ps: Seq<Project>, name: Seq<char>) -> Option<int>
    decreases ps.len(),
{
    if ps.len() == 0 {
        None
    } else {
        match first_named(ps.drop_last(), name) {
            Some(i) => Some(i),
            None => if ps.last().name@ == name {
                Some(ps.len() - 1)
            } else {
                None
            },
        }
    }
}

/// The line and cursor after the token from `s` to `e` is replaced by
/// `rep` and the spacing tidied: the words joined with single spaces, the
/// cursor after the replacement (at most the line's end).
pub open spec fn replaced(v: Seq<char>, s: int, e: int, rep: Seq<char>) -> (Seq<char>, int) {
    let nv = join_words(words(v.take(s) + rep + v.skip(e)));
    let want = s + rep.len();
    (nv, if want < nv.len() {
        want
    } else {
        nv.len() as int
    })
}

/// The line, cursor and whether to parse again, after editing key `key`
/// with the cursor at `c`; `None` for a key that does not edit.
pub open spec fn capture_edit(v: Seq<char>, c: int, key: KeyEvent) -> Option<(Seq<char>, int, bool)> {
    let alt = key.modifiers.alt;
    match key.code {
        KeyCode::Char('b') if alt => Some((v, word_left(v, c), true)),
        KeyCode::Char('f') if alt => Some((v, word_right(v, c), true)),
        KeyCode::Backspace if alt => Some(
            (v.take(word_left(v, c)) + v.skip(c), word_left(v, c), true),
        ),
        KeyCode::Char(ch) => Some((v.take(c).push(ch) + v.skip(c), c + 1, true)),
        KeyCode::Backspace => Some(
            if c > 0 {
                (v.remove(c - 1), c - 1, true)
            } else {
                (v, 0, true)
            },
        ),
        KeyCode::Delete => Some(
            if c < v.len() {
                (v.remove(c), c, true)
            } else {
                (v, c, true)
            },
        ),
        KeyCode::Left if alt => Some((v, word_left(v, c), false)),
        KeyCode::Right if alt => Some((v, word_right(v, c), false)),
        KeyCode::Left => Some(
            (v, if c > 0 {
                c - 1
            } else {
                0
            }, false),
        ),
        KeyCode::Right => Some(
            (v, if c < v.len() {
                c + 1
            } else {
                c
            }, false),
        ),
        KeyCode::Home => Some((v, 0, false)),
        KeyCode::End => Some((v, v.len() as int, false)),
        _ => None,
    }
}

impl QuickCaptureDialog {
    /// `post` holds the parse of `line`: its fields, the project its `@`
    /// name designates, and the picked project `prev` dropped when the line
    /// names one.
    pub open spec fn parsed_from(post: Self, line: Seq<char>, prev: Option<Project>, clock: Clock) -> bool {
        &&& post.parsed.reads(line, clock)
        &&& post.matched_project == match opt_chars(post.parsed.project_name) {
            Some(n) => fuzzy_project(post.projects@, n),
            None => None,
        }
        &&& post.explicit_project == if post.parsed.project_name is Some {
            None
        } else {
            prev
        }
    }

    /// `post` is `pre` with line `nv`, cursor `nc`, parsed again when
    /// `reparse` holds, and the suggestions brought up to date.
    pub open spec fn edited(pre: Self, post: Self, nv: Seq<char>, nc: int, reparse: bool, clock: Clock) -> bool {
        &&& post.input.value@ == nv
        &&& post.input.cursor == nc
        &&& post.input.placeholder == pre.input.placeholder
        &&& if reparse {
            Self::parsed_from(post, nv, pre.explicit_project, clock)
        } else {
            &&& post.parsed == pre.parsed
            &&& post.matched_project == pre.matched_project
            &&& post.explicit_project == pre.explicit_project
        }
        &&& post.suggestions_current()
        &&& post == (Self {
            input: post.input,
            parsed: post.parsed,
            matched_project: post.matched_project,
            explicit_project: post.explicit_project,
            suggestions: post.suggestions,
            selected_suggestion: post.selected_suggestion,
            suggestion_mode: post.suggestion_mode,
            ..pre
        })
    }

    /// `post` is `pre` after its highlighted suggestion was taken: a
    /// project is picked and its `@` token removed; a tag or a level
    /// replaces its token; the suggestions are closed and the line parsed
    /// again. Without a highlighted suggestion nothing changes.
    pub open spec fn accepted(pre: Self, post: Self, clock: Clock) -> bool {
        match pre.selected_suggestion {
            Some(idx) => if idx < pre.suggestions@.len() && pre.suggestion_mode
                != SuggestionMode::Nothing {
                let sel = views_of(pre.suggestions@)[idx as int];
                let mode = pre.suggestion_mode;
                let prev = if mode == SuggestionMode::Projects {
                    match first_named(pre.projects@, sel) {
                        Some(i) => Some(pre.projects@[i]),
                        None => pre.explicit_project,
                    }
                } else {
                    pre.explicit_project
                };
                let rep = if mode == SuggestionMode::Projects {
                    Seq::<char>::empty()
                } else if mode == SuggestionMode::Tags {
                    seq!['#'] + sel
                } else {
                    seq!['!'] + sel
                };
                let (nv, nc) = match active_token(pre.input.value@, pre.input.cursor as int) {
                    Some((_, _, s, e)) => replaced(pre.input.value@, s, e, rep),
                    None => (pre.input.value@, pre.input.cursor as int),
                };
                &&& post.input.value@ == nv
                &&& post.input.cursor == nc
                &&& post.input.placeholder == pre.input.placeholder
                &&& post.suggestions@.len() == 0
                &&& Self::parsed_from(post, nv, prev, clock)
                &&& post == (Self {
                    input: post.input,
                    parsed: post.parsed,
                    matched_project: post.matched_project,
                    explicit_project: post.explicit_project,
                    suggestions: post.suggestions,
                    selected_suggestion: None,
                    suggestion_mode: SuggestionMode::Nothing,
                    ..pre
                })
            } else {
                post == pre
            },
            None => post == pre,
        }
    }

    /// How a key changes the dialog and what it answers, at the time of
    /// `clock`.
    pub open spec fn key_step(pre: Self, post: Self, key: KeyEvent, clock: Clock, r: QuickCaptureAction) -> bool {
        let n = pre.suggestions@.len();
        let has = n > 0;
        match key.code {
            KeyCode::Enter => r == QuickCaptureAction::Submit && Self::reparsed(pre, post, clock),
            KeyCode::Esc => r == QuickCaptureAction::Cancel && post == pre,
            KeyCode::Tab => if has {
                r == QuickCaptureAction::Nothing && Self::accepted(pre, post, clock)
            } else {
                r == QuickCaptureAction::ExpandToFull && Self::reparsed(pre, post, clock)
            },
            KeyCode::Up if has => r == QuickCaptureAction::Nothing && post == (Self {
                selected_suggestion: match pre.selected_suggestion {
                    Some(i) => Some(
                        if i == 0 {
                            (n - 1) as usize
                        } else {
                            (i - 1) as usize
                        },
                    ),
                    None => None,
                },
                ..pre
            }),
            KeyCode::Down if has => r == QuickCaptureAction::Nothing && post == (Self {
                selected_suggestion: match pre.selected_suggestion {
                    Some(i) => Some(((i + 1) % (n as int)) as usize),
                    None => None,
                },
                ..pre
            }),
            _ => r == QuickCaptureAction::Nothing && match capture_edit(
                pre.input.value@,
                pre.input.cursor as int,
                key,
            ) {
                Some((nv, nc, reparse)) => Self::edited(pre, post, nv, nc, reparse, clock),
                None => post == pre,
            },
        }
    }
}

impl QuickCaptureDialog {
    /// A dialog over `projects` and `tags`, with the tags each project's
    /// tasks use (from `tasks`) kept for suggestions.
    pub fn new(projects: Vec<Project>, tags: Vec<Tag>, tasks: &[Task]) -> (r: Self)
        ensures
            r.wf(),
            r.input.value@.len() == 0,
            r.input.cursor == 0,
            r.input.placeholder matches Some(p) && p@
                == "Task title @project #tag !priority due:date"@,
            r.parsed.title@.len() == 0,
            r.parsed.project_name is None,
            r.parsed.tags@.len() == 0,
            r.parsed.priority is None,
            r.parsed.due_date_text is None,
            r.parsed.due_date is None,
            r.projects@ == projects@,
            r.all_tags@ == tags@,
            r.matched_project is None,
            r.suggestions@.len() == 0,
            r.selected_suggestion is None,
            r.suggestion_mode == SuggestionMode::Nothing,
            r.explicit_project is None,
            forall|id: Seq<char>| #[trigger] table_lookup(r.project_tag_map@, id) == project_tags(
                tasks@,
                id,
            ),
    {
        let project_tag_map = build_tag_table(tasks);
        QuickCaptureDialog {
            input: TextInput::new().with_placeholder("Task title @project #tag !priority due:date"),
            parsed: ParsedCapture::default(),
            projects,
            all_tags: tags,
            matched_project: None,
            suggestions: Vec::new(),
            selected_suggestion: None,
            suggestion_mode: SuggestionMode::Nothing,
            explicit_project: None,
            project_tag_map,
        }
    }

    /// Picks `project` as the task's project.
    pub fn set_project(&mut self, project: Project)
        ensures
            *final(self) == (Self { explicit_project: Some(project), ..*old(self) }),
    {
        self.explicit_project = Some(project);
    }

    /// The picked project, if any.
    pub fn project(&self) -> (r: Option<&Project>)
        ensures
            match r {
                Some(p) => self.explicit_project == Some(*p),
                None => self.explicit_project is None,
            },
    {
        match &self.explicit_project {
            Some(p) => Some(p),
            None => None,
        }
    }

    /// The project `name` designates (see [`fuzzy_project`]).
    pub fn fuzzy_match_project(&self, name: &str) -> (r: Option<Project>)
        ensures
            r == fuzzy_project(self.projects@, name@),
    {
        let lower = lower_chars(&crate::text::string_from(name));
        proof {
            lemma_first_match(self.projects@, lower@, NameMatch::Exact);
            lemma_first_match(self.projects@, lower@, NameMatch::Prefix);
            lemma_first_match(self.projects@, lower@, NameMatch::Substring);
        }
        match find_match(&self.projects, &lower, NameMatch::Exact) {
            Some(i) => {
                return Some(self.projects[i].copy());
            },
            None => {},
        }
        match find_match(&self.projects, &lower, NameMatch::Prefix) {
            Some(i) => {
                return Some(self.projects[i].copy());
            },
            None => {},
        }
        match find_match(&self.projects, &lower, NameMatch::Substring) {
            Some(i) => Some(self.projects[i].copy()),
            None => None,
        }
    }

    /// Parses the line again at the time of `clock` (see
    /// [`QuickCaptureDialog::reparsed`]).
    pub fn reparse(&mut self, clock: Clock)
        requires
            clock.wf(),
        ensures
            Self::reparsed(*old(self), *final(self), clock),
    {
        let line = crate::text::string_of(&self.input.value);
        self.parsed = parse_capture_input_at(line.as_str(), clock);
        self.matched_project = match &self.parsed.project_name {
            Some(name) => self.fuzzy_match_project(name.as_str()),
            None => None,
        };
        if self.parsed.project_name.is_some() && self.explicit_project.is_some() {
            self.explicit_project = None;
        }
    }

    /// The `@`, `#` or `!` token the cursor ends (see [`active_token`]).
    pub fn active_token_at_cursor(&self) -> (r: Option<(SuggestionMode, Vec<char>, usize, usize)>)
        requires
            self.input.wf(),
        ensures
            match r {
                Some((m, p, s, e)) => active_token(self.input.value@, self.input.cursor as int)
                    == Some((m, p@, s as int, e as int)),
                None => active_token(self.input.value@, self.input.cursor as int) is None,
            },
    {
        let v = &self.input.value;
        let c = self.input.cursor;
        if c == 0 || v.len() == 0 {
            return None;
        }
        let mut start = c;
        while start > 0 && v[start - 1] != ' '
            invariant
                start <= c <= v@.len(),
                token_start(v@, start as int) == token_start(v@, c as int),
            decreases start,
        {
            start = start - 1;
        }
        proof {
            lemma_token_start(v@, c as int);
        }
        let tok = crate::text::sub_chars(v, start, c);
        if tok.len() >= 1 && (tok[0] == '@' || tok[0] == '#' || tok[0] == '!') {
            let m = if tok[0] == '@' {
                SuggestionMode::Projects
            } else if tok[0] == '#' {
                SuggestionMode::Tags
            } else {
                SuggestionMode::Priorities
            };
            let partial = chars_from(&tok, 1);
            Some((m, partial, start, c))
        } else {
            None
        }
    }

    /// Brings the suggestions up to date with the token the cursor ends.
    pub fn update_suggestions(&mut self)
        requires
            old(self).wf(),
        ensures
            final(self).wf(),
            final(self).suggestions_current(),
            *final(self) == (Self {
                suggestions: final(self).suggestions,
                selected_suggestion: final(self).selected_suggestion,
                suggestion_mode: final(self).suggestion_mode,
                ..*old(self)
            }),
    {
        let (mode, list) = match self.active_token_at_cursor() {
            Some((SuggestionMode::Projects, partial, _, _)) => {
                let lower = lower_chars(&crate::text::string_of(&partial));
                let r = project_names_for(&self.projects, &lower);
                assert(views_of(r@) == self.suggestions_due().1);
                (SuggestionMode::Projects, r)
            },
            Some((SuggestionMode::Tags, partial, _, _)) => {
                let lower = lower_chars(&crate::text::string_of(&partial));
                let already = lower_all(&self.parsed.tags);
                let chosen = match &self.explicit_project {
                    Some(p) => Some(p),
                    None => match &self.matched_project {
                        Some(p) => Some(p),
                        None => None,
                    },
                };
                let scoped_tags = match chosen {
                    Some(p) => table_get(&self.project_tag_map, &p.id),
                    None => {
                        let v: Vec<String> = Vec::new();
                        assert(views_of(v@) =~= Seq::<Seq<char>>::empty());
                        v
                    },
                };
                let scoped = lower_all(&scoped_tags);
                let r = tag_names_for(&self.all_tags, &already, &scoped, &lower);
                assert(views_of(r@) == self.suggestions_due().1);
                (SuggestionMode::Tags, r)
            },
            Some((SuggestionMode::Priorities, partial, _, _)) => {
                (SuggestionMode::Priorities, priority_names_for(&partial))
            },
            _ => {
                let v: Vec<String> = Vec::new();
                assert(views_of(v@) =~= Seq::<Seq<char>>::empty());
                (SuggestionMode::Nothing, v)
            },
        };
        let empty = list.len() == 0;
        self.suggestions = list;
        self.suggestion_mode = mode;
        self.selected_suggestion = if empty {
            None
        } else {
            Some(0)
        };
    }
}

/// The tags the table lists for project `id` (none if it lacks `id`).
fn table_get(m: &Vec<(String, Vec<String>)>, id: &String) -> (r: Vec<String>)
    requires
        table_wf(m@),
    ensures
        views_of(r@) == table_lookup(m@, id@),
{
    let mut j: usize = 0;
    while j < m.len()
        invariant
            j <= m@.len(),
            table_wf(m@),
            forall|k: int| 0 <= k < j ==> (#[trigger] m@[k]).0@ != id@,
        decreases m@.len() - j,
    {
        if m[j].0 == *id {
            proof {
                lemma_table_lookup(m@, j as int, id@);
            }
            let r = m[j].1.clone();
            assert(r@ =~= m@[j as int].1@);
            return r;
        }
        j = j + 1;
    }
    assert(views_of(Seq::<String>::empty()) =~= Seq::<Seq<char>>::empty());
    Vec::new()
}

/// The position of the first project named exactly `name` (executable
/// [`first_named`]).
fn find_named(ps: &Vec<Project>, name: &String) -> (r: Option<usize>)
    ensures
        match r {
            Some(i) => first_named(ps@, name@) == Some(i as int) && i < ps@.len(),
            None => first_named(ps@, name@) is None,
        },
{
    let mut i: usize = 0;
    while i < ps.len()
        invariant
            i <= ps@.len(),
            first_named(ps@.take(i as int), name@) is None,
        decreases ps@.len() - i,
    {
        proof {
            assert(ps@.take(i + 1).drop_last() =~= ps@.take(i as int));
        }
        if ps[i].name == *name {
            proof {
                lemma_first_named_prefix(ps@, name@, i + 1);
            }
            return Some(i);
        }
        i = i + 1;
    }
    assert(ps@.take(ps@.len() as int) =~= ps@);
    None
}

proof fn lemma_first_named_prefix(ps: Seq<Project>, name: Seq<char>, k: int)
    requires
        0 <= k <= ps.len(),
        first_named(ps.take(k), name) is Some,
    ensures
        first_named(ps, name) == first_named(ps.take(k), name),
    decreases ps.len() - k,
{
    if k < ps.len() {
        assert(ps.take(k + 1).drop_last() =~= ps.take(k));
        lemma_first_named_prefix(ps, name, k + 1);
    } else {
        assert(ps.take(k) =~= ps);
    }
}

impl QuickCaptureDialog {
    /// Replaces the token from `start` to `end` by `rep` and tidies the
    /// spacing (see [`replaced`]).
    fn replace_token_in_input(&mut self, start: usize, end: usize, rep: &Vec<char>)
        requires
            old(self).wf(),
            start <= end <= old(self).input.value@.len(),
        ensures
            final(self).wf(),
            (final(self).input.value@, final(self).input.cursor as int) == replaced(
                old(self).input.value@,
                start as int,
                end as int,
                rep@,
            ),
            final(self).input.placeholder == old(self).input.placeholder,
            *final(self) == (Self { input: final(self).input, ..*old(self) }),
    {
        let v = &self.input.value;
        let head = crate::text::sub_chars(v, 0, start);
        let tail = crate::text::sub_chars(v, end, v.len());
        let mid = crate::text::append_chars(&head, rep);
        let joined = crate::text::append_chars(&mid, &tail);
        assert(head@ =~= v@.take(start as int));
        assert(tail@ =~= v@.skip(end as int));
        let nv = join_chars(&split_words(&joined));
        let nc = if rep.len() <= nv.len() && start <= nv.len() - rep.len() {
            start + rep.len()
        } else {
            nv.len()
        };
        self.input.value = nv;
        self.input.cursor = nc;
    }

    /// Takes the highlighted suggestion (see [`QuickCaptureDialog::accepted`]).
    pub fn accept_suggestion(&mut self, clock: Clock)
        requires
            old(self).wf(),
            clock.wf(),
        ensures
            final(self).wf(),
            Self::accepted(*old(self), *final(self), clock),
    {
        let idx = match self.selected_suggestion {
            Some(i) => {
                if i < self.suggestions.len() {
                    i
                } else {
                    return ;
                }
            },
            None => {
                return ;
            },
        };
        let mode = self.suggestion_mode;
        if mode == SuggestionMode::Nothing {
            return ;
        }
        let sel = self.suggestions[idx].clone();
        let ghost selv = views_of(self.suggestions@)[idx as int];
        assert(sel@ == selv);
        if mode == SuggestionMode::Projects {
            match find_named(&self.projects, &sel) {
                Some(i) => {
                    self.explicit_project = Some(self.projects[i].copy());
                },
                None => {},
            }
        }
        let mut rep: Vec<char> = Vec::new();
        if mode != SuggestionMode::Projects {
            if mode == SuggestionMode::Tags {
                rep.push('#');
            } else {
                rep.push('!');
            }
            let sc = crate::text::chars_of_string(&sel);
            rep = crate::text::append_chars(&rep, &sc);
        }
        match self.active_token_at_cursor() {
            Some((_, _, s, e)) => {
                proof {
                    lemma_token_start(self.input.value@, self.input.cursor as int);
                }
                self.replace_token_in_input(s, e, &rep);
            },
            None => {},
        }
        self.suggestions = Vec::new();
        self.selected_suggestion = None;
        self.suggestion_mode = SuggestionMode::Nothing;
        self.reparse(clock);
    }

    /// Handles a key at the time of `clock` (see
    /// [`QuickCaptureDialog::key_step`]): Enter submits, Esc cancels; Tab
    /// takes the highlighted suggestion, or asks for the full dialog when
    /// none shows; the arrows move the highlight; other keys edit the line.
    pub fn handle_key_at(&mut self, key: KeyEvent, clock: Clock) -> (r: QuickCaptureAction)
        requires
            old(self).wf(),
            old(self).input.value@.len() < usize::MAX,
            clock.wf(),
        ensures
            final(self).wf(),
            Self::key_step(*old(self), *final(self), key, clock, r),
    {
        let has = self.suggestions.len() > 0;
        let alt = key.modifiers.alt;
        match key.code {
            KeyCode::Enter => {
                self.reparse(clock);
                return QuickCaptureAction::Submit;
            },
            KeyCode::Esc => {
                return QuickCaptureAction::Cancel;
            },
            KeyCode::Tab => {
                if has {
                    self.accept_suggestion(clock);
                    return QuickCaptureAction::Nothing;
                } else {
                    self.reparse(clock);
                    return QuickCaptureAction::ExpandToFull;
                }
            },
            KeyCode::Up if has => {
                match self.selected_suggestion {
                    Some(idx) => {
                        self.selected_suggestion = Some(
                            if idx == 0 {
                                self.suggestions.len() - 1
                            } else {
                                idx - 1
                            },
                        );
                    },
                    None => {},
                }
                return QuickCaptureAction::Nothing;
            },
            KeyCode::Down if has => {
                match self.selected_suggestion {
                    Some(idx) => {
                        self.selected_suggestion = Some((idx + 1) % self.suggestions.len());
                    },
                    None => {},
                }
                return QuickCaptureAction::Nothing;
            },
            _ => {},
        }
        let reparse = match key.code {
            KeyCode::Char('b') if alt => {
                self.input.move_word_left();
                true
            },
            KeyCode::Char('f') if alt => {
                self.input.move_word_right();
                true
            },
            KeyCode::Backspace if alt => {
                self.input.delete_word_backward();
                true
            },
            KeyCode::Char(c) => {
                self.input.insert(c);
                true
            },
            KeyCode::Backspace => {
                self.input.delete_backward();
                true
            },
            KeyCode::Delete => {
                self.input.delete_forward();
                true
            },
            KeyCode::Left if alt => {
                self.input.move_word_left();
                false
            },
            KeyCode::Right if alt => {
                self.input.move_word_right();
                false
            },
            KeyCode::Left => {
                self.input.move_left();
                false
            },
            KeyCode::Right => {
                self.input.move_right();
                false
            },
            KeyCode::Home => {
                self.input.move_home();
                false
            },
            KeyCode::End => {
                self.input.move_end();
                false
            },
            _ => {
                return QuickCaptureAction::Nothing;
            },
        };
        if reparse {
            self.reparse(clock);
        }
        self.update_suggestions();
        QuickCaptureAction::Nothing
    }

    /// Handles a key, reading the clock for due dates.
    pub fn handle_key(&mut self, key: KeyEvent) -> (r: QuickCaptureAction)
        requires
            old(self).wf(),
            old(self).input.value@.len() < usize::MAX,
        ensures
            final(self).wf(),
            exists|c: Clock| c.wf() && Self::key_step(*old(self), *final(self), key, c, r),
    {
        self.handle_key_at(key, Clock::read())
    }

    /// `t` is the task the dialog describes, with identifier `id` and
    /// creation instant `at`.
    pub open spec fn describes(&self, t: Task, id: String, at: int) -> bool {
        &&& t.title@ == trim(self.parsed.title@)
        &&& t.description is None
        &&& t.status == crate::models::task::TaskStatus::Pending
        &&& t.created_at == at
        &&& t.updated_at == at
        &&& t.completed_at is None
        &&& t.id == id
        &&& t.priority == match self.parsed.priority {
            Some(p) => p,
            None => Priority::Medium,
        }
        &&& t.due_date == self.parsed.due_date
        &&& t.tags@ == self.parsed.tags@
        &&& t.project_id == match self.chosen_project() {
            Some(p) => Some(p.id),
            None => None,
        }
    }

    /// The task the dialog describes, with identifier `id` and creation
    /// instant `at`; `None` while the trimmed title is empty. The picked
    /// project wins over the matched one.
    pub fn to_task_at(&self, id: String, at: i64) -> (r: Option<Task>)
        ensures
            trim(self.parsed.title@).len() == 0 <==> r is None,
            r matches Some(t) ==> self.describes(t, id, at as int),
    {
        let chars = crate::text::chars_of_string(&self.parsed.title);
        let title = crate::text::trimmed(&chars);
        if title.len() == 0 {
            return None;
        }
        let ts = crate::text::string_of(&title);
        let mut task = Task::new_at(ts.as_str(), id, at);
        task.priority = match self.parsed.priority {
            Some(p) => p,
            None => Priority::Medium,
        };
        task.due_date = self.parsed.due_date;
        task.tags = copy_strings(&self.parsed.tags);
        task.project_id = match &self.explicit_project {
            Some(p) => Some(p.id.clone()),
            None => match &self.matched_project {
                Some(p) => Some(p.id.clone()),
                None => None,
            },
        };
        Some(task)
    }

    /// The task the dialog describes, with a fresh identifier, created now.
    pub fn to_task(&self) -> (r: Option<Task>)
        ensures
            trim(self.parsed.title@).len() == 0 <==> r is None,
            r matches Some(t) ==> crate::utils::ids::uuid_v7_shaped(t.id@) && self.describes(
                t,
                t.id,
                t.created_at as int,
            ),
    {
        let id = crate::utils::ids::generate_id();
        let at = crate::utils::datetime::now();
        self.to_task_at(id, at)
    }

    /// The full task dialog filled from the line: title, priority, due date
    /// text, project (the picked one first) and tags.
    pub fn to_add_task_dialog(&self) -> (r: AddTaskDialog)
        requires
            self.wf(),
        ensures
            r.wf(),
            r.title.value@ == self.parsed.title@,
            r.priority == match self.parsed.priority {
                Some(p) => p,
                None => Priority::Medium,
            },
            r.due_date.value@ == match self.parsed.due_date_text {
                Some(t) => t@,
                None => Seq::<char>::empty(),
            },
            r.project_id == match self.chosen_project() {
                Some(p) => Some(p.id),
                None => None,
            },
            r.tags.tags@ == self.parsed.tags@,
            r.all_tags@ == self.all_tags@,
            r.editing_task_id is None,
            r.focused_field == crate::ui::dialogs::add_task::AddTaskField::Title,
    {
        let mut d = AddTaskDialog::new().with_available_tags(crate::storage::tags::copy_tags(&self.all_tags));
        if crate::text::chars_of_string(&self.parsed.title).len() > 0 {
            d.title.set_value(self.parsed.title.as_str());
        } else {
            assert(self.parsed.title@.len() == 0);
            assert(d.title.value@ =~= self.parsed.title@);
        }
        d.priority = match self.parsed.priority {
            Some(p) => p,
            None => Priority::Medium,
        };
        match &self.parsed.due_date_text {
            Some(t) => {
                d.due_date.set_value(t.as_str());
            },
            None => {},
        }
        d.project_id = match &self.explicit_project {
            Some(p) => Some(p.id.clone()),
            None => match &self.matched_project {
                Some(p) => Some(p.id.clone()),
                None => None,
            },
        };
        d.tags = TagInput::with_tags(copy_strings(&self.parsed.tags));
        d
    }
}

/// A word that is no token: it does not start with `@`, `#`, `!`, `due:`,
/// `\@` or `\#`.
pub open spec fn plain_word(w: Seq<char>) -> bool {
    &&& w.len() >= 1
    &&& w[0] != '@' && w[0] != '#' && w[0] != '!'
    &&& !is_due_word(w)
    &&& !(w.len() >= 2 && w[0] == '\\' && (w[1] == '@' || w[1] == '#'))
}

proof fn lemma_plain_words(ws: Seq<Seq<char>>)
    requires
        forall|i: int| 0 <= i < ws.len() ==> plain_word(#[trigger] ws[i]),
    ensures
        absorb_all(ws) == (CaptureView { title_words: ws, ..empty_capture() }),
    decreases ws.len(),
{
    if ws.len() > 0 {
        let d = ws.drop_last();
        assert forall|i: int| 0 <= i < d.len() implies plain_word(#[trigger] d[i]) by {
            assert(d[i] == ws[i]);
        }
        lemma_plain_words(d);
        let w = ws.last();
        assert(plain_word(ws[ws.len() - 1]));
        if w.len() >= 4 {
            assert(!is_due_word(w));
        }
        assert(d.push(w) =~= ws);
        assert(absorb(absorb_all(d), w).title_words == d.push(w));
    } else {
        assert(ws =~= Seq::<Seq<char>>::empty());
    }
}

/// A line without tokens is all title: its words joined with single
/// spaces, with no project, tag, priority or due date.
pub proof fn law_plain_line_is_title(input: Seq<char>)
    requires
        forall|i: int| 0 <= i < words(input).len() ==> plain_word(#[trigger] words(input)[i]),
    ensures
        join_words(capture_of(input).title_words) == join_words(words(input)),
        capture_of(input).project is None,
        capture_of(input).tags.len() == 0,
        capture_of(input).priority is None,
        capture_of(input).due_text is None,
{
    lemma_plain_words(words(input));
}

/// A later `@` token replaces an earlier one, and a later `!` token an
/// earlier one: the last of each kind is kept.
pub proof fn law_last_token_wins(c: CaptureView, name: Seq<char>, level: Seq<char>)
    requires
        name.len() > 0,
        priority_level(level) is Some,
    ensures
        absorb(c, seq!['@'] + name).project == Some(name),
        absorb(c, seq!['!'] + level).priority == priority_level(level),
{
    assert((seq!['@'] + name).skip(1) =~= name);
    assert((seq!['!'] + level).skip(1) =~= level);
}

/// The arrows keep the highlight on a suggestion.
pub proof fn law_highlight_stays(pre: QuickCaptureDialog, post: QuickCaptureDialog, key: KeyEvent, clock: Clock, r: QuickCaptureAction)
    requires
        pre.wf(),
        key.code == KeyCode::Up || key.code == KeyCode::Down,
        pre.suggestions@.len() > 0,
        QuickCaptureDialog::key_step(pre, post, key, clock, r),
    ensures
        post.selected_suggestion matches Some(i) ==> i < post.suggestions@.len(),
        post.suggestions == pre.suggestions,
        r == QuickCaptureAction::Nothing,
{
}


/// How a line of the suggestion dropdown is coloured.
#[derive(Debug, Clone, Copy, PartialEq, Eq, Structural)]
pub enum SuggestionTone {
    /// A project name
    Project,
    /// A tag name
    Tag,
    /// Urgent priority
    Urgent,
    /// High priority
    High,
    /// Medium priority
    Medium,
    /// Low priority
    Low,
    /// Anything else
    Plain,
}

/// One line of the suggestion dropdown.
#[derive(Debug, Clone)]
pub struct SuggestionLine {
    /// The text shown
    pub text: String,
    /// Whether it is the highlighted suggestion
    pub selected: bool,
    /// Its colour
    pub tone: SuggestionTone,
}

/// At most this many suggestions show at once.
pub const MAX_VISIBLE_SUGGESTIONS: usize = 5;

/// How a suggestion reads in the dropdown: projects behind `◆ `, tags behind
/// `#`, priority digits as their names behind their markers.
pub open spec fn suggestion_text(mode: SuggestionMode, s: Seq<char>) -> Seq<char> {
    match mode {
        SuggestionMode::Projects => DIAMOND@ + seq![' '] + s,
        SuggestionMode::Tags => seq!['#'] + s,
        SuggestionMode::Priorities => if s == seq!['1'] {
            PRIORITY_URGENT@ + seq![' '] + "Urgent"@
        } else if s == seq!['2'] {
            PRIORITY_HIGH@ + seq![' '] + "High"@
        } else if s == seq!['3'] {
            CIRCLE@ + seq![' '] + "Medium"@
        } else if s == seq!['4'] {
            PRIORITY_LOW@ + seq![' '] + "Low"@
        } else {
            s
        },
        SuggestionMode::Nothing => s,
    }
}

/// The colour of a suggestion in the dropdown.
pub open spec fn suggestion_tone(mode: SuggestionMode, s: Seq<char>) -> SuggestionTone {
    match mode {
        SuggestionMode::Projects => SuggestionTone::Project,
        SuggestionMode::Tags => SuggestionTone::Tag,
        SuggestionMode::Priorities => if s == seq!['1'] {
            SuggestionTone::Urgent
        } else if s == seq!['2'] {
            SuggestionTone::High
        } else if s == seq!['3'] {
            SuggestionTone::Medium
        } else if s == seq!['4'] {
            SuggestionTone::Low
        } else {
            SuggestionTone::Plain
        },
        SuggestionMode::Nothing => SuggestionTone::Plain,
    }
}

/// The first suggestion shown: the list scrolls so that the highlighted one
/// is among the five shown.
pub open spec fn suggestion_scroll(selected: Option<usize>) -> int {
    let k = match selected {
        Some(k) => k as int,
        None => 0,
    };
    if k >= 5 {
        k - 4
    } else {
        0
    }
}

/// How many suggestions show: at most five.
pub open spec fn visible_suggestions(n: int) -> int {
    if n < 5 {
        n
    } else {
        5
    }
}

/// The text and colour of a suggestion (executable [`suggestion_text`] and
/// [`suggestion_tone`]).
fn suggestion_line(mode: SuggestionMode, s: &String) -> (r: (String, SuggestionTone))
    ensures
        r.0@ == suggestion_text(mode, s@),
        r.1 == suggestion_tone(mode, s@),
{
    let c = crate::text::chars_of_string(s);
    proof {
        reveal_strlit(" ");
        reveal_strlit("#");
        reveal_strlit("Urgent");
        reveal_strlit("High");
        reveal_strlit("Medium");
        reveal_strlit("Low");
    }
    match mode {
        SuggestionMode::Projects => {
            let mut t = String::from_str(DIAMOND);
            t.append(" ");
            t.append(s.as_str());
            (t, SuggestionTone::Project)
        },
        SuggestionMode::Tags => {
            let mut t = String::from_str("#");
            t.append(s.as_str());
            (t, SuggestionTone::Tag)
        },
        SuggestionMode::Priorities => {
            if c.len() == 1 && c[0] == '1' {
                assert(s@ =~= seq!['1']);
                let mut t = String::from_str(PRIORITY_URGENT);
                t.append(" Urgent");
                proof { reveal_strlit(" Urgent"); }
                (t, SuggestionTone::Urgent)
            } else if c.len() == 1 && c[0] == '2' {
                assert(s@ =~= seq!['2']);
                let mut t = String::from_str(PRIORITY_HIGH);
                t.append(" High");
                proof { reveal_strlit(" High"); }
                (t, SuggestionTone::High)
            } else if c.len() == 1 && c[0] == '3' {
                assert(s@ =~= seq!['3']);
                let mut t = String::from_str(CIRCLE);
                t.append(" Medium");
                proof { reveal_strlit(" Medium"); }
                (t, SuggestionTone::Medium)
            } else if c.len() == 1 && c[0] == '4' {
                assert(s@ =~= seq!['4']);
                let mut t = String::from_str(PRIORITY_LOW);
                t.append(" Low");
                proof { reveal_strlit(" Low"); }
                (t, SuggestionTone::Low)
            } else {
                assert(s@ != seq!['1'] && s@ != seq!['2'] && s@ != seq!['3'] && s@ != seq!['4']) by {
                    if s@.len() == 1 {
                        assert(s@[0] == c@[0]);
                    }
                }
                (s.clone(), SuggestionTone::Plain)
            }
        },
        SuggestionMode::Nothing => (s.clone(), SuggestionTone::Plain),
    }
}

impl QuickCaptureDialog {
    /// The dropdown below the dialog drawn at `dialog` on `screen`: its area
    /// (with a border round the lines) and its lines, or `None` when there are
    /// no suggestions or the dropdown would pass the screen's bottom.
    pub fn suggestion_dropdown(&self, dialog: Area, screen: Area) -> (r: Option<(Area, Vec<SuggestionLine>)>)
        requires
            self.wf(),
            dialog.y + dialog.height + visible_suggestions(self.suggestions@.len() as int) + 2 <= u16::MAX,
            screen.y + screen.height <= u16::MAX,
        ensures
            ({
                let n = visible_suggestions(self.suggestions@.len() as int);
                let top = dialog.y + dialog.height;
                let off = suggestion_scroll(self.selected_suggestion);
                match r {
                    None => n == 0 || top + n + 2 > screen.y + screen.height,
                    Some((area, lines)) => {
                        &&& n > 0 && top + n + 2 <= screen.y + screen.height
                        &&& area == Area { x: dialog.x, y: top as u16, width: dialog.width, height: (n + 2) as u16 }
                        &&& lines@.len() == visible_suggestions(self.suggestions@.len() - off)
                        &&& forall|i: int| 0 <= i < lines@.len() ==> {
                            &&& (#[trigger] lines@[i]).text@ == suggestion_text(
                                self.suggestion_mode,
                                self.suggestions@[off + i]@,
                            )
                            &&& lines@[i].tone == suggestion_tone(self.suggestion_mode, self.suggestions@[off + i]@)
                            &&& lines@[i].selected == (self.selected_suggestion == Some((off + i) as usize))
                        }
                    },
                }
            }),
    {
        let n = self.suggestions.len();
        let visible: usize = if n < MAX_VISIBLE_SUGGESTIONS { n } else { MAX_VISIBLE_SUGGESTIONS };
        if visible == 0 {
            return None;
        }
        let height: u16 = visible as u16 + 2;
        let top: u16 = dialog.y + dialog.height;
        if top as u32 + height as u32 > screen.y as u32 + screen.height as u32 {
            return None;
        }
        let area = Area { x: dialog.x, y: top, width: dialog.width, height };
        let selected: usize = match self.selected_suggestion {
            Some(k) => k,
            None => 0,
        };
        let off: usize = if selected >= MAX_VISIBLE_SUGGESTIONS { selected - MAX_VISIBLE_SUGGESTIONS + 1 } else { 0 };
        let mut lines: Vec<SuggestionLine> = Vec::new();
        let mut i: usize = 0;
        while i < MAX_VISIBLE_SUGGESTIONS && off + i < n
            invariant
                n == self.suggestions@.len(),
                off == suggestion_scroll(self.selected_suggestion),
                off + i <= n,
                i <= MAX_VISIBLE_SUGGESTIONS,
                lines@.len() == i,
                forall|j: int| 0 <= j < i ==> {
                    &&& (#[trigger] lines@[j]).text@ == suggestion_text(
                        self.suggestion_mode,
                        self.suggestions@[off + j]@,
                    )
                    &&& lines@[j].tone == suggestion_tone(self.suggestion_mode, self.suggestions@[off + j]@)
                    &&& lines@[j].selected == (self.selected_suggestion == Some((off + j) as usize))
                },
            decreases MAX_VISIBLE_SUGGESTIONS - i,
        {
            let idx = off + i;
            let (text, tone) = suggestion_line(self.suggestion_mode, &self.suggestions[idx]);
            let is_selected = match self.selected_suggestion {
                Some(k) => k == idx,
                None => false,
            };
            lines.push(SuggestionLine { text, selected: is_selected, tone });
            i = i + 1;
        }
        Some((area, lines))
    }
}


/// How a piece of the quick capture line is coloured.
#[derive(Debug, Clone, Copy, PartialEq, Eq, Structural)]
pub enum PieceKind {
    /// The space between two words
    Space,
    /// An `@project` word
    Project,
    /// A `#tag` word
    Tag,
    /// `!1`
    Urgent,
    /// `!2`
    High,
    /// `!3`
    Medium,
    /// `!4`
    Low,
    /// A `due:` word with a value
    Due,
    /// Any other word
    Plain,
}

/// A piece of the highlighted quick capture line.
#[derive(Debug, Clone)]
pub struct InputPiece {
    /// Its text
    pub text: String,
    /// Its colour
    pub kind: PieceKind,
}

/// The colour of a word of the line: `@` or `#` with a name, the priority
/// words `!1`–`!4`, `due:` with a value, else plain.
pub open spec fn word_kind(w: Seq<char>) -> PieceKind {
    if w.len() > 1 && w[0] == '@' {
        PieceKind::Project
    } else if w.len() > 1 && w[0] == '#' {
        PieceKind::Tag
    } else if w == seq!['!', '1'] {
        PieceKind::Urgent
    } else if w == seq!['!', '2'] {
        PieceKind::High
    } else if w == seq!['!', '3'] {
        PieceKind::Medium
    } else if w == seq!['!', '4'] {
        PieceKind::Low
    } else if w.len() > 4 && w.take(4) == seq!['d', 'u', 'e', ':'] {
        PieceKind::Due
    } else {
        PieceKind::Plain
    }
}

/// The pieces of a line split at its spaces into `words`: each word with
/// its colour, a space piece between two words.
pub open spec fn highlighted(words: Seq<Seq<char>>) -> Seq<(Seq<char>, PieceKind)>
    decreases words.len(),
{
    if words.len() == 0 {
        Seq::empty()
    } else {
        let before = highlighted(words.drop_last());
        let sep = if words.len() > 1 {
            seq![(seq![' '], PieceKind::Space)]
        } else {
            Seq::empty()
        };
        before + sep + seq![(words.last(), word_kind(words.last()))]
    }
}

/// The colour of a word (executable [`word_kind`]).
fn kind_of_word(w: &Vec<char>) -> (r: PieceKind)
    ensures
        r == word_kind(w@),
{
    let n = w.len();
    if n > 1 && w[0] == '@' {
        PieceKind::Project
    } else if n > 1 && w[0] == '#' {
        PieceKind::Tag
    } else if n == 2 && w[0] == '!' && w[1] == '1' {
        assert(w@ =~= seq!['!', '1']);
        PieceKind::Urgent
    } else if n == 2 && w[0] == '!' && w[1] == '2' {
        assert(w@ =~= seq!['!', '2']);
        PieceKind::High
    } else if n == 2 && w[0] == '!' && w[1] == '3' {
        assert(w@ =~= seq!['!', '3']);
        PieceKind::Medium
    } else if n == 2 && w[0] == '!' && w[1] == '4' {
        assert(w@ =~= seq!['!', '4']);
        PieceKind::Low
    } else if n > 4 && w[0] == 'd' && w[1] == 'u' && w[2] == 'e' && w[3] == ':' {
        assert(w@.take(4) =~= seq!['d', 'u', 'e', ':']);
        PieceKind::Due
    } else {
        proof {
            if n == 2 {
                assert(w@ != seq!['!', '1'] ==> w@[0] != '!' || w@[1] != '1');
            }
            if n > 4 {
                assert(w@.take(4)[0] == w@[0] && w@.take(4)[1] == w@[1]);
                assert(w@.take(4)[2] == w@[2] && w@.take(4)[3] == w@[3]);
            }
            if w@ == seq!['!', '1'] || w@ == seq!['!', '2'] || w@ == seq!['!', '3'] || w@ == seq!['!', '4'] {
                assert(w@.len() == 2 && w@[0] == '!');
            }
        }
        PieceKind::Plain
    }
}

/// Colours the quick capture line for display: split at each space, each
/// word coloured by what it says (see [`word_kind`]), a space piece between
/// words.
pub fn highlight_input(input: &str) -> (r: Vec<InputPiece>)
    ensures
        r@.len() == highlighted(split_on(input@, ' ')).len(),
        forall|i: int|
            0 <= i < r@.len() ==> ((#[trigger] r@[i]).text@, r@[i].kind) == highlighted(
                split_on(input@, ' '),
            )[i],
{
    let chars = crate::text::chars_of(input);
    let words = crate::text::split_chars(&chars, ' ');
    let ghost ws = split_on(input@, ' ');
    let mut out: Vec<InputPiece> = Vec::new();
    let mut i: usize = 0;
    while i < words.len()
        invariant
            i <= words@.len(),
            chars@ == input@,
            ws == split_on(input@, ' '),
            crate::text::views_of_chars(words@) == ws,
            out@.len() == highlighted(ws.take(i as int)).len(),
            forall|j: int|
                0 <= j < out@.len() ==> ((#[trigger] out@[j]).text@, out@[j].kind) == highlighted(
                    ws.take(i as int),
                )[j],
        decreases words@.len() - i,
    {
        let ghost before = out@;
        let ghost hb = highlighted(ws.take(i as int));
        assert(ws.take(i + 1).drop_last() =~= ws.take(i as int));
        assert(ws.take(i + 1).last() == words@[i as int]@);
        if i > 0 {
            out.push(InputPiece { text: crate::text::string_from(" "), kind: PieceKind::Space });
            proof {
                reveal_strlit(" ");
            }
        }
        let kind = kind_of_word(&words[i]);
        out.push(InputPiece { text: crate::text::string_of(&words[i]), kind });
        proof {
            let h = highlighted(ws.take(i + 1));
            assert(h.len() == out@.len());
            assert forall|j: int| 0 <= j < out@.len() implies ((#[trigger] out@[j]).text@, out@[j].kind) == h[j] by {
                if j < before.len() {
                    assert(out@[j] == before[j]);
                }
            }
        }
        i = i + 1;
    }
    assert(ws.take(words@.len() as int) =~= ws);
    out
}


/// How a badge under the quick capture line is coloured.
#[derive(Debug, Clone, Copy, PartialEq, Eq, Structural)]
pub enum BadgeKind {
    /// A project that was found
    Project,
    /// A project name that matches no project
    UnknownProject,
    /// Urgent priority
    Urgent,
    /// High priority
    High,
    /// Medium priority
    Medium,
    /// Low priority
    Low,
    /// A tag
    Tag,
    /// A due date that reads as a date
    Due,
    /// A due date text that does not read
    DueUnread,
    /// The syntax hint shown when there is nothing else
    Hint,
}

/// A badge showing what the quick capture line says.
#[derive(Debug, Clone)]
pub struct Badge {
    /// Its text
    pub text: String,
    /// Its colour
    pub kind: BadgeKind,
}

/// The text and colour of each badge.
pub open spec fn badge_views(v: Seq<Badge>) -> Seq<(Seq<char>, BadgeKind)> {
    v.map_values(|b: Badge| (b.text@, b.kind))
}

/// The project badge: the picked project, else the matched one, else the
/// typed name with a question mark.
pub open spec fn project_badge(d: QuickCaptureDialog) -> Seq<(Seq<char>, BadgeKind)> {
    match d.explicit_project {
        Some(p) => seq![(DIAMOND@ + seq![' '] + p.name@ + seq![' '], BadgeKind::Project)],
        None => match d.parsed.project_name {
            Some(name) => match d.matched_project {
                Some(m) => seq![(DIAMOND@ + seq![' '] + m.name@ + seq![' '], BadgeKind::Project)],
                None => seq![(DIAMOND@ + seq![' '] + name@ + seq!['?', ' '], BadgeKind::UnknownProject)],
            },
            None => Seq::empty(),
        },
    }
}

/// The marker, name and colour of a priority badge.
pub open spec fn priority_badge_of(p: Priority) -> (Seq<char>, BadgeKind) {
    match p {
        Priority::Urgent => (PRIORITY_URGENT@ + " Urgent "@, BadgeKind::Urgent),
        Priority::High => (PRIORITY_HIGH@ + " High "@, BadgeKind::High),
        Priority::Medium => (CIRCLE@ + " Medium "@, BadgeKind::Medium),
        Priority::Low => (PRIORITY_LOW@ + " Low "@, BadgeKind::Low),
    }
}

/// One badge per tag.
pub open spec fn tag_badges(tags: Seq<String>) -> Seq<(Seq<char>, BadgeKind)> {
    Seq::new(tags.len(), |i: int| (seq!['#'] + tags[i]@ + seq![' '], BadgeKind::Tag))
}

/// The badges of the line, in order: project, priority, tags, due date;
/// the syntax hint when there are none.
pub open spec fn badges_of(d: QuickCaptureDialog) -> Seq<(Seq<char>, BadgeKind)> {
    let prio = match d.parsed.priority {
        Some(p) => seq![priority_badge_of(p)],
        None => Seq::empty(),
    };
    let due = match d.parsed.due_date_text {
        Some(t) => seq![(
            CHECKBOX_PROGRESS@ + seq![' '] + t@ + seq![' '],
            if d.parsed.due_date is Some { BadgeKind::Due } else { BadgeKind::DueUnread },
        )],
        None => Seq::empty(),
    };
    let all = project_badge(d) + prio + tag_badges(d.parsed.tags@) + due;
    if all.len() == 0 {
        seq![("@project #tag !priority due:date"@, BadgeKind::Hint)]
    } else {
        all
    }
}

/// `DIAMOND`, a space, `name` and `tail`.
fn diamond_text(name: &str, tail: &str) -> (r: String)
    ensures
        r@ == DIAMOND@ + seq![' '] + name@ + tail@,
{
    let mut s = crate::text::string_from(DIAMOND);
    s.append(" ");
    s.append(name);
    s.append(tail);
    proof {
        reveal_strlit(" ");
    }
    s
}

/// Pushing a badge pushes its view.
proof fn lemma_badge_views_push(v: Seq<Badge>, b: Badge)
    ensures
        badge_views(v.push(b)) == badge_views(v).push((b.text@, b.kind)),
{
    assert(badge_views(v.push(b)) =~= badge_views(v).push((b.text@, b.kind)));
}

/// The badge of a priority (executable [`priority_badge_of`]).
fn priority_badge(p: Priority) -> (r: Badge)
    ensures
        (r.text@, r.kind) == priority_badge_of(p),
{
    let (icon, label, kind) = match p {
        Priority::Urgent => (PRIORITY_URGENT, " Urgent ", BadgeKind::Urgent),
        Priority::High => (PRIORITY_HIGH, " High ", BadgeKind::High),
        Priority::Medium => (CIRCLE, " Medium ", BadgeKind::Medium),
        Priority::Low => (PRIORITY_LOW, " Low ", BadgeKind::Low),
    };
    let mut t = crate::text::string_from(icon);
    t.append(label);
    Badge { text: t, kind }
}

/// The project badge (executable [`project_badge`]).
fn project_badge_exec(d: &QuickCaptureDialog) -> (r: Option<Badge>)
    ensures
        match r {
            Some(b) => project_badge(*d) == seq![(b.text@, b.kind)],
            None => project_badge(*d).len() == 0,
        },
{
    proof {
        reveal_strlit(" ");
        reveal_strlit("? ");
        assert(" "@ =~= seq![' ']);
        assert("? "@ =~= seq!['?', ' ']);
    }
    match &d.explicit_project {
        Some(p) => Some(Badge { text: diamond_text(p.name.as_str(), " "), kind: BadgeKind::Project }),
        None => match &d.parsed.project_name {
            Some(name) => match &d.matched_project {
                Some(m) => Some(Badge { text: diamond_text(m.name.as_str(), " "), kind: BadgeKind::Project }),
                None => Some(Badge { text: diamond_text(name.as_str(), "? "), kind: BadgeKind::UnknownProject }),
            },
            None => None,
        },
    }
}

impl QuickCaptureDialog {
    /// The badges under the line, showing what it says (see [`badges_of`]).
    pub fn badges(&self) -> (r: Vec<Badge>)
        ensures
            badge_views(r@) == badges_of(*self),
    {
        let mut out: Vec<Badge> = Vec::new();
        match project_badge_exec(self) {
            Some(b) => {
                proof {
                    lemma_badge_views_push(out@, b);
                }
                out.push(b);
            },
            None => {},
        }
        assert(badge_views(out@) =~= project_badge(*self));
        let ghost prio = match self.parsed.priority {
            Some(p) => seq![priority_badge_of(p)],
            None => Seq::<(Seq<char>, BadgeKind)>::empty(),
        };
        match self.parsed.priority {
            Some(p) => {
                let b = priority_badge(p);
                proof {
                    lemma_badge_views_push(out@, b);
                }
                out.push(b);
            },
            None => {},
        }
        assert(badge_views(out@) =~= project_badge(*self) + prio);
        let ghost before_tags = badge_views(out@);
        let mut i: usize = 0;
        while i < self.parsed.tags.len()
            invariant
                i <= self.parsed.tags@.len(),
                badge_views(out@) =~= before_tags + tag_badges(self.parsed.tags@.take(i as int)),
            decreases self.parsed.tags@.len() - i,
        {
            let mut t = crate::text::string_from("#");
            t.append(self.parsed.tags[i].as_str());
            t.append(" ");
            proof {
                reveal_strlit("#");
                reveal_strlit(" ");
                assert(" "@ =~= seq![' ']);
                assert("#"@ =~= seq!['#']);
            }
            let b = Badge { text: t, kind: BadgeKind::Tag };
            proof {
                lemma_badge_views_push(out@, b);
            }
            out.push(b);
            assert(tag_badges(self.parsed.tags@.take(i + 1)) =~= tag_badges(self.parsed.tags@.take(i as int)).push(
                (seq!['#'] + self.parsed.tags@[i as int]@ + seq![' '], BadgeKind::Tag),
            ));
            i = i + 1;
        }
        assert(self.parsed.tags@.take(self.parsed.tags@.len() as int) =~= self.parsed.tags@);
        let ghost before_due = badge_views(out@);
        match &self.parsed.due_date_text {
            Some(text) => {
                let mut t = crate::text::string_from(CHECKBOX_PROGRESS);
                t.append(" ");
                t.append(text.as_str());
                t.append(" ");
                proof {
                    reveal_strlit(" ");
                    assert(" "@ =~= seq![' ']);
                }
                let kind = if self.parsed.due_date.is_some() { BadgeKind::Due } else { BadgeKind::DueUnread };
                let b = Badge { text: t, kind };
                proof {
                    lemma_badge_views_push(out@, b);
                }
                out.push(b);
            },
            None => {},
        }
        let ghost due = match &self.parsed.due_date_text {
            Some(t) => seq![(
                CHECKBOX_PROGRESS@ + seq![' '] + t@ + seq![' '],
                if self.parsed.due_date is Some { BadgeKind::Due } else { BadgeKind::DueUnread },
            )],
            None => Seq::<(Seq<char>, BadgeKind)>::empty(),
        };
        assert(badge_views(out@) =~= project_badge(*self) + prio + tag_badges(self.parsed.tags@) + due);
        if out.len() == 0 {
            proof {
                reveal_strlit("@project #tag !priority due:date");
            }
            let b = Badge { text: crate::text::string_from("@project #tag !priority due:date"), kind: BadgeKind::Hint };
            proof {
                lemma_badge_views_push(out@, b);
            }
            out.push(b);
        }
        out
    }
}

} // verus!
