//! Filtering and sorting of tasks.
use vstd::prelude::*;
use crate::models::priority::Priority;
use crate::models::task::{Task, TaskStatus, overdue_at, due_today_at, due_this_week_at};
use crate::utils::datetime::Clock;
use crate::text::{string_from, concat};

verus! {

/// Filter criteria for tasks.
#[derive(Debug, Clone, PartialEq, Eq)]
pub enum Filter {
    /// Show all tasks (no filtering)
    All,
    /// Show only pending tasks (default filter)
    Pending,
    /// Show only tasks in progress
    InProgress,
    /// Show only completed tasks
    Completed,
    /// Show only archived tasks
    Archived,
    /// Show tasks due today
    DueToday,
    /// Show tasks due within the next 7 days
    DueThisWeek,
    /// Show overdue tasks
    Overdue,
    /// Show tasks belonging to a specific project
    ByProject(String),
    /// Show tasks with a specific tag
    ByTag(String),
    /// Show tasks with a specific priority
    ByPriority(Priority),
}

impl Default for Filter {
    fn default() -> (r: Self)
        ensures
            r is Pending,
    {
        Filter::Pending
    }
}

/// Whether `t` is among the task's tags.
pub open spec fn has_tag(task: Task, t: Seq<char>) -> bool {
    exists|i: int| 0 <= i < task.tags@.len() && (#[trigger] task.tags@[i])@ == t
}

/// Whether `task` passes `filter` at the time given by `clock`.
pub open spec fn filter_matches(filter: Filter, task: Task, clock: Clock) -> bool {
    match filter {
        Filter::All => true,
        Filter::Pending => task.status == TaskStatus::Pending,
        Filter::InProgress => task.status == TaskStatus::InProgress,
        Filter::Completed => task.status == TaskStatus::Completed,
        Filter::Archived => task.status == TaskStatus::Archived,
        Filter::DueToday => due_today_at(task, clock),
        Filter::DueThisWeek => due_this_week_at(task, clock.now as int),
        Filter::Overdue => overdue_at(task, clock.now as int),
        Filter::ByProject(p) => task.project_id matches Some(q) && q@ == p@,
        Filter::ByTag(t) => has_tag(task, t@),
        Filter::ByPriority(p) => task.priority == p,
    }
}

/// The tasks of `tasks` that pass `filter`, in their order.
pub open spec fn filtered(filter: Filter, tasks: Seq<Task>, clock: Clock) -> Seq<Task> {
    tasks.filter(|t: Task| filter_matches(filter, t, clock))
}

/// Whether the task carries tag `tag`.
pub fn task_has_tag(task: &Task, tag: &String) -> (r: bool)
    ensures
        r == has_tag(*task, tag@),
{
    let mut i: usize = 0;
    while i < task.tags.len()
        invariant
            i <= task.tags@.len(),
            forall|j: int| 0 <= j < i ==> (#[trigger] task.tags@[j])@ != tag@,
        decreases task.tags@.len() - i,
    {
        if task.tags[i] == *tag {
            return true;
        }
        i = i + 1;
    }
    false
}

impl Filter {
    /// Checks whether a task passes this filter at the time given by `clock`.
    pub fn matches_at(&self, task: &Task, clock: Clock) -> (r: bool)
        requires
            clock.wf(),
        ensures
            r == filter_matches(*self, *task, clock),
    {
        match self {
            Filter::All => true,
            Filter::Pending => task.status == TaskStatus::Pending,
            Filter::InProgress => task.status == TaskStatus::InProgress,
            Filter::Completed => task.status == TaskStatus::Completed,
            Filter::Archived => task.status == TaskStatus::Archived,
            Filter::DueToday => task.is_due_today_at(clock),
            Filter::DueThisWeek => task.is_due_this_week_at(clock.now),
            Filter::Overdue => task.is_overdue_at(clock.now),
            Filter::ByProject(project_id) => match &task.project_id {
                Some(q) => *q == *project_id,
                None => false,
            },
            Filter::ByTag(tag) => task_has_tag(task, tag),
            Filter::ByPriority(priority) => task.priority == *priority,
        }
    }

    /// Checks whether a task passes this filter now.
    pub fn matches(&self, task: &Task) -> (r: bool)
        ensures
            exists|c: Clock| c.wf() && r == filter_matches(*self, *task, c),
    {
        self.matches_at(task, Clock::read())
    }

    /// The tasks that pass this filter at the time given by `clock`, in their order.
    pub fn apply_at<'a>(&self, tasks: &'a [Task], clock: Clock) -> (r: Vec<&'a Task>)
        requires
            clock.wf(),
        ensures
            r@.map_values(|t: &Task| *t) == filtered(*self, tasks@, clock),
    {
        let ghost pred = |t: Task| filter_matches(*self, t, clock);
        let mut r: Vec<&'a Task> = Vec::new();
        let mut i: usize = 0;
        while i < tasks.len()
            invariant
                i <= tasks@.len(),
                clock.wf(),
                pred == (|t: Task| filter_matches(*self, t, clock)),
                r@.map_values(|t: &Task| *t) == tasks@.take(i as int).filter(pred),
            decreases tasks@.len() - i,
        {
            let ghost before = r@;
            if self.matches_at(&tasks[i], clock) {
                r.push(&tasks[i]);
                assert(r@.map_values(|t: &Task| *t) =~= before.map_values(|t: &Task| *t).push(
                    tasks@[i as int],
                ));
            }
            proof {
                assert(tasks@.take(i + 1) =~= tasks@.take(i as int).push(tasks@[i as int]));
                tasks@.take(i as int).lemma_filter_push(tasks@[i as int], pred);
            }
            i = i + 1;
        }
        assert(tasks@.take(tasks@.len() as int) =~= tasks@);
        r
    }

    /// The tasks that pass this filter now, in their order.
    pub fn apply<'a>(&self, tasks: &'a [Task]) -> (r: Vec<&'a Task>)
        ensures
            exists|c: Clock| c.wf() && r@.map_values(|t: &Task| *t) == filtered(*self, tasks@, c),
    {
        self.apply_at(tasks, Clock::read())
    }

    /// Whether two filters are of the same kind, ignoring what they carry.
    pub fn same_kind(&self, other: &Filter) -> (r: bool)
        ensures
            r == (match (*self, *other) {
                (Filter::All, Filter::All) => true,
                (Filter::Pending, Filter::Pending) => true,
                (Filter::InProgress, Filter::InProgress) => true,
                (Filter::Completed, Filter::Completed) => true,
                (Filter::Archived, Filter::Archived) => true,
                (Filter::DueToday, Filter::DueToday) => true,
                (Filter::DueThisWeek, Filter::DueThisWeek) => true,
                (Filter::Overdue, Filter::Overdue) => true,
                (Filter::ByProject(_), Filter::ByProject(_)) => true,
                (Filter::ByTag(_), Filter::ByTag(_)) => true,
                (Filter::ByPriority(_), Filter::ByPriority(_)) => true,
                _ => false,
            }),
    {
        match (self, other) {
            (Filter::All, Filter::All) => true,
            (Filter::Pending, Filter::Pending) => true,
            (Filter::InProgress, Filter::InProgress) => true,
            (Filter::Completed, Filter::Completed) => true,
            (Filter::Archived, Filter::Archived) => true,
            (Filter::DueToday, Filter::DueToday) => true,
            (Filter::DueThisWeek, Filter::DueThisWeek) => true,
            (Filter::Overdue, Filter::Overdue) => true,
            (Filter::ByProject(_), Filter::ByProject(_)) => true,
            (Filter::ByTag(_), Filter::ByTag(_)) => true,
            (Filter::ByPriority(_), Filter::ByPriority(_)) => true,
            _ => false,
        }
    }
}

/// Sort order options for task lists.
#[derive(Debug, Clone, Copy, PartialEq, Eq, Structural)]
pub enum SortOrder {
    /// Sort by due date, earliest first (default); tasks without due date
    /// last, oldest created first
    DueDateAsc,
    /// Sort by due date, latest first; tasks without due date last, newest
    /// created first
    DueDateDesc,
    /// Sort by priority, highest first
    PriorityDesc,
    /// Sort by priority, lowest first
    PriorityAsc,
    /// Sort by creation date, newest first
    CreatedDesc,
    /// Sort by creation date, oldest first
    CreatedAsc,
    /// Sort alphabetically by title
    Alphabetical,
}

impl Default for SortOrder {
    fn default() -> (r: Self)
        ensures
            r == SortOrder::DueDateAsc,
    {
        SortOrder::DueDateAsc
    }
}

/// The name of a priority's variant.
pub open spec fn priority_variant(p: Priority) -> Seq<char> {
    match p {
        Priority::Low => "Low"@,
        Priority::Medium => "Medium"@,
        Priority::High => "High"@,
        Priority::Urgent => "Urgent"@,
    }
}

/// A filter written as its variant's name, with what it carries in
/// brackets (a text in double quotes).
pub open spec fn filter_variant(f: Filter) -> Seq<char> {
    match f {
        Filter::All => "All"@,
        Filter::Pending => "Pending"@,
        Filter::InProgress => "InProgress"@,
        Filter::Completed => "Completed"@,
        Filter::Archived => "Archived"@,
        Filter::DueToday => "DueToday"@,
        Filter::DueThisWeek => "DueThisWeek"@,
        Filter::Overdue => "Overdue"@,
        Filter::ByProject(p) => "ByProject(\""@ + p@ + "\")"@,
        Filter::ByTag(t) => "ByTag(\""@ + t@ + "\")"@,
        Filter::ByPriority(p) => "ByPriority("@ + priority_variant(p) + ")"@,
    }
}

/// A sort order written as its variant's name.
pub open spec fn sort_variant(s: SortOrder) -> Seq<char> {
    match s {
        SortOrder::DueDateAsc => "DueDateAsc"@,
        SortOrder::DueDateDesc => "DueDateDesc"@,
        SortOrder::PriorityDesc => "PriorityDesc"@,
        SortOrder::PriorityAsc => "PriorityAsc"@,
        SortOrder::CreatedDesc => "CreatedDesc"@,
        SortOrder::CreatedAsc => "CreatedAsc"@,
        SortOrder::Alphabetical => "Alphabetical"@,
    }
}

/// The name of a priority's variant (executable).
pub fn priority_variant_name(p: Priority) -> (r: &'static str)
    ensures
        r@ == priority_variant(p),
{
    match p {
        Priority::Low => "Low",
        Priority::Medium => "Medium",
        Priority::High => "High",
        Priority::Urgent => "Urgent",
    }
}

impl Filter {
    /// The filter written as its variant's name (see [`filter_variant`]).
    pub fn variant_text(&self) -> (r: String)
        ensures
            r@ == filter_variant(*self),
    {
        match self {
            Filter::All => string_from("All"),
            Filter::Pending => string_from("Pending"),
            Filter::InProgress => string_from("InProgress"),
            Filter::Completed => string_from("Completed"),
            Filter::Archived => string_from("Archived"),
            Filter::DueToday => string_from("DueToday"),
            Filter::DueThisWeek => string_from("DueThisWeek"),
            Filter::Overdue => string_from("Overdue"),
            Filter::ByProject(p) => {
                let head = concat("ByProject(\"", p.as_str());
                concat(head.as_str(), "\")")
            },
            Filter::ByTag(t) => {
                let head = concat("ByTag(\"", t.as_str());
                concat(head.as_str(), "\")")
            },
            Filter::ByPriority(p) => {
                let head = concat("ByPriority(", priority_variant_name(*p));
                concat(head.as_str(), ")")
            },
        }
    }
}

impl SortOrder {
    /// The sort order written as its variant's name (see [`sort_variant`]).
    pub fn variant_text(&self) -> (r: &'static str)
        ensures
            r@ == sort_variant(*self),
    {
        match self {
            SortOrder::DueDateAsc => "DueDateAsc",
            SortOrder::DueDateDesc => "DueDateDesc",
            SortOrder::PriorityDesc => "PriorityDesc",
            SortOrder::PriorityAsc => "PriorityAsc",
            SortOrder::CreatedDesc => "CreatedDesc",
            SortOrder::CreatedAsc => "CreatedAsc",
            SortOrder::Alphabetical => "Alphabetical",
        }
    }
}

/// The sign of `a - b`: -1, 0 or 1.
pub open spec fn sign_order(a: int, b: int) -> int {
    if a < b {
        -1
    } else if a == b {
        0
    } else {
        1
    }
}

/// Lexicographic comparison of pairs, as -1, 0 or 1.
pub open spec fn pair_order(a: (int, int), b: (int, int)) -> int {
    if a.0 != b.0 {
        sign_order(a.0, b.0)
    } else {
        sign_order(a.1, b.1)
    }
}

/// Lexicographic comparison of character sequences by code point, as -1,
/// 0 or 1; the order of `String`'s `Ord`.
pub open spec fn lex_order(a: Seq<char>, b: Seq<char>) -> int
    decreases a.len(),
{
    if a.len() == 0 {
        if b.len() == 0 {
            0
        } else {
            -1
        }
    } else if b.len() == 0 {
        1
    } else if a[0] != b[0] {
        if a[0] < b[0] {
        -1
    } else {
        1
    }
    } else {
        lex_order(a.drop_first(), b.drop_first())
    }
}

/// The key by which `order` compares tasks (all orders but `Alphabetical`).
pub open spec fn sort_key(order: SortOrder, t: Task) -> (int, int) {
    match order {
        SortOrder::DueDateAsc => match t.due_date {
            Some(d) => (0, d as int),
            None => (1, t.created_at as int),
        },
        SortOrder::DueDateDesc => match t.due_date {
            Some(d) => (0, -d),
            None => (1, -t.created_at),
        },
        SortOrder::PriorityDesc => (0, -t.priority.rank()),
        SortOrder::PriorityAsc => (0, t.priority.rank()),
        SortOrder::CreatedDesc => (0, -t.created_at),
        SortOrder::CreatedAsc => (0, t.created_at as int),
        SortOrder::Alphabetical => (0, 0),
    }
}

/// How `order` compares two tasks: -1 when `a` comes first, 1 when `b`
/// does, 0 when they tie.
pub open spec fn task_order(order: SortOrder, a: Task, b: Task) -> int {
    match order {
        SortOrder::Alphabetical => lex_order(a.title@, b.title@),
        _ => pair_order(sort_key(order, a), sort_key(order, b)),
    }
}

/// Some position of `p` holds `x`.
pub open spec fn covers(p: Seq<int>, x: int) -> bool {
    exists|i: int| 0 <= i < p.len() && #[trigger] p[i] == x
}

/// `out` is `inp` sorted stably by `order`: a permutation `p` of the
/// positions of `inp` puts the tasks in order, ties keeping their order.
pub open spec fn stably_sorted_by(p: Seq<int>, order: SortOrder, out: Seq<Task>, inp: Seq<Task>) -> bool {
    &&& p.len() == inp.len()
    &&& out.len() == inp.len()
    &&& forall|i: int| 0 <= i < p.len() ==> 0 <= #[trigger] p[i] < inp.len()
    &&& forall|i: int, j: int| 0 <= i < j < p.len() ==> #[trigger] p[i] != #[trigger] p[j]
    &&& forall|x: int| 0 <= x < inp.len() ==> #[trigger] covers(p, x)
    &&& forall|i: int| 0 <= i < out.len() ==> #[trigger] out[i] == inp[p[i]]
    &&& forall|i: int, j: int|
        0 <= i < j < out.len() ==> task_order(order, #[trigger] out[i], #[trigger] out[j]) < 0 || (
        task_order(order, out[i], out[j]) == 0 && p[i] < p[j])
}

/// `out` is a stable sort of `inp` by `order`.
pub open spec fn is_stable_sort(order: SortOrder, out: Seq<Task>, inp: Seq<Task>) -> bool {
    exists|p: Seq<int>| stably_sorted_by(p, order, out, inp)
}

pub proof fn lemma_lex_order(a: Seq<char>, b: Seq<char>)
    ensures
        lex_order(a, b) == -lex_order(b, a),
        -1 <= lex_order(a, b) <= 1,
        lex_order(a, b) == 0 <==> a == b,
    decreases a.len(),
{
    if a.len() > 0 && b.len() > 0 && a[0] == b[0] {
        lemma_lex_order(a.drop_first(), b.drop_first());
        if a.drop_first() == b.drop_first() {
            assert(a =~= seq![a[0]] + a.drop_first());
            assert(b =~= seq![b[0]] + b.drop_first());
        }
    }
    if a.len() == 0 && b.len() == 0 {
        assert(a =~= b);
    }
}

proof fn lemma_lex_order_trans(a: Seq<char>, b: Seq<char>, c: Seq<char>)
    requires
        lex_order(a, b) <= 0,
        lex_order(b, c) <= 0,
    ensures
        lex_order(a, c) <= 0,
        lex_order(a, b) < 0 || lex_order(b, c) < 0 ==> lex_order(a, c) < 0,
    decreases a.len(),
{
    lemma_lex_order(a, b);
    lemma_lex_order(b, c);
    lemma_lex_order(a, c);
    if a.len() > 0 && b.len() > 0 && c.len() > 0 {
        if a[0] == b[0] && b[0] == c[0] {
            lemma_lex_order_trans(a.drop_first(), b.drop_first(), c.drop_first());
        }
    }
}

/// The task comparison of every order is a total preorder.
pub proof fn lemma_task_order(order: SortOrder, a: Task, b: Task, c: Task)
    ensures
        task_order(order, a, b) == -task_order(order, b, a),
        -1 <= task_order(order, a, b) <= 1,
        task_order(order, a, b) <= 0 && task_order(order, b, c) <= 0 ==> task_order(order, a, c) <= 0,
        task_order(order, a, b) < 0 && task_order(order, b, c) <= 0 ==> task_order(order, a, c) < 0,
        task_order(order, a, b) <= 0 && task_order(order, b, c) < 0 ==> task_order(order, a, c) < 0,
{
    if order == SortOrder::Alphabetical {
        lemma_lex_order(a.title@, b.title@);
        if task_order(order, a, b) <= 0 && task_order(order, b, c) <= 0 {
            lemma_lex_order_trans(a.title@, b.title@, c.title@);
        }
    }
}

/// Compares two character vectors lexicographically by code point.
pub fn compare_chars(a: &Vec<char>, b: &Vec<char>) -> (r: i8)
    ensures
        r == lex_order(a@, b@),
{
    let mut i: usize = 0;
    assert(a@.skip(0) =~= a@ && b@.skip(0) =~= b@);
    while i < a.len() && i < b.len()
        invariant
            i <= a@.len(),
            i <= b@.len(),
            lex_order(a@, b@) == lex_order(a@.skip(i as int), b@.skip(i as int)),
        decreases a@.len() - i,
    {
        let x = a[i];
        let y = b[i];
        if x != y {
            proof {
                assert(a@.skip(i as int)[0] == x);
                assert(b@.skip(i as int)[0] == y);
            }
            if x < y {
                return -1;
            } else {
                return 1;
            }
        }
        proof {
            assert(a@.skip(i as int).drop_first() =~= a@.skip(i + 1));
            assert(b@.skip(i as int).drop_first() =~= b@.skip(i + 1));
        }
        i = i + 1;
    }
    if a.len() == i {
        if b.len() == i {
            0
        } else {
            -1
        }
    } else {
        1
    }
}

/// Compares two instants as -1, 0 or 1.
fn compare_i64(a: i64, b: i64) -> (r: i8)
    ensures
        r == sign_order(a as int, b as int),
{
    if a < b {
        -1
    } else if a == b {
        0
    } else {
        1
    }
}

/// Compares two tasks by `order`, as -1, 0 or 1.
pub fn compare_tasks(order: SortOrder, a: &Task, b: &Task) -> (r: i8)
    ensures
        r == task_order(order, *a, *b),
{
    match order {
        SortOrder::DueDateAsc => match (a.due_date, b.due_date) {
            (Some(x), Some(y)) => compare_i64(x, y),
            (Some(_), None) => -1,
            (None, Some(_)) => 1,
            (None, None) => compare_i64(a.created_at, b.created_at),
        },
        SortOrder::DueDateDesc => match (a.due_date, b.due_date) {
            (Some(x), Some(y)) => compare_i64(y, x),
            (Some(_), None) => -1,
            (None, Some(_)) => 1,
            (None, None) => compare_i64(b.created_at, a.created_at),
        },
        SortOrder::PriorityDesc => compare_i64(
            b.priority.rank_value() as i64,
            a.priority.rank_value() as i64,
        ),
        SortOrder::PriorityAsc => compare_i64(
            a.priority.rank_value() as i64,
            b.priority.rank_value() as i64,
        ),
        SortOrder::CreatedDesc => compare_i64(b.created_at, a.created_at),
        SortOrder::CreatedAsc => compare_i64(a.created_at, b.created_at),
        SortOrder::Alphabetical => {
            let x = crate::text::chars_of_string(&a.title);
            let y = crate::text::chars_of_string(&b.title);
            compare_chars(&x, &y)
        },
    }
}

impl SortOrder {
    /// Sorts task references in place, stably: tasks that tie keep their order.
    pub fn apply(&self, tasks: &mut Vec<&Task>)
        ensures
            is_stable_sort(
                *self,
                final(tasks)@.map_values(|t: &Task| *t),
                old(tasks)@.map_values(|t: &Task| *t),
            ),
            final(tasks)@.map_values(|t: &Task| *t) == sorted_tasks(
                *self,
                old(tasks)@.map_values(|t: &Task| *t),
            ),
    {
        let order = *self;
        let ghost inp = tasks@.map_values(|t: &Task| *t);
        let mut out: Vec<&Task> = Vec::new();
        let ghost mut p: Seq<int> = Seq::empty();
        let mut k: usize = 0;
        while k < tasks.len()
            invariant
                k <= tasks@.len(),
                inp == tasks@.map_values(|t: &Task| *t),
                stably_sorted_by(p, order, out@.map_values(|t: &Task| *t), inp.take(k as int)),
            decreases tasks@.len() - k,
        {
            let ghost o = out@.map_values(|t: &Task| *t);
            let x = tasks[k];
            let mut pos: usize = 0;
            while pos < out.len() && compare_tasks(order, x, out[pos]) >= 0
                invariant
                    pos <= out@.len(),
                    o == out@.map_values(|t: &Task| *t),
                    forall|i: int| 0 <= i < pos ==> task_order(order, *x, #[trigger] o[i]) >= 0,
                decreases out@.len() - pos,
            {
                pos = pos + 1;
            }
            proof {
                lemma_insert_sorted(order, p, o, inp, k as int, pos as int);
            }
            out.insert(pos, x);
            proof {
                assert(out@.map_values(|t: &Task| *t) =~= o.insert(pos as int, inp[k as int]));
                p = p.insert(pos as int, k as int);
            }
            k = k + 1;
        }
        assert(inp.take(tasks@.len() as int) =~= inp);
        let ghost fin = out@.map_values(|t: &Task| *t);
        assert(stably_sorted_by(p, order, fin, inp));
        proof {
            lemma_is_sorted_tasks(order, fin, inp);
        }
        *tasks = out;
    }
}

/// Inserting the next task at the first position whose task comes after it
/// keeps a stable sort.
proof fn lemma_insert_sorted(
    order: SortOrder,
    p: Seq<int>,
    o: Seq<Task>,
    inp: Seq<Task>,
    k: int,
    pos: int,
)
    requires
        0 <= k < inp.len(),
        0 <= pos <= o.len(),
        stably_sorted_by(p, order, o, inp.take(k)),
        forall|i: int| 0 <= i < pos ==> task_order(order, inp[k], #[trigger] o[i]) >= 0,
        pos < o.len() ==> task_order(order, inp[k], o[pos]) < 0,
    ensures
        stably_sorted_by(p.insert(pos, k), order, o.insert(pos, inp[k]), inp.take(k + 1)),
{
    let x = inp[k];
    let p2 = p.insert(pos, k);
    let o2 = o.insert(pos, x);
    let inp2 = inp.take(k + 1);
    assert forall|i: int| 0 <= i < o2.len() implies #[trigger] o2[i] == inp2[p2[i]] by {
        if i < pos {
            assert(o2[i] == o[i]);
        } else if i > pos {
            assert(o2[i] == o[i - 1]);
        }
    }
    assert forall|i: int, j: int| 0 <= i < j < p2.len() implies #[trigger] p2[i] != #[trigger] p2[j] by {
        if i != pos && j != pos {
            let a = if i < pos { i } else { i - 1 };
            let b = if j < pos { j } else { j - 1 };
            assert(p[a] != p[b]);
        }
    }
    assert forall|x: int| 0 <= x < inp2.len() implies #[trigger] covers(p2, x) by {
        if x == k {
            assert(p2[pos] == k);
        } else {
            assert(covers(p, x));
            let i = choose|i: int| 0 <= i < p.len() && #[trigger] p[i] == x;
            if i < pos {
                assert(p2[i] == x);
            } else {
                assert(p2[i + 1] == x);
            }
        }
    }
    assert forall|i: int, j: int| 0 <= i < j < o2.len() implies task_order(
        order,
        #[trigger] o2[i],
        #[trigger] o2[j],
    ) < 0 || (task_order(order, o2[i], o2[j]) == 0 && p2[i] < p2[j]) by {
        if i == pos {
            let b = j - 1;
            assert(o2[j] == o[b]);
            lemma_task_order(order, x, o[pos], o[b]);
            if b > pos {
                assert(task_order(order, o[pos], o[b]) <= 0);
            }
        } else if j == pos {
            assert(o2[i] == o[i]);
            lemma_task_order(order, o[i], x, x);
            assert(p[i] < k);
        } else {
            let a = if i < pos { i } else { i - 1 };
            let b = if j < pos { j } else { j - 1 };
            assert(o2[i] == o[a] && o2[j] == o[b]);
            assert(p2[i] == p[a] && p2[j] == p[b]);
        }
    }
}

/// The stable sort of `inp` by `order` (there is exactly one).
pub open spec fn sorted_tasks(order: SortOrder, inp: Seq<Task>) -> Seq<Task> {
    choose|out: Seq<Task>| is_stable_sort(order, out, inp)
}

/// The strict order on positions of `inp` that a stable sort follows.
spec fn before(order: SortOrder, inp: Seq<Task>, x: int, y: int) -> bool {
    task_order(order, inp[x], inp[y]) < 0 || (task_order(order, inp[x], inp[y]) == 0 && x < y)
}

proof fn lemma_sorted_positions(order: SortOrder, p: Seq<int>, out: Seq<Task>, inp: Seq<Task>, i: int, j: int)
    requires
        stably_sorted_by(p, order, out, inp),
        0 <= i < j < p.len(),
    ensures
        before(order, inp, p[i], p[j]),
{
    assert(out[i] == inp[p[i]] && out[j] == inp[p[j]]);
}

/// Two stable sorts by the same order use the same positions in the same places.
proof fn lemma_stable_sort_positions(order: SortOrder, p: Seq<int>, a: Seq<Task>, q: Seq<int>, b: Seq<Task>, inp: Seq<Task>, k: int)
    requires
        stably_sorted_by(p, order, a, inp),
        stably_sorted_by(q, order, b, inp),
        0 <= k <= inp.len(),
    ensures
        forall|i: int| 0 <= i < k ==> p[i] == q[i],
    decreases k,
{
    if k > 0 {
        lemma_stable_sort_positions(order, p, a, q, b, inp, k - 1);
        let m = k - 1;
        let x = p[m];
        let y = q[m];
        if x != y {
            // y lies after position m in p, so p[m] comes before it
            assert(covers(p, y));
            let jy = choose|i: int| 0 <= i < p.len() && #[trigger] p[i] == y;
            if jy < m {
                assert(q[jy] == y);
                assert(q[jy] != q[m]);
            }
            assert(jy > m);
            lemma_sorted_positions(order, p, a, inp, m, jy);
            assert(covers(q, x));
            let jx = choose|i: int| 0 <= i < q.len() && #[trigger] q[i] == x;
            if jx < m {
                assert(p[jx] == x);
                assert(p[jx] != p[m]);
            }
            assert(jx > m);
            lemma_sorted_positions(order, q, b, inp, m, jx);
            lemma_task_order(order, inp[x], inp[y], inp[x]);
        }
    }
}

/// Stable sorting is deterministic: two stable sorts of the same tasks by
/// the same order are equal.
pub proof fn law_stable_sort_unique(order: SortOrder, a: Seq<Task>, b: Seq<Task>, inp: Seq<Task>)
    requires
        is_stable_sort(order, a, inp),
        is_stable_sort(order, b, inp),
    ensures
        a == b,
{
    let p = choose|p: Seq<int>| stably_sorted_by(p, order, a, inp);
    let q = choose|q: Seq<int>| stably_sorted_by(q, order, b, inp);
    lemma_stable_sort_positions(order, p, a, q, b, inp, inp.len() as int);
    assert forall|i: int| 0 <= i < a.len() implies a[i] == b[i] by {
        assert(a[i] == inp[p[i]]);
        assert(b[i] == inp[q[i]]);
    }
    assert(a =~= b);
}

/// A stable sort is the one [`sorted_tasks`] names.
pub proof fn lemma_is_sorted_tasks(order: SortOrder, out: Seq<Task>, inp: Seq<Task>)
    requires
        is_stable_sort(order, out, inp),
    ensures
        out == sorted_tasks(order, inp),
{
    let s = sorted_tasks(order, inp);
    assert(is_stable_sort(order, s, inp));
    law_stable_sort_unique(order, out, s, inp);
}

/// A stable sort puts the tasks in the order: no task comes after one it
/// precedes.
pub proof fn law_stable_sort_is_ordered(order: SortOrder, out: Seq<Task>, inp: Seq<Task>)
    requires
        is_stable_sort(order, out, inp),
    ensures
        out.len() == inp.len(),
        forall|i: int, j: int|
            0 <= i < j < out.len() ==> task_order(order, #[trigger] out[i], #[trigger] out[j]) <= 0,
{
}

/// What each filter lets through, in terms of the task and the clock
/// (instants in microseconds, a day of 86 400 seconds, the local day read
/// with the clock's offset): the status filters compare the status; "due
/// today" keeps a due date on the clock's local day; "due this week" keeps
/// a due date from now to seven days ahead, both ends included, so a task
/// due before now never passes it; "overdue" keeps an unfinished task due
/// before now; the project, tag and priority filters compare those.
pub proof fn law_filter_meaning(task: Task, clock: Clock)
    ensures
        filter_matches(Filter::All, task, clock),
        filter_matches(Filter::Pending, task, clock) <==> task.status == TaskStatus::Pending,
        filter_matches(Filter::InProgress, task, clock) <==> task.status == TaskStatus::InProgress,
        filter_matches(Filter::Completed, task, clock) <==> task.status == TaskStatus::Completed,
        filter_matches(Filter::Archived, task, clock) <==> task.status == TaskStatus::Archived,
        filter_matches(Filter::DueThisWeek, task, clock) <==> (task.due_date matches Some(d)
            && clock.now <= d <= clock.now + 604_800_000_000int),
        filter_matches(Filter::Overdue, task, clock) <==> (task.due_date matches Some(d) && d
            < clock.now && task.status != TaskStatus::Completed && task.status
            != TaskStatus::Archived),
        filter_matches(Filter::DueToday, task, clock) <==> (task.due_date matches Some(d) && (
        d as int / 1_000_000 + clock.offset) / 86_400 == (clock.now as int / 1_000_000
            + clock.offset) / 86_400),
        forall|p: Priority| filter_matches(Filter::ByPriority(p), task, clock) <==> task.priority == p,
        forall|id: String| filter_matches(Filter::ByProject(id), task, clock) <==> (
            task.project_id matches Some(q) && q@ == id@),
        forall|tag: String| filter_matches(Filter::ByTag(tag), task, clock) <==> (exists|i: int|
            0 <= i < task.tags@.len() && (#[trigger] task.tags@[i])@ == tag@),
{
}

/// A task due before now is never due this week.
pub proof fn law_past_due_not_this_week(task: Task, clock: Clock)
    requires
        task.due_date matches Some(d) && d < clock.now,
    ensures
        !filter_matches(Filter::DueThisWeek, task, clock),
{
}

} // verus!
