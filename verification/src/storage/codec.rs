//! How tasks are written to and read from the database: the text stored for
//! priorities and statuses, and the SQL clauses that select and order tasks.
use vstd::prelude::*;
use crate::models::filter::{Filter, SortOrder, filter_matches, has_tag, task_has_tag};
use crate::models::priority::Priority;
use crate::models::task::{Task, TaskStatus};
use crate::models::project::Project;
use crate::text::{ascii_lower, chars_of, eq_ascii_ci, eq_ignore_ascii_case, string_from};
use crate::utils::datetime::Clock;

verus! {

/// The text stored for a priority.
pub open spec fn priority_text(p: Priority) -> Seq<char> {
    match p {
        Priority::Low => "low"@,
        Priority::Medium => "medium"@,
        Priority::High => "high"@,
        Priority::Urgent => "urgent"@,
    }
}

/// The priority read back from stored text: the names match regardless of
/// case, and anything else reads as `Medium`.
pub open spec fn priority_of_text(s: Seq<char>) -> Priority {
    if eq_ascii_ci(s, "low"@) {
        Priority::Low
    } else if eq_ascii_ci(s, "high"@) {
        Priority::High
    } else if eq_ascii_ci(s, "urgent"@) {
        Priority::Urgent
    } else {
        Priority::Medium
    }
}

/// The text stored for a status.
pub open spec fn status_text(s: TaskStatus) -> Seq<char> {
    match s {
        TaskStatus::Pending => "pending"@,
        TaskStatus::InProgress => "in_progress"@,
        TaskStatus::Completed => "completed"@,
        TaskStatus::Archived => "archived"@,
    }
}

/// The status read back from stored text: the names match regardless of
/// case, and anything else reads as `Pending`.
pub open spec fn status_of_text(s: Seq<char>) -> TaskStatus {
    if eq_ascii_ci(s, "in_progress"@) {
        TaskStatus::InProgress
    } else if eq_ascii_ci(s, "completed"@) {
        TaskStatus::Completed
    } else if eq_ascii_ci(s, "archived"@) {
        TaskStatus::Archived
    } else {
        TaskStatus::Pending
    }
}

/// The text stored for a priority.
pub fn priority_to_str(priority: Priority) -> (r: &'static str)
    ensures
        r@ == priority_text(priority),
{
    match priority {
        Priority::Low => "low",
        Priority::Medium => "medium",
        Priority::High => "high",
        Priority::Urgent => "urgent",
    }
}

/// Whether `s` equals the literal `lit` up to ASCII case.
fn text_is(s: &Vec<char>, lit: &str) -> (r: bool)
    ensures
        r == eq_ascii_ci(s@, lit@),
{
    let l = chars_of(lit);
    eq_ignore_ascii_case(s, &l)
}

/// Reads a stored priority; unknown text reads as `Medium`.
pub fn str_to_priority(s: &str) -> (r: Priority)
    ensures
        r == priority_of_text(s@),
{
    let c = chars_of(s);
    if text_is(&c, "low") {
        Priority::Low
    } else if text_is(&c, "high") {
        Priority::High
    } else if text_is(&c, "urgent") {
        Priority::Urgent
    } else {
        Priority::Medium
    }
}

/// The text stored for a status.
pub fn status_to_str(status: TaskStatus) -> (r: &'static str)
    ensures
        r@ == status_text(status),
{
    match status {
        TaskStatus::Pending => "pending",
        TaskStatus::InProgress => "in_progress",
        TaskStatus::Completed => "completed",
        TaskStatus::Archived => "archived",
    }
}

/// Reads a stored status; unknown text reads as `Pending`.
pub fn str_to_status(s: &str) -> (r: TaskStatus)
    ensures
        r == status_of_text(s@),
{
    let c = chars_of(s);
    if text_is(&c, "in_progress") {
        TaskStatus::InProgress
    } else if text_is(&c, "completed") {
        TaskStatus::Completed
    } else if text_is(&c, "archived") {
        TaskStatus::Archived
    } else {
        TaskStatus::Pending
    }
}

/// A priority written and read back is the same priority.
pub proof fn law_priority_round_trip(p: Priority)
    ensures
        priority_of_text(priority_text(p)) == p,
{
    reveal_strlit("low");
    reveal_strlit("medium");
    reveal_strlit("high");
    reveal_strlit("urgent");
    if p != Priority::Low {
        assert(!eq_ascii_ci(priority_text(p), "low"@));
    }
    if p != Priority::High {
        assert(!eq_ascii_ci(priority_text(p), "high"@));
    }
    if p != Priority::Urgent {
        if p == Priority::Medium {
            assert(priority_text(p)[0] == 'm' && "urgent"@[0] == 'u');
            assert(ascii_lower(priority_text(p)[0]) != ascii_lower("urgent"@[0]));
        }
        assert(!eq_ascii_ci(priority_text(p), "urgent"@));
    }
    assert(eq_ascii_ci(priority_text(p), priority_text(p)));
}

/// A status written and read back is the same status.
pub proof fn law_status_round_trip(s: TaskStatus)
    ensures
        status_of_text(status_text(s)) == s,
{
    reveal_strlit("pending");
    reveal_strlit("in_progress");
    reveal_strlit("completed");
    reveal_strlit("archived");
    if s != TaskStatus::InProgress {
        assert(!eq_ascii_ci(status_text(s), "in_progress"@));
    }
    if s != TaskStatus::Completed {
        assert(!eq_ascii_ci(status_text(s), "completed"@));
    }
    if s != TaskStatus::Archived {
        assert(!eq_ascii_ci(status_text(s), "archived"@));
    }
    assert(eq_ascii_ci(status_text(s), status_text(s)));
}

/// Case-insensitive equality carries over: a text equal to `b` ignoring
/// case is equal to `c` ignoring case exactly when `b` is.
proof fn lemma_ci_transfer(a: Seq<char>, b: Seq<char>, c: Seq<char>)
    requires
        eq_ascii_ci(a, b),
    ensures
        eq_ascii_ci(a, c) == eq_ascii_ci(b, c),
{
    if eq_ascii_ci(b, c) {
        assert forall|i: int| 0 <= i < a.len() implies ascii_lower(#[trigger] a[i]) == ascii_lower(c[i]) by {
            assert(ascii_lower(a[i]) == ascii_lower(b[i]));
            assert(ascii_lower(b[i]) == ascii_lower(c[i]));
        }
    }
    if eq_ascii_ci(a, c) {
        assert forall|i: int| 0 <= i < b.len() implies ascii_lower(#[trigger] b[i]) == ascii_lower(c[i]) by {
            assert(ascii_lower(a[i]) == ascii_lower(b[i]));
            assert(ascii_lower(a[i]) == ascii_lower(c[i]));
        }
    }
}

/// A priority written, then changed in letter case in any way, reads back as
/// the same priority; and different priorities are written differently.
pub proof fn law_priority_read_ignores_case(p: Priority, q: Priority, s: Seq<char>)
    requires
        eq_ascii_ci(s, priority_text(p)),
    ensures
        priority_of_text(s) == p,
        priority_text(p) == priority_text(q) ==> p == q,
{
    law_priority_round_trip(p);
    law_priority_round_trip(q);
    lemma_ci_transfer(s, priority_text(p), "low"@);
    lemma_ci_transfer(s, priority_text(p), "high"@);
    lemma_ci_transfer(s, priority_text(p), "urgent"@);
}

/// A status written, then changed in letter case in any way, reads back as
/// the same status; and different statuses are written differently.
pub proof fn law_status_read_ignores_case(t: TaskStatus, u: TaskStatus, s: Seq<char>)
    requires
        eq_ascii_ci(s, status_text(t)),
    ensures
        status_of_text(s) == t,
        status_text(t) == status_text(u) ==> t == u,
{
    law_status_round_trip(t);
    law_status_round_trip(u);
    lemma_ci_transfer(s, status_text(t), "in_progress"@);
    lemma_ci_transfer(s, status_text(t), "completed"@);
    lemma_ci_transfer(s, status_text(t), "archived"@);
}

/// The text of the `ORDER BY` clause for each sort order.
pub open spec fn order_clause(sort: SortOrder) -> Seq<char> {
    match sort {
        SortOrder::DueDateAsc => "ORDER BY due_date ASC NULLS LAST"@,
        SortOrder::DueDateDesc => "ORDER BY due_date DESC NULLS FIRST"@,
        SortOrder::PriorityDesc => "ORDER BY CASE priority
            WHEN 'urgent' THEN 0
            WHEN 'high' THEN 1
            WHEN 'medium' THEN 2
            WHEN 'low' THEN 3
            END ASC"@,
        SortOrder::PriorityAsc => "ORDER BY CASE priority
            WHEN 'low' THEN 0
            WHEN 'medium' THEN 1
            WHEN 'high' THEN 2
            WHEN 'urgent' THEN 3
            END ASC"@,
        SortOrder::CreatedDesc => "ORDER BY created_at DESC"@,
        SortOrder::CreatedAsc => "ORDER BY created_at ASC"@,
        SortOrder::Alphabetical => "ORDER BY title ASC"@,
    }
}

/// Builds an `ORDER BY` clause for the given sort order.
pub fn build_order_clause(sort: &SortOrder) -> (r: &'static str)
    ensures
        r@ == order_clause(*sort),
{
    match sort {
        SortOrder::DueDateAsc => "ORDER BY due_date ASC NULLS LAST",
        SortOrder::DueDateDesc => "ORDER BY due_date DESC NULLS FIRST",
        SortOrder::PriorityDesc => "ORDER BY CASE priority
            WHEN 'urgent' THEN 0
            WHEN 'high' THEN 1
            WHEN 'medium' THEN 2
            WHEN 'low' THEN 3
            END ASC",
        SortOrder::PriorityAsc => "ORDER BY CASE priority
            WHEN 'low' THEN 0
            WHEN 'medium' THEN 1
            WHEN 'high' THEN 2
            WHEN 'urgent' THEN 3
            END ASC",
        SortOrder::CreatedDesc => "ORDER BY created_at DESC",
        SortOrder::CreatedAsc => "ORDER BY created_at ASC",
        SortOrder::Alphabetical => "ORDER BY title ASC",
    }
}

/// A value bound to a parameter of an SQL statement.
#[derive(Debug, Clone)]
pub enum SqlParam {
    Text(String),
}

/// The `WHERE` clause selecting the tasks a filter may keep, and its
/// parameter; filters on dates and tags are finished in memory.
pub open spec fn filter_clause(filter: Filter) -> (Seq<char>, Option<Seq<char>>) {
    match filter {
        Filter::All => (Seq::empty(), None),
        Filter::Pending => ("WHERE status = 'pending'"@, None),
        Filter::InProgress => ("WHERE status = 'in_progress'"@, None),
        Filter::Completed => ("WHERE status = 'completed'"@, None),
        Filter::Archived => ("WHERE status = 'archived'"@, None),
        Filter::ByProject(p) => ("WHERE project_id = ?1"@, Some(p@)),
        Filter::ByPriority(p) => ("WHERE priority = ?1"@, Some(priority_text(p))),
        Filter::DueToday | Filter::DueThisWeek | Filter::Overdue => (
            "WHERE due_date IS NOT NULL AND status NOT IN ('completed', 'archived')"@,
            None,
        ),
        Filter::ByTag(_) => (Seq::empty(), None),
    }
}

/// The texts of some SQL parameters.
pub open spec fn param_texts(ps: Seq<SqlParam>) -> Seq<Seq<char>> {
    ps.map_values(|p: SqlParam| match p {
        SqlParam::Text(t) => t@,
    })
}

/// Builds a `WHERE` clause and its parameters for the given filter.
pub fn build_filter_clause(filter: &Filter) -> (r: (String, Vec<SqlParam>))
    ensures
        r.0@ == filter_clause(*filter).0,
        param_texts(r.1@) == match filter_clause(*filter).1 {
            Some(t) => seq![t],
            None => Seq::<Seq<char>>::empty(),
        },
{
    let mut params: Vec<SqlParam> = Vec::new();
    let clause = match filter {
        Filter::All => String::new(),
        Filter::Pending => string_from("WHERE status = 'pending'"),
        Filter::InProgress => string_from("WHERE status = 'in_progress'"),
        Filter::Completed => string_from("WHERE status = 'completed'"),
        Filter::Archived => string_from("WHERE status = 'archived'"),
        Filter::ByProject(project_id) => {
            params.push(SqlParam::Text(project_id.clone()));
            string_from("WHERE project_id = ?1")
        },
        Filter::ByPriority(priority) => {
            params.push(SqlParam::Text(string_from(priority_to_str(*priority))));
            string_from("WHERE priority = ?1")
        },
        Filter::DueToday | Filter::DueThisWeek | Filter::Overdue => string_from(
            "WHERE due_date IS NOT NULL AND status NOT IN ('completed', 'archived')",
        ),
        Filter::ByTag(_) => String::new(),
    };
    assert(param_texts(params@) =~= match filter_clause(*filter).1 {
        Some(t) => seq![t],
        None => Seq::<Seq<char>>::empty(),
    });
    (clause, params)
}

/// Whether a task loaded by the clause of `filter` is kept in memory: date
/// filters are applied at the time of `clock`, tag filters on the loaded tags.
pub open spec fn kept_after_query(filter: Filter, t: Task, clock: Clock) -> bool {
    match filter {
        Filter::DueToday | Filter::DueThisWeek | Filter::Overdue => filter_matches(filter, t, clock),
        Filter::ByTag(tag) => has_tag(t, tag@),
        _ => true,
    }
}

/// Finishes a query in memory: keeps the loaded tasks that the parts of
/// `filter` which SQL does not check let through, in their order.
pub fn refine_query_results(filter: &Filter, tasks: Vec<Task>, clock: Clock) -> (r: Vec<Task>)
    requires
        clock.wf(),
    ensures
        r@ == tasks@.filter(|t: Task| kept_after_query(*filter, t, clock)),
{
    let ghost pred = |t: Task| kept_after_query(*filter, t, clock);
    let ghost all = tasks@;
    let n = tasks.len();
    let mut rest = tasks;
    let mut kept: Vec<Task> = Vec::new();
    let mut i: usize = 0;
    while rest.len() > 0
        invariant
            i + rest@.len() == all.len(),
            all.len() == n,
            rest@ == all.skip(i as int),
            clock.wf(),
            pred == (|t: Task| kept_after_query(*filter, t, clock)),
            kept@ == all.take(i as int).filter(pred),
        decreases rest@.len(),
    {
        let t = rest.remove(0);
        proof {
            assert(t == all[i as int]);
            assert(all.take(i + 1) =~= all.take(i as int).push(all[i as int]));
            all.take(i as int).lemma_filter_push(all[i as int], pred);
            assert(rest@ =~= all.skip(i + 1));
        }
        let keep = match filter {
            Filter::DueToday | Filter::DueThisWeek | Filter::Overdue => filter.matches_at(&t, clock),
            Filter::ByTag(tag) => task_has_tag(&t, tag),
            _ => true,
        };
        if keep {
            kept.push(t);
        }
        i = i + 1;
    }
    assert(all.take(all.len() as int) =~= all);
    kept
}


/// The instant, in microseconds since the Unix epoch, that chrono's
/// `DateTime::parse_from_rfc3339` reads from `text`, or `None` where it
/// reads none.
pub uninterp spec fn rfc3339_instant(text: Seq<char>) -> Option<int>;

/// The RFC 3339 text chrono's `DateTime::<Utc>::to_rfc3339` writes for
/// instant `t` (microseconds since the Unix epoch), or `None` where
/// `DateTime::from_timestamp_micros` finds the instant out of range.
pub uninterp spec fn rfc3339_text(t: int) -> Option<Seq<char>>;

/// Reads an RFC 3339 timestamp with chrono's `DateTime::parse_from_rfc3339`
/// and takes its `timestamp_micros`; the instant is the one
/// [`rfc3339_instant`] names.
#[verifier::external_body]
fn parse_rfc3339(text: &str) -> (r: Option<i64>)
    ensures
        match r {
            Some(t) => rfc3339_instant(text@) == Some(t as int),
            None => rfc3339_instant(text@) is None,
        },
{
    match chrono::DateTime::parse_from_rfc3339(text) {
        Ok(d) => Some(d.timestamp_micros()),
        Err(_) => None,
    }
}

/// Writes instant `t` with chrono's `DateTime::from_timestamp_micros` and
/// `to_rfc3339`; the text is the one [`rfc3339_text`] names.
#[verifier::external_body]
fn write_rfc3339(t: i64) -> (r: Option<String>)
    ensures
        match r {
            Some(s) => rfc3339_text(t as int) == Some(s@),
            None => rfc3339_text(t as int) is None,
        },
{
    match chrono::DateTime::from_timestamp_micros(t) {
        Some(d) => Some(d.to_rfc3339()),
        None => None,
    }
}

/// An optional stored instant read back: `None` stays `None`, and a text
/// that reads gives its instant.
pub open spec fn opt_instant(text: Option<Seq<char>>) -> Option<Option<int>> {
    match text {
        None => Some(None),
        Some(t) => match rfc3339_instant(t) {
            Some(i) => Some(Some(i)),
            None => None,
        },
    }
}

/// The view of an optional string.
pub open spec fn opt_chars(o: Option<String>) -> Option<Seq<char>> {
    match o {
        Some(s) => Some(s@),
        None => None,
    }
}

/// The instant of an optional integer.
pub open spec fn opt_int(o: Option<i64>) -> Option<int> {
    match o {
        Some(i) => Some(i as int),
        None => None,
    }
}

/// A task as its database row holds it: text columns, with instants as
/// RFC 3339 text.
#[derive(Debug, Clone)]
pub struct StoredTask {
    pub id: String,
    pub title: String,
    pub description: Option<String>,
    pub due_date: Option<String>,
    pub priority: String,
    pub status: String,
    pub project_id: Option<String>,
    pub created_at: String,
    pub updated_at: String,
    pub completed_at: Option<String>,
}

/// Reads an optional stored instant (executable [`opt_instant`]).
fn read_opt_instant(text: &Option<String>) -> (r: Option<Option<i64>>)
    ensures
        match r {
            Some(o) => opt_instant(opt_chars(*text)) == Some(opt_int(o)),
            None => opt_instant(opt_chars(*text)) is None,
        },
{
    match text {
        None => Some(None),
        Some(t) => match parse_rfc3339(t.as_str()) {
            Some(i) => Some(Some(i)),
            None => None,
        },
    }
}

/// Writes an optional instant (executable, see [`rfc3339_text`]).
fn write_opt_instant(t: Option<i64>) -> (r: Option<Option<String>>)
    ensures
        match t {
            None => r == Some(None::<String>),
            Some(i) => match r {
                Some(Some(s)) => rfc3339_text(i as int) == Some(s@),
                Some(None) => false,
                None => rfc3339_text(i as int) is None,
            },
        },
{
    match t {
        None => Some(None),
        Some(i) => match write_rfc3339(i) {
            Some(s) => Some(Some(s)),
            None => None,
        },
    }
}

/// Reads a task from its row, without tags (they are stored apart). Gives
/// `None` when one of its instants is no RFC 3339 timestamp.
pub fn task_from_row(row: StoredTask) -> (r: Option<Task>)
    ensures
        match r {
            Some(t) => {
                &&& rfc3339_instant(row.created_at@) == Some(t.created_at as int)
                &&& rfc3339_instant(row.updated_at@) == Some(t.updated_at as int)
                &&& opt_instant(opt_chars(row.due_date)) == Some(opt_int(t.due_date))
                &&& opt_instant(opt_chars(row.completed_at)) == Some(opt_int(t.completed_at))
                &&& t.id == row.id
                &&& t.title == row.title
                &&& t.description == row.description
                &&& t.project_id == row.project_id
                &&& t.priority == priority_of_text(row.priority@)
                &&& t.status == status_of_text(row.status@)
                &&& t.tags@.len() == 0
            },
            None => {
                ||| rfc3339_instant(row.created_at@) is None
                ||| rfc3339_instant(row.updated_at@) is None
                ||| opt_instant(opt_chars(row.due_date)) is None
                ||| opt_instant(opt_chars(row.completed_at)) is None
            },
        },
{
    let created_at = match parse_rfc3339(row.created_at.as_str()) {
        Some(t) => t,
        None => return None,
    };
    let updated_at = match parse_rfc3339(row.updated_at.as_str()) {
        Some(t) => t,
        None => return None,
    };
    let due_date = match read_opt_instant(&row.due_date) {
        Some(o) => o,
        None => return None,
    };
    let completed_at = match read_opt_instant(&row.completed_at) {
        Some(o) => o,
        None => return None,
    };
    let priority = str_to_priority(row.priority.as_str());
    let status = str_to_status(row.status.as_str());
    Some(Task {
        id: row.id,
        title: row.title,
        description: row.description,
        due_date,
        priority,
        status,
        project_id: row.project_id,
        tags: Vec::new(),
        created_at,
        updated_at,
        completed_at,
    })
}

/// The row that stores task `t` (tags apart). Gives `None` when one of its
/// instants lies outside chrono's range.
pub fn row_of_task(t: &Task) -> (r: Option<StoredTask>)
    ensures
        match r {
            Some(row) => {
                &&& rfc3339_text(t.created_at as int) == Some(row.created_at@)
                &&& rfc3339_text(t.updated_at as int) == Some(row.updated_at@)
                &&& match t.due_date {
                    Some(d) => rfc3339_text(d as int) == opt_chars(row.due_date),
                    None => row.due_date is None,
                }
                &&& match t.completed_at {
                    Some(d) => rfc3339_text(d as int) == opt_chars(row.completed_at),
                    None => row.completed_at is None,
                }
                &&& row.id@ == t.id@
                &&& row.title@ == t.title@
                &&& opt_chars(row.description) == opt_chars(t.description)
                &&& opt_chars(row.project_id) == opt_chars(t.project_id)
                &&& row.priority@ == priority_text(t.priority)
                &&& row.status@ == status_text(t.status)
            },
            None => {
                ||| rfc3339_text(t.created_at as int) is None
                ||| rfc3339_text(t.updated_at as int) is None
                ||| (t.due_date matches Some(d) && rfc3339_text(d as int) is None)
                ||| (t.completed_at matches Some(d) && rfc3339_text(d as int) is None)
            },
        },
{
    let created_at = match write_rfc3339(t.created_at) {
        Some(s) => s,
        None => return None,
    };
    let updated_at = match write_rfc3339(t.updated_at) {
        Some(s) => s,
        None => return None,
    };
    let due_date = match write_opt_instant(t.due_date) {
        Some(o) => o,
        None => return None,
    };
    let completed_at = match write_opt_instant(t.completed_at) {
        Some(o) => o,
        None => return None,
    };
    Some(StoredTask {
        id: string_from(t.id.as_str()),
        title: string_from(t.title.as_str()),
        description: match &t.description {
            Some(d) => Some(string_from(d.as_str())),
            None => None,
        },
        due_date,
        priority: string_from(priority_to_str(t.priority)),
        status: string_from(status_to_str(t.status)),
        project_id: match &t.project_id {
            Some(p) => Some(string_from(p.as_str())),
            None => None,
        },
        created_at,
        updated_at,
        completed_at,
    })
}

/// Reads a project from its row. Gives `None` when its creation instant is
/// no RFC 3339 timestamp.
pub fn project_from_row(id: String, name: String, color: String, icon: String, created_at: &str) -> (r: Option<Project>)
    ensures
        match r {
            Some(p) => rfc3339_instant(created_at@) == Some(p.created_at as int) && p.id == id
                && p.name == name && p.color == color && p.icon == icon,
            None => rfc3339_instant(created_at@) is None,
        },
{
    match parse_rfc3339(created_at) {
        Some(t) => Some(Project { id, name, color, icon, created_at: t }),
        None => None,
    }
}

/// The text stored for a project's creation instant, or `None` when it lies
/// outside chrono's range.
pub fn project_created_text(p: &Project) -> (r: Option<String>)
    ensures
        match r {
            Some(s) => rfc3339_text(p.created_at as int) == Some(s@),
            None => rfc3339_text(p.created_at as int) is None,
        },
{
    write_rfc3339(p.created_at)
}

} // verus!
