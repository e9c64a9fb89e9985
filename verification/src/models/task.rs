//! Tasks and their status.
use vstd::prelude::*;
use crate::models::priority::Priority;
use crate::text::string_from;
use crate::utils::datetime::{Clock, local_day, local_day_of, within_week, is_this_week_at, now};
use crate::utils::ids::{generate_id, uuid_v7_shaped};

verus! {

/// Task completion status.
#[derive(Debug, Clone, Copy, PartialEq, Eq, Structural)]
pub enum TaskStatus {
    /// Task has not been started (default)
    Pending,
    /// Task is currently being worked on
    InProgress,
    /// Task has been finished
    Completed,
    /// Task has been archived
    Archived,
}

impl Default for TaskStatus {
    fn default() -> (r: Self)
        ensures
            r == TaskStatus::Pending,
    {
        TaskStatus::Pending
    }
}

impl Default for Priority {
    fn default() -> (r: Self)
        ensures
            r == Priority::Medium,
    {
        Priority::Medium
    }
}

/// A task. Instants are microseconds since the Unix epoch.
#[derive(Debug, Clone)]
pub struct Task {
    /// Unique identifier (a UUID v7)
    pub id: String,
    /// Task title
    pub title: String,
    /// Optional longer description
    pub description: Option<String>,
    /// Optional due date
    pub due_date: Option<i64>,
    /// Task priority level
    pub priority: Priority,
    /// Current status
    pub status: TaskStatus,
    /// Identifier of the project that holds the task, if any
    pub project_id: Option<String>,
    /// Tag names of the task
    pub tags: Vec<String>,
    /// When the task was created
    pub created_at: i64,
    /// When the task was last modified
    pub updated_at: i64,
    /// When the task was completed, if it is
    pub completed_at: Option<i64>,
}

/// A task is overdue at instant `now` when it is neither completed nor
/// archived and its due date lies before `now`.
pub open spec fn overdue_at(t: Task, now: int) -> bool {
    t.status != TaskStatus::Completed && t.status != TaskStatus::Archived && match t.due_date {
        Some(due) => due < now,
        None => false,
    }
}

/// A task is due today when its due date falls on the clock's local day.
pub open spec fn due_today_at(t: Task, clock: Clock) -> bool {
    match t.due_date {
        Some(due) => local_day(due as int, clock.offset as int) == clock.today(),
        None => false,
    }
}

/// A task is due this week when its due date lies in the seven days from `now`.
pub open spec fn due_this_week_at(t: Task, now: int) -> bool {
    match t.due_date {
        Some(due) => within_week(due as int, now),
        None => false,
    }
}

impl Task {
    /// A fresh task with the given identifier and creation instant: pending,
    /// medium priority, no description, due date, project or tags.
    pub open spec fn is_fresh(&self, title: Seq<char>, at: int) -> bool {
        &&& self.title@ == title
        &&& self.description is None
        &&& self.due_date is None
        &&& self.priority == Priority::Medium
        &&& self.status == TaskStatus::Pending
        &&& self.project_id is None
        &&& self.tags@.len() == 0
        &&& self.created_at == at
        &&& self.updated_at == at
        &&& self.completed_at is None
    }

    /// Creates a task with the given identifier and creation instant.
    pub fn new_at(title: &str, id: String, at: i64) -> (r: Self)
        ensures
            r.is_fresh(title@, at as int),
            r.id == id,
    {
        Task {
            id,
            title: string_from(title),
            description: None,
            due_date: None,
            priority: Priority::default(),
            status: TaskStatus::default(),
            project_id: None,
            tags: Vec::new(),
            created_at: at,
            updated_at: at,
            completed_at: None,
        }
    }

    /// Creates a new task with a fresh identifier, created now.
    pub fn new(title: &str) -> (r: Self)
        ensures
            r.is_fresh(title@, r.created_at as int),
            uuid_v7_shaped(r.id@),
    {
        let id = generate_id();
        let at = now();
        Task::new_at(title, id, at)
    }

    /// Whether the task is overdue at instant `now`.
    pub fn is_overdue_at(&self, now: i64) -> (r: bool)
        ensures
            r == overdue_at(*self, now as int),
    {
        if self.status == TaskStatus::Completed || self.status == TaskStatus::Archived {
            return false;
        }
        match self.due_date {
            Some(due) => due < now,
            None => false,
        }
    }

    /// Whether the task is overdue now. A completed or archived task, or one
    /// without due date, never is.
    pub fn is_overdue(&self) -> (r: bool)
        ensures
            exists|t: i64| r == overdue_at(*self, t as int),
    {
        self.is_overdue_at(now())
    }

    /// Whether the task is due on the clock's local day.
    pub fn is_due_today_at(&self, clock: Clock) -> (r: bool)
        requires
            clock.wf(),
        ensures
            r == due_today_at(*self, clock),
    {
        match self.due_date {
            Some(due) => local_day_of(due, clock.offset) == local_day_of(clock.now, clock.offset),
            None => false,
        }
    }

    /// Whether the task is due today. A task without due date never is.
    pub fn is_due_today(&self) -> (r: bool)
        ensures
            exists|c: Clock| c.wf() && r == due_today_at(*self, c),
    {
        self.is_due_today_at(Clock::read())
    }

    /// Whether the task is due in the seven days from `now`.
    pub fn is_due_this_week_at(&self, now: i64) -> (r: bool)
        ensures
            r == due_this_week_at(*self, now as int),
    {
        match self.due_date {
            Some(due) => is_this_week_at(due, now),
            None => false,
        }
    }

    /// Whether the task is due within the next seven days. A task without
    /// due date never is.
    pub fn is_due_this_week(&self) -> (r: bool)
        ensures
            exists|t: i64| r == due_this_week_at(*self, t as int),
    {
        self.is_due_this_week_at(now())
    }

    /// Marks the task completed at instant `at`.
    pub fn complete_at(&mut self, at: i64)
        ensures
            *final(self) == completed(*old(self), at),
    {
        self.status = TaskStatus::Completed;
        self.completed_at = Some(at);
        self.updated_at = at;
    }

    /// Marks the task completed now.
    pub fn complete(&mut self)
        ensures
            *final(self) == completed(*old(self), final(self).updated_at),
    {
        let at = now();
        self.complete_at(at);
    }

    /// Reopens the task at instant `at`: pending again, no completion instant.
    pub fn reopen_at(&mut self, at: i64)
        ensures
            *final(self) == reopened(*old(self), at),
    {
        self.status = TaskStatus::Pending;
        self.completed_at = None;
        self.updated_at = at;
    }

    /// Reopens the task now.
    pub fn reopen(&mut self)
        ensures
            *final(self) == reopened(*old(self), final(self).updated_at),
    {
        let at = now();
        self.reopen_at(at);
    }
}

/// The task marked completed at instant `at`.
pub open spec fn completed(t: Task, at: i64) -> Task {
    Task { status: TaskStatus::Completed, completed_at: Some(at), updated_at: at, ..t }
}

/// The task reopened at instant `at`.
pub open spec fn reopened(t: Task, at: i64) -> Task {
    Task { status: TaskStatus::Pending, completed_at: None, updated_at: at, ..t }
}

/// Two tasks hold the same values.
pub open spec fn same_task(a: Task, b: Task) -> bool {
    &&& a.id == b.id
    &&& a.title == b.title
    &&& a.description == b.description
    &&& a.due_date == b.due_date
    &&& a.priority == b.priority
    &&& a.status == b.status
    &&& a.project_id == b.project_id
    &&& a.tags@ == b.tags@
    &&& a.created_at == b.created_at
    &&& a.updated_at == b.updated_at
    &&& a.completed_at == b.completed_at
}

/// References to each of `tasks`, in their order.
pub fn refs_of(tasks: &[Task]) -> (r: Vec<&Task>)
    ensures
        r@.map_values(|t: &Task| *t) == tasks@,
{
    let mut r: Vec<&Task> = Vec::new();
    let mut i: usize = 0;
    while i < tasks.len()
        invariant
            i <= tasks@.len(),
            r@.map_values(|t: &Task| *t) == tasks@.take(i as int),
        decreases tasks@.len() - i,
    {
        r.push(&tasks[i]);
        assert(tasks@.take(i + 1) =~= tasks@.take(i as int).push(tasks@[i as int]));
        assert(r@.map_values(|t: &Task| *t) =~= tasks@.take(i + 1));
        i = i + 1;
    }
    assert(tasks@.take(tasks@.len() as int) =~= tasks@);
    r
}

/// A copy of some strings.
pub fn copy_strings(v: &Vec<String>) -> (r: Vec<String>)
    ensures
        r@ == v@,
{
    let r = v.clone();
    assert(r@ =~= v@);
    r
}

impl Task {
    /// A copy of the task.
    pub fn copy(&self) -> (r: Task)
        ensures
            same_task(r, *self),
    {
        Task {
            id: self.id.clone(),
            title: self.title.clone(),
            description: self.description.clone(),
            due_date: self.due_date,
            priority: self.priority,
            status: self.status,
            project_id: self.project_id.clone(),
            tags: copy_strings(&self.tags),
            created_at: self.created_at,
            updated_at: self.updated_at,
            completed_at: self.completed_at,
        }
    }
}

impl Default for Task {
    fn default() -> (r: Self)
        ensures
            r.is_fresh("Untitled Task"@, r.created_at as int),
    {
        Task::new("Untitled Task")
    }
}

/// Completing a pending task and then reopening it gives back the task
/// as it was, but for its modification instant.
pub proof fn law_complete_then_reopen(t: Task, at1: i64, at2: i64)
    requires
        t.status == TaskStatus::Pending,
        t.completed_at is None,
    ensures
        reopened(completed(t, at1), at2) == (Task { updated_at: at2, ..t }),
{
}

} // verus!
