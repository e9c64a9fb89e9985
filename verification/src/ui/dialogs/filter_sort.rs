//! The dialog that picks the task filter and the sort order.
use vstd::prelude::*;
use crate::keys::{KeyCode, KeyEvent};
use crate::models::filter::{Filter, SortOrder, filter_matches};
use crate::models::priority::Priority;
use crate::models::task::{Task, refs_of};
use crate::utils::datetime::Clock;
use crate::ui::dialogs::DialogAction;

verus! {

/// Which list of the dialog has the focus.
#[derive(Debug, Clone, Copy, PartialEq, Eq, Structural)]
pub enum FilterSortSection {
    Filter,
    Sort,
}

impl Default for FilterSortSection {
    fn default() -> (r: Self)
        ensures
            r == FilterSortSection::Filter,
    {
        FilterSortSection::Filter
    }
}

/// Number of filters offered.
pub const FILTER_COUNT: usize = 10;

/// Number of sort orders offered.
pub const SORT_COUNT: usize = 4;

/// The filter offered at position `i`.
pub open spec fn filter_choice(i: int) -> Filter {
    if i == 0 {
        Filter::All
    } else if i == 1 {
        Filter::Pending
    } else if i == 2 {
        Filter::Completed
    } else if i == 3 {
        Filter::DueToday
    } else if i == 4 {
        Filter::DueThisWeek
    } else if i == 5 {
        Filter::Overdue
    } else if i == 6 {
        Filter::ByPriority(Priority::Urgent)
    } else if i == 7 {
        Filter::ByPriority(Priority::High)
    } else if i == 8 {
        Filter::ByPriority(Priority::Medium)
    } else {
        Filter::ByPriority(Priority::Low)
    }
}

/// The sort order offered at position `i`.
pub open spec fn sort_choice(i: int) -> SortOrder {
    if i == 0 {
        SortOrder::DueDateAsc
    } else if i == 1 {
        SortOrder::PriorityDesc
    } else if i == 2 {
        SortOrder::CreatedDesc
    } else {
        SortOrder::Alphabetical
    }
}

/// The filter offered at position `i` (executable).
pub fn filter_option(i: usize) -> (r: Filter)
    ensures
        r == filter_choice(i as int),
{
    if i == 0 {
        Filter::All
    } else if i == 1 {
        Filter::Pending
    } else if i == 2 {
        Filter::Completed
    } else if i == 3 {
        Filter::DueToday
    } else if i == 4 {
        Filter::DueThisWeek
    } else if i == 5 {
        Filter::Overdue
    } else if i == 6 {
        Filter::ByPriority(Priority::Urgent)
    } else if i == 7 {
        Filter::ByPriority(Priority::High)
    } else if i == 8 {
        Filter::ByPriority(Priority::Medium)
    } else {
        Filter::ByPriority(Priority::Low)
    }
}

/// The sort order offered at position `i` (executable).
pub fn sort_option(i: usize) -> (r: SortOrder)
    ensures
        r == sort_choice(i as int),
{
    if i == 0 {
        SortOrder::DueDateAsc
    } else if i == 1 {
        SortOrder::PriorityDesc
    } else if i == 2 {
        SortOrder::CreatedDesc
    } else {
        SortOrder::Alphabetical
    }
}

/// The name and description of the filter at position `i`; past the last, the last.
pub open spec fn filter_label_text(i: int) -> (Seq<char>, Seq<char>) {
    if i == 0 {
        ("All"@, "Show all tasks"@)
    } else if i == 1 {
        ("Pending"@, "Tasks not yet completed"@)
    } else if i == 2 {
        ("Completed"@, "Finished tasks"@)
    } else if i == 3 {
        ("Due Today"@, "Tasks due today"@)
    } else if i == 4 {
        ("Due This Week"@, "Tasks due within 7 days"@)
    } else if i == 5 {
        ("Overdue"@, "Past due tasks"@)
    } else if i == 6 {
        ("Urgent"@, "Urgent priority only"@)
    } else if i == 7 {
        ("High"@, "High priority only"@)
    } else if i == 8 {
        ("Medium"@, "Medium priority only"@)
    } else {
        ("Low"@, "Low priority only"@)
    }
}

/// The name and description shown for the filter at position `i`.
pub fn filter_label(i: usize) -> (r: (&'static str, &'static str))
    ensures
        (r.0@, r.1@) == filter_label_text(i as int),
{
    if i == 0 {
        ("All", "Show all tasks")
    } else if i == 1 {
        ("Pending", "Tasks not yet completed")
    } else if i == 2 {
        ("Completed", "Finished tasks")
    } else if i == 3 {
        ("Due Today", "Tasks due today")
    } else if i == 4 {
        ("Due This Week", "Tasks due within 7 days")
    } else if i == 5 {
        ("Overdue", "Past due tasks")
    } else if i == 6 {
        ("Urgent", "Urgent priority only")
    } else if i == 7 {
        ("High", "High priority only")
    } else if i == 8 {
        ("Medium", "Medium priority only")
    } else {
        ("Low", "Low priority only")
    }
}

/// The name and description of the sort order at position `i`; past the last, the last.
pub open spec fn sort_label_text(i: int) -> (Seq<char>, Seq<char>) {
    if i == 0 {
        ("Due Date"@, "Earliest due first"@)
    } else if i == 1 {
        ("Priority"@, "Highest priority first"@)
    } else if i == 2 {
        ("Created"@, "Newest first"@)
    } else {
        ("Alphabetical"@, "A-Z by title"@)
    }
}

/// The name and description shown for the sort order at position `i`.
pub fn sort_label(i: usize) -> (r: (&'static str, &'static str))
    ensures
        (r.0@, r.1@) == sort_label_text(i as int),
{
    if i == 0 {
        ("Due Date", "Earliest due first")
    } else if i == 1 {
        ("Priority", "Highest priority first")
    } else if i == 2 {
        ("Created", "Newest first")
    } else {
        ("Alphabetical", "A-Z by title")
    }
}

/// The position of `f` among the offered filters, or 0 when it is not offered.
pub open spec fn filter_position(f: Filter) -> int {
    match f {
        Filter::All => 0,
        Filter::Pending => 1,
        Filter::Completed => 2,
        Filter::DueToday => 3,
        Filter::DueThisWeek => 4,
        Filter::Overdue => 5,
        Filter::ByPriority(Priority::Urgent) => 6,
        Filter::ByPriority(Priority::High) => 7,
        Filter::ByPriority(Priority::Medium) => 8,
        Filter::ByPriority(Priority::Low) => 9,
        _ => 0,
    }
}

/// The dialog opens on the current filter whenever that filter is offered:
/// the filter at its position is the filter itself.
pub proof fn law_offered_filter_preselected(i: int)
    requires
        0 <= i < FILTER_COUNT,
    ensures
        filter_position(filter_choice(i)) == i,
        filter_choice(filter_position(filter_choice(i))) == filter_choice(i),
{
}

/// The position of `f` among the offered filters (executable [`filter_position`]).
fn position_of_filter(f: &Filter) -> (r: usize)
    ensures
        r == filter_position(*f),
{
    match f {
        Filter::All => 0,
        Filter::Pending => 1,
        Filter::Completed => 2,
        Filter::DueToday => 3,
        Filter::DueThisWeek => 4,
        Filter::Overdue => 5,
        Filter::ByPriority(Priority::Urgent) => 6,
        Filter::ByPriority(Priority::High) => 7,
        Filter::ByPriority(Priority::Medium) => 8,
        Filter::ByPriority(Priority::Low) => 9,
        _ => 0,
    }
}

/// The position of `s` among the offered sort orders, or 0.
pub open spec fn sort_position(s: SortOrder) -> int {
    match s {
        SortOrder::DueDateAsc => 0,
        SortOrder::PriorityDesc => 1,
        SortOrder::CreatedDesc => 2,
        SortOrder::Alphabetical => 3,
        _ => 0,
    }
}

/// How many of `tasks` pass `filter` at the time of `clock`.
pub open spec fn match_count(filter: Filter, tasks: Seq<Task>, clock: Clock) -> int {
    tasks.filter(|t: Task| filter_matches(filter, t, clock)).len() as int
}

/// The dialog's state.
#[derive(Debug, Clone)]
pub struct FilterSortDialog {
    /// Which section has the focus
    pub section: FilterSortSection,
    /// Position of the highlighted filter
    pub filter_index: usize,
    /// Position of the highlighted sort order
    pub sort_index: usize,
    /// How many tasks each offered filter lets through
    pub filter_counts: Vec<usize>,
}

/// Counts the tasks that pass `filter` at the time of `clock`.
fn count_matching_tasks(filter: &Filter, tasks: &Vec<&Task>, clock: Clock) -> (r: usize)
    requires
        clock.wf(),
    ensures
        r == match_count(*filter, tasks@.map_values(|t: &Task| *t), clock),
{
    let ghost ts = tasks@.map_values(|t: &Task| *t);
    let ghost pred = |t: Task| filter_matches(*filter, t, clock);
    let mut n: usize = 0;
    let mut i: usize = 0;
    while i < tasks.len()
        invariant
            i <= tasks@.len(),
            clock.wf(),
            ts == tasks@.map_values(|t: &Task| *t),
            pred == (|t: Task| filter_matches(*filter, t, clock)),
            n == ts.take(i as int).filter(pred).len(),
        decreases tasks@.len() - i,
    {
        proof {
            assert(ts.take(i + 1) =~= ts.take(i as int).push(ts[i as int]));
            ts.take(i as int).lemma_filter_push(ts[i as int], pred);
            ts.take(i as int).filter(pred).lemma_filter_len(pred);
            ts.take(i as int).lemma_filter_len(pred);
        }
        if filter.matches_at(tasks[i], clock) {
            n = n + 1;
        }
        i = i + 1;
    }
    assert(ts.take(ts.len() as int) =~= ts);
    n
}

impl FilterSortDialog {
    /// The highlighted positions lie within the lists.
    pub open spec fn wf(&self) -> bool {
        self.filter_index < FILTER_COUNT && self.sort_index < SORT_COUNT
    }

    /// Opens the dialog on the current filter and sort order, with the
    /// number of tasks each offered filter lets through at the time of `clock`.
    pub fn new_at(current_filter: &Filter, current_sort: &SortOrder, tasks: &[Task], clock: Clock) -> (r: Self)
        requires
            clock.wf(),
        ensures
            r.wf(),
            r.section == FilterSortSection::Filter,
            r.filter_index == filter_position(*current_filter),
            r.sort_index == sort_position(*current_sort),
            r.filter_counts@.len() == FILTER_COUNT,
            forall|i: int|
                0 <= i < FILTER_COUNT ==> #[trigger] r.filter_counts@[i] == match_count(
                    filter_choice(i),
                    tasks@,
                    clock,
                ),
    {
        let refs = refs_of(tasks);
        FilterSortDialog::new_over(current_filter, current_sort, &refs, clock)
    }

    /// [`FilterSortDialog::new_at`] over references to the tasks.
    pub fn new_over(current_filter: &Filter, current_sort: &SortOrder, tasks: &Vec<&Task>, clock: Clock) -> (r: Self)
        requires
            clock.wf(),
        ensures
            r.wf(),
            r.section == FilterSortSection::Filter,
            r.filter_index == filter_position(*current_filter),
            r.sort_index == sort_position(*current_sort),
            r.filter_counts@.len() == FILTER_COUNT,
            forall|i: int|
                0 <= i < FILTER_COUNT ==> #[trigger] r.filter_counts@[i] == match_count(
                    filter_choice(i),
                    tasks@.map_values(|t: &Task| *t),
                    clock,
                ),
    {
        let filter_index = position_of_filter(current_filter);
        let sort_index: usize = match current_sort {
            SortOrder::DueDateAsc => 0,
            SortOrder::PriorityDesc => 1,
            SortOrder::CreatedDesc => 2,
            SortOrder::Alphabetical => 3,
            _ => 0,
        };
        let mut filter_counts: Vec<usize> = Vec::new();
        let mut k: usize = 0;
        while k < FILTER_COUNT
            invariant
                k <= FILTER_COUNT,
                clock.wf(),
                filter_counts@.len() == k,
                forall|i: int|
                    0 <= i < k ==> #[trigger] filter_counts@[i] == match_count(
                        filter_choice(i),
                        tasks@.map_values(|t: &Task| *t),
                        clock,
                    ),
            decreases FILTER_COUNT - k,
        {
            let f = filter_option(k);
            let c = count_matching_tasks(&f, tasks, clock);
            filter_counts.push(c);
            k = k + 1;
        }
        FilterSortDialog { section: FilterSortSection::Filter, filter_index, sort_index, filter_counts }
    }

    /// Opens the dialog, counting tasks at the current time.
    pub fn new(current_filter: &Filter, current_sort: &SortOrder, tasks: &[Task]) -> (r: Self)
        ensures
            r.wf(),
            r.section == FilterSortSection::Filter,
            r.filter_index == filter_position(*current_filter),
            r.sort_index == sort_position(*current_sort),
            r.filter_counts@.len() == FILTER_COUNT,
            exists|c: Clock|
                c.wf() && forall|i: int|
                    0 <= i < FILTER_COUNT ==> #[trigger] r.filter_counts@[i] == match_count(
                        filter_choice(i),
                        tasks@,
                        c,
                    ),
    {
        FilterSortDialog::new_at(current_filter, current_sort, tasks, Clock::read())
    }

    /// The highlighted filter.
    pub fn selected_filter(&self) -> (r: Filter)
        requires
            self.wf(),
        ensures
            r == filter_choice(self.filter_index as int),
    {
        filter_option(self.filter_index)
    }

    /// The highlighted sort order.
    pub fn selected_sort(&self) -> (r: SortOrder)
        requires
            self.wf(),
        ensures
            r == sort_choice(self.sort_index as int),
    {
        sort_option(self.sort_index)
    }

    /// How a key changes the dialog (`pre` to `post`) and what it answers.
    pub open spec fn key_step(pre: FilterSortDialog, post: FilterSortDialog, key: KeyEvent, r: DialogAction) -> bool {
        &&& (post.filter_counts == pre.filter_counts)
        &&& (match key.code {
                KeyCode::Esc | KeyCode::Char('q') => r == DialogAction::Cancel && post == pre,
                KeyCode::Enter => r == DialogAction::Submit && post == pre,
                KeyCode::Tab | KeyCode::Left | KeyCode::Right | KeyCode::Char('h') | KeyCode::Char(
                    'l',
                ) => r == DialogAction::Nothing && post.section != pre.section
                    && post.filter_index == pre.filter_index && post.sort_index
                    == pre.sort_index,
                KeyCode::Up | KeyCode::Char('k') | KeyCode::Down | KeyCode::Char('j')
                | KeyCode::Home | KeyCode::Char('g') | KeyCode::End | KeyCode::Char('G') => {
                    let target = match key.code {
                        KeyCode::Up | KeyCode::Char('k') => -1int,
                        KeyCode::Down | KeyCode::Char('j') => 1int,
                        KeyCode::Home | KeyCode::Char('g') => -100int,
                        _ => 100int,
                    };
                    &&& r == DialogAction::Nothing
                    &&& post.section == pre.section
                    &&& if pre.section == FilterSortSection::Filter {
                        post.filter_index == clamp_move(
                            pre.filter_index as int,
                            target,
                            FILTER_COUNT as int,
                        ) && post.sort_index == pre.sort_index
                    } else {
                        post.sort_index == clamp_move(
                            pre.sort_index as int,
                            target,
                            SORT_COUNT as int,
                        ) && post.filter_index == pre.filter_index
                    }
                },
                _ => r == DialogAction::Nothing && post == pre
            })
    }

    /// Handles a key: Esc or `q` cancels, Enter submits, Tab, the side
    /// arrows, `h` and `l` switch section, the up and down arrows, `k`, `j`,
    /// Home, End, `g` and `G` move within the focused list.
    pub fn handle_key(&mut self, key: KeyEvent) -> (r: DialogAction)
        requires
            old(self).wf(),
        ensures
            final(self).wf(),
            Self::key_step(*old(self), *final(self), key, r),
    {
        match key.code {
            KeyCode::Esc | KeyCode::Char('q') => DialogAction::Cancel,
            KeyCode::Enter => DialogAction::Submit,
            KeyCode::Tab | KeyCode::Left | KeyCode::Right | KeyCode::Char('h') | KeyCode::Char('l') => {
                self.section = match self.section {
                    FilterSortSection::Filter => FilterSortSection::Sort,
                    FilterSortSection::Sort => FilterSortSection::Filter,
                };
                DialogAction::Nothing
            },
            KeyCode::Up | KeyCode::Char('k') => {
                match self.section {
                    FilterSortSection::Filter => {
                        self.filter_index = self.filter_index.saturating_sub(1);
                    },
                    FilterSortSection::Sort => {
                        self.sort_index = self.sort_index.saturating_sub(1);
                    },
                }
                DialogAction::Nothing
            },
            KeyCode::Down | KeyCode::Char('j') => {
                match self.section {
                    FilterSortSection::Filter => {
                        self.filter_index = if self.filter_index + 1 < FILTER_COUNT - 1 {
                            self.filter_index + 1
                        } else {
                            FILTER_COUNT - 1
                        };
                    },
                    FilterSortSection::Sort => {
                        self.sort_index = if self.sort_index + 1 < SORT_COUNT - 1 {
                            self.sort_index + 1
                        } else {
                            SORT_COUNT - 1
                        };
                    },
                }
                DialogAction::Nothing
            },
            KeyCode::Home | KeyCode::Char('g') => {
                match self.section {
                    FilterSortSection::Filter => self.filter_index = 0,
                    FilterSortSection::Sort => self.sort_index = 0,
                }
                DialogAction::Nothing
            },
            KeyCode::End | KeyCode::Char('G') => {
                match self.section {
                    FilterSortSection::Filter => self.filter_index = FILTER_COUNT - 1,
                    FilterSortSection::Sort => self.sort_index = SORT_COUNT - 1,
                }
                DialogAction::Nothing
            },
            _ => DialogAction::Nothing,
        }
    }
}

/// A highlighted position after a move within a list of `n` entries: -1
/// moves up one, 1 down one (both stopping at the ends), -100 goes to the
/// first and 100 to the last.
pub open spec fn clamp_move(i: int, step: int, n: int) -> int {
    if step == -1 {
        if i > 0 {
            i - 1
        } else {
            0
        }
    } else if step == 1 {
        if i + 1 < n - 1 {
            i + 1
        } else {
            n - 1
        }
    } else if step == -100 {
        0
    } else {
        n - 1
    }
}

impl Default for FilterSortDialog {
    fn default() -> (r: Self)
        ensures
            r.wf(),
            r.section == FilterSortSection::Filter,
            r.filter_index == 0,
            r.sort_index == 0,
            r.filter_counts@.len() == FILTER_COUNT,
            forall|i: int| 0 <= i < FILTER_COUNT ==> #[trigger] r.filter_counts@[i] == 0,
    {
        let none: Vec<Task> = Vec::new();
        let r = FilterSortDialog::new(&Filter::All, &SortOrder::DueDateAsc, none.as_slice());
        assert forall|i: int| 0 <= i < FILTER_COUNT implies #[trigger] r.filter_counts@[i] == 0 by {
            let c = choose|c: Clock|
                c.wf() && forall|i: int|
                    0 <= i < FILTER_COUNT ==> #[trigger] r.filter_counts@[i] == match_count(
                        filter_choice(i),
                        none@,
                        c,
                    );
            assert(none@.filter(|t: Task| filter_matches(filter_choice(i), t, c)) =~= Seq::<Task>::empty());
        }
        r
    }
}

} // verus!
