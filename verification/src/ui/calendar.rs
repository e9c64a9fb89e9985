//! The weekly calendar: the week on view, the selected day, and the tasks
//! that fall on a day. Days are local days (days since 1970-01-01).
use vstd::prelude::*;
use crate::models::task::{Task, TaskStatus};
use crate::utils::datetime::{
    Clock, local_day, local_day_of, weekday_from_monday, weekday_of, day_text, format_day, civil_of_day,
    civil_date,
};
use crate::text::string_from;

verus! {

/// The week on view (from its Monday) and the selected day in it (0 for
/// Monday to 6 for Sunday).
#[derive(Debug, Clone, Copy, PartialEq, Eq, Structural)]
pub struct CalendarState {
    /// Local day of the Monday of the week on view
    pub week_start: i64,
    /// Selected day within the week
    pub selected_day: usize,
}

/// The calendar on the week of local day `today`, with `today` selected.
pub open spec fn calendar_on(today: int) -> CalendarState {
    CalendarState {
        week_start: (today - weekday_from_monday(today)) as i64,
        selected_day: weekday_from_monday(today) as usize,
    }
}

/// The week moved by `weeks` (one forward or back), unless that leaves
/// the range of day numbers.
pub open spec fn week_moved(s: CalendarState, weeks: int) -> CalendarState {
    let w = s.week_start + 7 * weeks;
    if i64::MIN <= w <= i64::MAX {
        CalendarState { week_start: w as i64, ..s }
    } else {
        s
    }
}

/// The calendar with the previous day selected; from Monday, Sunday of
/// the week before.
pub open spec fn day_before(s: CalendarState) -> CalendarState {
    if s.selected_day == 0 {
        CalendarState { selected_day: 6, ..week_moved(s, -1) }
    } else {
        CalendarState { selected_day: (s.selected_day - 1) as usize, ..s }
    }
}

/// The calendar with the next day selected; from Sunday, Monday of the
/// week after.
pub open spec fn day_after(s: CalendarState) -> CalendarState {
    if s.selected_day == 6 {
        CalendarState { selected_day: 0, ..week_moved(s, 1) }
    } else {
        CalendarState { selected_day: (s.selected_day + 1) as usize, ..s }
    }
}

impl CalendarState {
    /// The selected day lies in the week.
    pub open spec fn wf(&self) -> bool {
        self.selected_day < 7
    }

    /// The selected local day.
    pub open spec fn selected_spec(&self) -> int {
        self.week_start + self.selected_day
    }

    /// The calendar on the clock's local day.
    pub fn new_at(clock: Clock) -> (r: Self)
        requires
            clock.wf(),
        ensures
            r == calendar_on(clock.today()),
            r.wf(),
    {
        let today = local_day_of(clock.now, clock.offset);
        let w = weekday_of(today);
        assert(-200_000_000_000_000_000 < today < 200_000_000_000_000_000) by (nonlinear_arith)
            requires
                today == local_day(clock.now as int, clock.offset as int),
                -86_400 < clock.offset < 86_400,
                i64::MIN <= clock.now <= i64::MAX,
        ;
        CalendarState { week_start: today - w, selected_day: w as usize }
    }

    /// The calendar on today's local day.
    pub fn new() -> (r: Self)
        ensures
            exists|c: Clock| c.wf() && r == calendar_on(c.today()),
            r.wf(),
    {
        CalendarState::new_at(Clock::read())
    }

    /// The selected local day, when it fits an `i64`.
    pub fn selected_date(&self) -> (r: Option<i64>)
        requires
            self.wf(),
        ensures
            match r {
                Some(d) => d == self.selected_spec(),
                None => self.selected_spec() > i64::MAX,
            },
    {
        if self.week_start > i64::MAX - 6 && self.selected_day as i64 > i64::MAX - self.week_start {
            None
        } else {
            Some(self.week_start + self.selected_day as i64)
        }
    }

    /// Moves the week back by seven days.
    pub fn prev_week(&mut self)
        ensures
            *final(self) == week_moved(*old(self), -1),
    {
        if self.week_start >= i64::MIN + 7 {
            self.week_start = self.week_start - 7;
        }
    }

    /// Moves the week on by seven days.
    pub fn next_week(&mut self)
        ensures
            *final(self) == week_moved(*old(self), 1),
    {
        if self.week_start <= i64::MAX - 7 {
            self.week_start = self.week_start + 7;
        }
    }

    /// Selects the previous day; from Monday, Sunday of the week before.
    pub fn prev_day(&mut self)
        requires
            old(self).wf(),
        ensures
            final(self).wf(),
            *final(self) == day_before(*old(self)),
    {
        if self.selected_day == 0 {
            self.prev_week();
            self.selected_day = 6;
        } else {
            self.selected_day = self.selected_day - 1;
        }
    }

    /// Selects the next day; from Sunday, Monday of the week after.
    pub fn next_day(&mut self)
        requires
            old(self).wf(),
        ensures
            final(self).wf(),
            *final(self) == day_after(*old(self)),
    {
        if self.selected_day == 6 {
            self.next_week();
            self.selected_day = 0;
        } else {
            self.selected_day = self.selected_day + 1;
        }
    }

    /// Goes to today.
    pub fn goto_today(&mut self)
        ensures
            exists|c: Clock| c.wf() && *final(self) == calendar_on(c.today()),
    {
        self.goto_today_at(Clock::read());
    }

    /// Goes to the clock's local day.
    pub fn goto_today_at(&mut self, clock: Clock)
        requires
            clock.wf(),
        ensures
            *final(self) == calendar_on(clock.today()),
    {
        *self = CalendarState::new_at(clock);
    }
}

/// Moving a day on and back returns to the same selection, away from the
/// ends of the range of day numbers.
pub proof fn law_next_prev_day(s: CalendarState)
    requires
        s.wf(),
        i64::MIN + 7 <= s.week_start <= i64::MAX - 7,
    ensures
        day_before(day_after(s)) == s,
        day_after(s).selected_spec() == s.selected_spec() + 1,
        day_after(day_before(s)) == s,
        day_before(s).selected_spec() == s.selected_spec() - 1,
{
}

/// Whether task `t` is due on local day `day` under offset `offset`.
pub open spec fn due_on(t: Task, day: int, offset: int) -> bool {
    match t.due_date {
        Some(d) => local_day(d as int, offset) == day,
        None => false,
    }
}

/// The tasks due on local day `day`, in their order.
pub fn tasks_due_on<'a>(tasks: &'a [Task], day: i64, offset: i32) -> (r: Vec<&'a Task>)
    requires
        -86_400 < offset < 86_400,
    ensures
        r@.map_values(|t: &Task| *t) == tasks@.filter(|t: Task| due_on(t, day as int, offset as int)),
{
    let ghost pred = |t: Task| due_on(t, day as int, offset as int);
    let mut r: Vec<&'a Task> = Vec::new();
    let mut i: usize = 0;
    while i < tasks.len()
        invariant
            i <= tasks@.len(),
            -86_400 < offset < 86_400,
            pred == (|t: Task| due_on(t, day as int, offset as int)),
            r@.map_values(|t: &Task| *t) == tasks@.take(i as int).filter(pred),
        decreases tasks@.len() - i,
    {
        let ghost before = r@;
        let hit = match tasks[i].due_date {
            Some(d) => local_day_of(d, offset) == day,
            None => false,
        };
        if hit {
            r.push(&tasks[i]);
            assert(r@.map_values(|t: &Task| *t) =~= before.map_values(|t: &Task| *t).push(
                tasks@[i as int],
            ));
        }
        proof {
            assert(tasks@.take(i + 1) =~= tasks@.take(i as int).push(tasks@[i as int]));
            tasks@.take(i as int).lemma_filter_push(tasks@[i as int], pred);
        }
        i = i + 1;
    }
    assert(tasks@.take(tasks@.len() as int) =~= tasks@);
    r
}

/// How many tasks that are not archived are due on local day `day`.
pub fn count_tasks_for_date(tasks: &[Task], day: i64, offset: i32) -> (r: usize)
    requires
        -86_400 < offset < 86_400,
    ensures
        r == tasks@.filter(|t: Task| t.status != TaskStatus::Archived && due_on(t, day as int, offset as int)).len(),
{
    let ghost pred = |t: Task| t.status != TaskStatus::Archived && due_on(t, day as int, offset as int);
    let mut n: usize = 0;
    let mut i: usize = 0;
    while i < tasks.len()
        invariant
            i <= tasks@.len(),
            -86_400 < offset < 86_400,
            pred == (|t: Task| t.status != TaskStatus::Archived && due_on(t, day as int, offset as int)),
            n == tasks@.take(i as int).filter(pred).len(),
        decreases tasks@.len() - i,
    {
        proof {
            assert(tasks@.take(i + 1) =~= tasks@.take(i as int).push(tasks@[i as int]));
            tasks@.take(i as int).lemma_filter_push(tasks@[i as int], pred);
            tasks@.take(i as int).lemma_filter_len(pred);
        }
        let hit = tasks[i].status != TaskStatus::Archived && match tasks[i].due_date {
            Some(d) => local_day_of(d, offset) == day,
            None => false,
        };
        if hit {
            n = n + 1;
        }
        i = i + 1;
    }
    assert(tasks@.take(tasks@.len() as int) =~= tasks@);
    n
}

/// Whether a past day still has open tasks due on it: a day before `today`
/// with a task due on it that is neither completed nor archived.
pub fn has_overdue_tasks_for_date(tasks: &[Task], day: i64, today: i64, offset: i32) -> (r: bool)
    requires
        -86_400 < offset < 86_400,
    ensures
        r == (day < today && exists|i: int|
            0 <= i < tasks@.len() && (#[trigger] tasks@[i]).status != TaskStatus::Completed
                && tasks@[i].status != TaskStatus::Archived && due_on(tasks@[i], day as int, offset as int)),
{
    if day >= today {
        return false;
    }
    let mut i: usize = 0;
    while i < tasks.len()
        invariant
            i <= tasks@.len(),
            day < today,
            -86_400 < offset < 86_400,
            forall|j: int|
                0 <= j < i ==> !((#[trigger] tasks@[j]).status != TaskStatus::Completed
                    && tasks@[j].status != TaskStatus::Archived && due_on(tasks@[j], day as int, offset as int)),
        decreases tasks@.len() - i,
    {
        let t = &tasks[i];
        let on_day = match t.due_date {
            Some(d) => local_day_of(d, offset) == day,
            None => false,
        };
        assert(on_day == due_on(*t, day as int, offset as int));
        if t.status != TaskStatus::Completed && t.status != TaskStatus::Archived && on_day {
            assert(tasks@[i as int] == *t);
            return true;
        }
        i = i + 1;
    }
    false
}


/// The heading of the task list for local day `day` seen from `today`:
/// "Today", "Tomorrow", "Yesterday", else the weekday, month and day.
pub open spec fn day_heading_text(day: int, today: int) -> Seq<char> {
    if day == today {
        "Today"@
    } else if day == today + 1 {
        "Tomorrow"@
    } else if day == today - 1 {
        "Yesterday"@
    } else {
        day_text(day, "%A, %B %d"@)
    }
}

/// The heading of the task list for local day `day` seen from `today`.
pub fn day_heading(day: i64, today: i64) -> (r: String)
    ensures
        r@ == day_heading_text(day as int, today as int),
{
    proof {
        reveal_strlit("Today");
        reveal_strlit("Tomorrow");
        reveal_strlit("Yesterday");
    }
    if day as i128 == today as i128 {
        string_from("Today")
    } else if day as i128 == today as i128 + 1 {
        string_from("Tomorrow")
    } else if day as i128 == today as i128 - 1 {
        string_from("Yesterday")
    } else {
        match format_day(day, "%A, %B %d") {
            Some(t) => t,
            None => String::new(),
        }
    }
}


/// One day of the week strip of the calendar.
#[derive(Debug, Clone, Copy, PartialEq, Eq)]
pub struct DayCard {
    /// Short weekday name
    pub name: &'static str,
    /// Day of the month, if the day lies in chrono's calendar
    pub number: Option<u32>,
    /// Whether it is the selected day
    pub selected: bool,
    /// Whether it is today
    pub today: bool,
    /// Whether it falls on the weekend
    pub weekend: bool,
    /// Tasks due that day, archived ones left out
    pub task_count: usize,
    /// Whether the day is past and holds an unfinished task
    pub has_overdue: bool,
}

/// Short weekday names from Monday.
pub open spec fn weekday_short(i: int) -> Seq<char> {
    if i == 0 {
        "Mon"@
    } else if i == 1 {
        "Tue"@
    } else if i == 2 {
        "Wed"@
    } else if i == 3 {
        "Thu"@
    } else if i == 4 {
        "Fri"@
    } else if i == 5 {
        "Sat"@
    } else {
        "Sun"@
    }
}

/// The short name of weekday `i` (executable [`weekday_short`]).
fn short_name(i: usize) -> (r: &'static str)
    ensures
        r@ == weekday_short(i as int),
{
    if i == 0 {
        "Mon"
    } else if i == 1 {
        "Tue"
    } else if i == 2 {
        "Wed"
    } else if i == 3 {
        "Thu"
    } else if i == 4 {
        "Fri"
    } else if i == 5 {
        "Sat"
    } else {
        "Sun"
    }
}

/// The card `c` shows day `i` of the week on view in `s`.
pub open spec fn shows_day(c: DayCard, s: CalendarState, i: int, tasks: Seq<Task>, clock: Clock) -> bool {
    let day = s.week_start + i;
    &&& c.name@ == weekday_short(i)
    &&& c.number == match civil_date(day) {
        Some((_, _, d)) => Some(d as u32),
        None => None,
    }
    &&& c.selected == (i == s.selected_day)
    &&& c.today == (day == clock.today())
    &&& c.weekend == (i >= 5)
    &&& c.task_count == tasks.filter(|t: Task| t.status != TaskStatus::Archived && due_on(t, day, clock.offset as int)).len()
    &&& c.has_overdue == (day < clock.today() && exists|j: int|
        0 <= j < tasks.len() && (#[trigger] tasks[j]).status != TaskStatus::Completed
            && tasks[j].status != TaskStatus::Archived && due_on(tasks[j], day, clock.offset as int))
}

/// The seven cards of the week on view, Monday first.
pub fn day_cards(state: &CalendarState, tasks: &[Task], clock: Clock) -> (r: Vec<DayCard>)
    requires
        state.wf(),
        clock.wf(),
        state.week_start + 6 <= i64::MAX,
    ensures
        r@.len() == 7,
        forall|i: int| 0 <= i < 7 ==> shows_day(#[trigger] r@[i], *state, i, tasks@, clock),
{
    let today = local_day_of(clock.now, clock.offset);
    let mut cards: Vec<DayCard> = Vec::new();
    let mut i: usize = 0;
    while i < 7
        invariant
            i <= 7,
            cards@.len() == i,
            state.wf(),
            clock.wf(),
            state.week_start + 6 <= i64::MAX,
            today == clock.today(),
            forall|j: int| 0 <= j < i ==> shows_day(#[trigger] cards@[j], *state, j, tasks@, clock),
        decreases 7 - i,
    {
        let day = state.week_start + i as i64;
        let number = match civil_of_day(day) {
            Some((_, _, d)) => Some(d),
            None => None,
        };
        let card = DayCard {
            name: short_name(i),
            number,
            selected: i == state.selected_day,
            today: day == today,
            weekend: i >= 5,
            task_count: count_tasks_for_date(tasks, day, clock.offset),
            has_overdue: has_overdue_tasks_for_date(tasks, day, today, clock.offset),
        };
        cards.push(card);
        i = i + 1;
    }
    cards
}

} // verus!
