//! Text shown in task rows.
use vstd::prelude::*;
use crate::text::{
    chars_of, chars_of_string, is_char_boundary, prefix_bytes, string_of, take_bytes, utf8_len,
    views_of, str_byte_len, is_boundary,
};
use crate::models::priority::Priority;
use crate::models::project::Project;
use crate::models::task::{Task, TaskStatus, overdue_at, due_today_at, due_this_week_at};
use crate::ui::theme::icons::{
    CHECKBOX_EMPTY, CHECKBOX_PROGRESS, CHECKBOX_DONE, CHECKBOX_ARCHIVED, PRIORITY_URGENT,
    PRIORITY_HIGH, PRIORITY_LOW, PROJECT_PREFIX, CHECK, DOT,
};
use crate::utils::datetime::{Clock, local_day, relative_label, format_relative_date_at};
pub use crate::ui::layout::Area;

verus! {

/// The tags joined for display: each behind `#`, separated by spaces.
pub open spec fn joined_tags(tags: Seq<Seq<char>>) -> Seq<char>
    decreases tags.len(),
{
    if tags.len() == 0 {
        Seq::empty()
    } else if tags.len() == 1 {
        seq!['#'] + tags[0]
    } else {
        joined_tags(tags.drop_last()) + seq![' ', '#'] + tags.last()
    }
}

/// `s` shortened to fit `max` bytes: when longer, its first `max - 3`
/// bytes (none if `max < 3`) followed by `...`.
pub open spec fn shortened(s: Seq<char>, max: int) -> Seq<char> {
    if utf8_len(s) > max {
        prefix_bytes(s, if max >= 3 { max - 3 } else { 0 }) + "..."@
    } else {
        s
    }
}

/// Whether `s` can be shortened to `max` bytes without splitting a character.
pub open spec fn shortenable(s: Seq<char>, max: int) -> bool {
    utf8_len(s) > max ==> is_char_boundary(s, if max >= 3 { max - 3 } else { 0 })
}

/// Joins the tags for display (executable [`joined_tags`]).
fn join_tags(tags: &[String]) -> (r: Vec<char>)
    ensures
        r@ == joined_tags(views_of(tags@)),
{
    let ghost all = views_of(tags@);
    let mut out: Vec<char> = Vec::new();
    let mut i: usize = 0;
    while i < tags.len()
        invariant
            i <= tags@.len(),
            all == views_of(tags@),
            out@ == joined_tags(all.take(i as int)),
        decreases tags@.len() - i,
    {
        let t = chars_of_string(&tags[i]);
        let ghost before = out@;
        if i > 0 {
            out.push(' ');
        }
        out.push('#');
        let mut k: usize = 0;
        while k < t.len()
            invariant
                k <= t@.len(),
                out@ == (if i > 0 { before + seq![' ', '#'] } else { before + seq!['#'] }) + t@.take(k as int),
            decreases t@.len() - k,
        {
            out.push(t[k]);
            assert(t@.take(k + 1) =~= t@.take(k as int).push(t@[k as int]));
            k = k + 1;
        }
        proof {
            assert(t@.take(t@.len() as int) =~= t@);
            assert(all.take(i + 1).drop_last() =~= all.take(i as int));
            assert(all.take(i + 1).last() == t@);
            if i == 0 {
                assert(before =~= Seq::<char>::empty());
            }
            assert(out@ =~= joined_tags(all.take(i + 1)));
        }
        i = i + 1;
    }
    assert(all.take(tags@.len() as int) =~= all);
    out
}

/// `v` shortened to `max` bytes (see [`shortened`]).
fn shorten(v: &Vec<char>, max: usize) -> (r: String)
    requires
        shortenable(v@, max as int),
    ensures
        r@ == shortened(v@, max as int),
{
    let s = string_of(v);
    let n = str_byte_len(s.as_str());
    if n > max {
        let cut = if max >= 3 { max - 3 } else { 0 };
        let mut kept = take_bytes(v, cut);
        kept.push('.');
        kept.push('.');
        kept.push('.');
        proof {
            reveal_strlit("...");
        }
        assert(kept@ =~= prefix_bytes(v@, cut as int) + "..."@);
        string_of(&kept)
    } else {
        s
    }
}

/// Whether `v` can be shortened to `max` bytes (executable [`shortenable`]).
fn can_shorten(v: &Vec<char>, max: usize) -> (r: bool)
    ensures
        r == shortenable(v@, max as int),
{
    let s = string_of(v);
    let n = str_byte_len(s.as_str());
    if n > max {
        is_boundary(v, if max >= 3 { max - 3 } else { 0 })
    } else {
        true
    }
}

/// Renders tags as `#a #b`, shortened to `max_width` bytes with `...`.
pub fn render_tags(tags: &[String], max_width: usize) -> (r: String)
    requires
        shortenable(joined_tags(views_of(tags@)), max_width as int),
    ensures
        r@ == shortened(joined_tags(views_of(tags@)), max_width as int),
{
    let joined = join_tags(tags);
    shorten(&joined, max_width)
}

/// Shortens `s` to `max_width` bytes: when longer, the first
/// `max_width - 3` bytes and `...`, or the first `max_width` bytes when
/// `max_width` is 3 or less.
pub open spec fn truncated(s: Seq<char>, max: int) -> Seq<char> {
    if utf8_len(s) <= max {
        s
    } else if max > 3 {
        prefix_bytes(s, max - 3) + "..."@
    } else {
        prefix_bytes(s, max)
    }
}

/// Shortens text for a list row (see [`truncated`]); the cut must fall
/// between characters.
pub fn truncate_str(s: &str, max_width: usize) -> (r: String)
    requires
        utf8_len(s@) > max_width ==> is_char_boundary(
            s@,
            if max_width > 3 { max_width - 3 } else { max_width as int },
        ),
    ensures
        r@ == truncated(s@, max_width as int),
{
    let n = str_byte_len(s);
    let v = chars_of(s);
    if n <= max_width {
        string_of(&v)
    } else if max_width > 3 {
        let mut kept = take_bytes(&v, max_width - 3);
        kept.push('.');
        kept.push('.');
        kept.push('.');
        proof {
            reveal_strlit("...");
        }
        assert(kept@ =~= prefix_bytes(s@, max_width - 3) + "..."@);
        string_of(&kept)
    } else {
        let kept = take_bytes(&v, max_width);
        string_of(&kept)
    }
}

/// How a part of a task row is coloured.
#[derive(Debug, Clone, Copy, PartialEq, Eq, Structural)]
pub enum RowTone {
    /// Completed or archived
    Completed,
    /// Past its due date
    Overdue,
    /// Due today
    DueToday,
    /// Due within the week
    DueThisWeek,
    /// Nothing special
    Primary,
    /// Quiet text
    Muted,
}

/// The text and colouring of one row of the task list.
#[derive(Debug, Clone)]
pub struct TaskRow {
    /// Status checkbox
    pub status_icon: &'static str,
    /// Priority marker (a space for medium priority)
    pub priority_icon: &'static str,
    /// The title, shortened to fit
    pub title: String,
    /// The bytes the title column takes
    pub title_width: usize,
    /// `@project`, or empty
    pub project: String,
    /// `#tag #tag`, shortened to 20 bytes, or empty
    pub tags: String,
    /// Due date, and completion date for finished tasks, or empty
    pub date: String,
    /// Colour of the title
    pub title_tone: RowTone,
    /// Colour of the date
    pub date_tone: RowTone,
    /// Whether the title is set in bold (selected in the focused list)
    pub emphasised: bool,
}

/// Completed and archived tasks are finished.
pub open spec fn finished(s: TaskStatus) -> bool {
    s == TaskStatus::Completed || s == TaskStatus::Archived
}

/// The checkbox of a status.
pub open spec fn status_icon_text(s: TaskStatus) -> Seq<char> {
    match s {
        TaskStatus::Pending => CHECKBOX_EMPTY@,
        TaskStatus::InProgress => CHECKBOX_PROGRESS@,
        TaskStatus::Completed => CHECKBOX_DONE@,
        TaskStatus::Archived => CHECKBOX_ARCHIVED@,
    }
}

/// The marker of a priority; medium priority shows a space.
pub open spec fn priority_icon_text(p: Priority) -> Seq<char> {
    match p {
        Priority::Urgent => PRIORITY_URGENT@,
        Priority::High => PRIORITY_HIGH@,
        Priority::Medium => seq![' '],
        Priority::Low => PRIORITY_LOW@,
    }
}

/// The relative label of instant `d` on the clock.
pub open spec fn when_label(d: i64, clock: Clock) -> Seq<char> {
    relative_label(local_day(d as int, clock.offset as int), clock.today())
}

/// The date column: for a finished task its due date and `✓` with its
/// completion date, joined by ` · ` when both are known; else its due date.
pub open spec fn row_date(t: Task, clock: Clock) -> Seq<char> {
    if finished(t.status) {
        match (t.due_date, t.completed_at) {
            (Some(due), Some(at)) => when_label(due, clock) + seq![' '] + DOT@ + seq![' '] + CHECK@
                + seq![' '] + when_label(at, clock),
            (None, Some(at)) => CHECK@ + seq![' '] + when_label(at, clock),
            (Some(due), None) => when_label(due, clock),
            (None, None) => Seq::empty(),
        }
    } else {
        match t.due_date {
            Some(due) => when_label(due, clock),
            None => Seq::empty(),
        }
    }
}

/// The project column: `@` and the project's name, or nothing.
pub open spec fn row_project(project: Option<Project>) -> Seq<char> {
    match project {
        Some(p) => PROJECT_PREFIX@ + p.name@,
        None => Seq::empty(),
    }
}

/// The tags column: the joined tags shortened to 20 bytes.
pub open spec fn row_tags(t: Task) -> Seq<char> {
    shortened(joined_tags(views_of(t.tags@)), 20)
}

/// The bytes of a row that are not the title.
pub open spec fn row_fixed_width(t: Task, project: Option<Project>, clock: Clock) -> int {
    (3 + 2 + 2 + utf8_len(row_project(project)) + 1 + utf8_len(row_tags(t)) + 2 + utf8_len(
        row_date(t, clock),
    ) + 4) as int
}

/// The bytes left for the title in a row `width` wide, at least 10.
pub open spec fn row_title_width(t: Task, width: int, project: Option<Project>, clock: Clock) -> int {
    let left = width - row_fixed_width(t, project, clock);
    if left > 10 {
        left
    } else {
        10
    }
}

/// The tags and the title can be shortened without splitting a character.
pub open spec fn row_cuttable(t: Task, width: int, project: Option<Project>, clock: Clock) -> bool {
    &&& shortenable(joined_tags(views_of(t.tags@)), 20)
    &&& shortenable(t.title@, row_title_width(t, width, project, clock))
}

/// The colour of a row's title.
pub open spec fn title_tone_of(t: Task, clock: Clock) -> RowTone {
    if finished(t.status) {
        RowTone::Completed
    } else if overdue_at(t, clock.now as int) {
        RowTone::Overdue
    } else if due_today_at(t, clock) {
        RowTone::DueToday
    } else if due_this_week_at(t, clock.now as int) {
        RowTone::DueThisWeek
    } else {
        RowTone::Primary
    }
}

/// The colour of a row's date.
pub open spec fn date_tone_of(t: Task, clock: Clock) -> RowTone {
    if finished(t.status) {
        RowTone::Completed
    } else if overdue_at(t, clock.now as int) {
        RowTone::Overdue
    } else if due_today_at(t, clock) {
        RowTone::DueToday
    } else {
        RowTone::Muted
    }
}

/// The row `r` shows task `t` as the task list does.
pub open spec fn shows_row(
    r: TaskRow,
    t: Task,
    selected: bool,
    focused: bool,
    width: int,
    project: Option<Project>,
    clock: Clock,
) -> bool {
    &&& r.status_icon@ == status_icon_text(t.status)
    &&& r.priority_icon@ == priority_icon_text(t.priority)
    &&& r.date@ == row_date(t, clock)
    &&& r.project@ == row_project(project)
    &&& r.tags@ == row_tags(t)
    &&& r.title_width == row_title_width(t, width, project, clock)
    &&& r.title@ == shortened(t.title@, r.title_width as int)
    &&& r.title_tone == title_tone_of(t, clock)
    &&& r.date_tone == date_tone_of(t, clock)
    &&& r.emphasised == (selected && focused)
}

/// The checkbox of a status (executable [`status_icon_text`]).
fn status_icon(s: TaskStatus) -> (r: &'static str)
    ensures
        r@ == status_icon_text(s),
{
    match s {
        TaskStatus::Pending => CHECKBOX_EMPTY,
        TaskStatus::InProgress => CHECKBOX_PROGRESS,
        TaskStatus::Completed => CHECKBOX_DONE,
        TaskStatus::Archived => CHECKBOX_ARCHIVED,
    }
}

/// The marker of a priority (executable [`priority_icon_text`]).
fn priority_icon(p: Priority) -> (r: &'static str)
    ensures
        r@ == priority_icon_text(p),
{
    proof {
        reveal_strlit(" ");
    }
    match p {
        Priority::Urgent => PRIORITY_URGENT,
        Priority::High => PRIORITY_HIGH,
        Priority::Medium => " ",
        Priority::Low => PRIORITY_LOW,
    }
}

/// The date column of a row (executable [`row_date`]).
fn date_column(t: &Task, clock: Clock) -> (r: String)
    requires
        clock.wf(),
    ensures
        r@ == row_date(*t, clock),
{
    let finished = t.status == TaskStatus::Completed || t.status == TaskStatus::Archived;
    if finished {
        match (t.due_date, t.completed_at) {
            (Some(due), Some(at)) => {
                let mut s = format_relative_date_at(due, clock);
                s.append(" ");
                s.append(DOT);
                s.append(" ");
                s.append(CHECK);
                s.append(" ");
                let w = format_relative_date_at(at, clock);
                s.append(w.as_str());
                proof {
                    reveal_strlit(" ");
                }
                s
            },
            (None, Some(at)) => {
                let mut s = String::from_str(CHECK);
                s.append(" ");
                let w = format_relative_date_at(at, clock);
                s.append(w.as_str());
                proof {
                    reveal_strlit(" ");
                }
                s
            },
            (Some(due), None) => format_relative_date_at(due, clock),
            (None, None) => String::new(),
        }
    } else {
        match t.due_date {
            Some(due) => format_relative_date_at(due, clock),
            None => String::new(),
        }
    }
}

/// The project column of a row (executable [`row_project`]).
fn project_column(project: Option<&Project>) -> (r: String)
    ensures
        r@ == row_project(match project {
            Some(p) => Some(*p),
            None => None,
        }),
{
    match project {
        Some(p) => {
            let mut s = String::from_str(PROJECT_PREFIX);
            s.append(p.name.as_str());
            s
        },
        None => String::new(),
    }
}

/// The project a row names, as a value.
pub open spec fn project_value(project: Option<&Project>) -> Option<Project> {
    match project {
        Some(p) => Some(*p),
        None => None,
    }
}

/// The title width of a row `width` wide whose other columns take
/// `project`, `tags` and `date` (byte counts).
fn title_width_for(width: u16, project: usize, tags: usize, date: usize) -> (r: usize)
    ensures
        r == (if width - (14 + project + tags + date) > 10 {
            width - (14 + project + tags + date)
        } else {
            10
        }),
{
    let fixed: u128 = 14u128 + project as u128 + tags as u128 + date as u128;
    let w = width as u128;
    if w > fixed && w - fixed > 10 {
        (w - fixed) as usize
    } else {
        10
    }
}

/// The parts of a task row that depend on the clock and the columns, with
/// the joined tags, ready for shortening.
fn row_columns(t: &Task, width: u16, project: Option<&Project>, clock: Clock) -> (r: (
    String,
    Vec<char>,
    String,
    usize,
))
    requires
        clock.wf(),
    ensures
        r.0@ == row_project(project_value(project)),
        r.1@ == joined_tags(views_of(t.tags@)),
        r.2@ == row_date(*t, clock),
        shortenable(r.1@, 20) ==> r.3 == row_title_width(*t, width as int, project_value(project), clock),
{
    let project_str = project_column(project);
    let joined = join_tags(t.tags.as_slice());
    let date_str = date_column(t, clock);
    let tags_len = if can_shorten(&joined, 20) {
        let tags_str = shorten(&joined, 20);
        str_byte_len(tags_str.as_str())
    } else {
        0
    };
    let tw = title_width_for(
        width,
        str_byte_len(project_str.as_str()),
        tags_len,
        str_byte_len(date_str.as_str()),
    );
    (project_str, joined, date_str, tw)
}

/// Builds the row of task `t` in a list `width` wide, on the clock; `project`
/// is the task's project where the list names projects. The tags and title
/// must be cut between characters.
pub fn task_row_at(
    t: &Task,
    selected: bool,
    focused: bool,
    width: u16,
    project: Option<&Project>,
    clock: Clock,
) -> (r: TaskRow)
    requires
        clock.wf(),
        row_cuttable(*t, width as int, project_value(project), clock),
    ensures
        shows_row(r, *t, selected, focused, width as int, project_value(project), clock),
{
    let (project_str, joined, date_str, title_width) = row_columns(t, width, project, clock);
    let tags_str = shorten(&joined, 20);
    let title_chars = chars_of_string(&t.title);
    let title = shorten(&title_chars, title_width);
    let title_tone = if t.status == TaskStatus::Completed || t.status == TaskStatus::Archived {
        RowTone::Completed
    } else if t.is_overdue_at(clock.now) {
        RowTone::Overdue
    } else if t.is_due_today_at(clock) {
        RowTone::DueToday
    } else if t.is_due_this_week_at(clock.now) {
        RowTone::DueThisWeek
    } else {
        RowTone::Primary
    };
    let date_tone = if t.status == TaskStatus::Completed || t.status == TaskStatus::Archived {
        RowTone::Completed
    } else if t.is_overdue_at(clock.now) {
        RowTone::Overdue
    } else if t.is_due_today_at(clock) {
        RowTone::DueToday
    } else {
        RowTone::Muted
    };
    TaskRow {
        status_icon: status_icon(t.status),
        priority_icon: priority_icon(t.priority),
        title,
        title_width,
        project: project_str,
        tags: tags_str,
        date: date_str,
        title_tone,
        date_tone,
        emphasised: selected && focused,
    }
}

/// Builds the row as [`task_row_at`] does when the tags and title can be cut
/// between characters, and gives `None` otherwise.
pub fn task_row_checked_at(
    t: &Task,
    selected: bool,
    focused: bool,
    width: u16,
    project: Option<&Project>,
    clock: Clock,
) -> (r: Option<TaskRow>)
    requires
        clock.wf(),
    ensures
        r is Some <==> row_cuttable(*t, width as int, project_value(project), clock),
        r matches Some(row) ==> shows_row(
            row,
            *t,
            selected,
            focused,
            width as int,
            project_value(project),
            clock,
        ),
{
    let (_, joined, _, title_width) = row_columns(t, width, project, clock);
    if !can_shorten(&joined, 20) {
        return None;
    }
    let title_chars = chars_of_string(&t.title);
    if !can_shorten(&title_chars, title_width) {
        return None;
    }
    Some(task_row_at(t, selected, focused, width, project, clock))
}

/// Where the task list was last drawn, used to aim animations at rows.
#[derive(Debug, Clone)]
pub struct ListRenderInfo {
    /// The content area of the list (without its title)
    pub content_area: Area,
    /// How many rows the list is scrolled by
    pub scroll_offset: usize,
    /// Task identifiers in visible order
    pub task_ids: Vec<String>,
}

/// The row of the list that shows task `index`, if it is on screen: rows
/// count from the scroll offset and wrap at 65536, as a `u16` does.
pub open spec fn row_area(info: ListRenderInfo, index: int) -> Option<Area> {
    if index < info.scroll_offset {
        None
    } else {
        let row = (index - info.scroll_offset) % 65536;
        if row >= info.content_area.height {
            None
        } else {
            Some(
                Area {
                    x: info.content_area.x,
                    y: (info.content_area.y + row) as u16,
                    width: info.content_area.width,
                    height: 1,
                },
            )
        }
    }
}

/// The first position of `id` in `ids`, if any.
pub open spec fn position_of(ids: Seq<String>, id: Seq<char>) -> Option<int> {
    if exists|i: int| 0 <= i < ids.len() && (#[trigger] ids[i])@ == id {
        Some(choose|i: int| 0 <= i < ids.len() && (#[trigger] ids[i])@ == id && forall|j: int| 0 <= j < i ==> (#[trigger] ids[j])@ != id)
    } else {
        None
    }
}

impl ListRenderInfo {
    /// The rows of the content area end within the terminal's coordinates.
    pub open spec fn wf(&self) -> bool {
        self.content_area.y + self.content_area.height <= 65536
    }

    /// Calculates the screen area of the task at `task_index`, or `None` when
    /// it is not on screen.
    pub fn task_row_rect(&self, task_index: usize) -> (r: Option<Area>)
        requires
            self.wf(),
        ensures
            r == row_area(*self, task_index as int),
    {
        if task_index < self.scroll_offset {
            return None;
        }
        let row_in_view = task_index - self.scroll_offset;
        let row: u16 = (row_in_view % 65536) as u16;
        if row >= self.content_area.height {
            return None;
        }
        Some(
            Area {
                x: self.content_area.x,
                y: self.content_area.y + row,
                width: self.content_area.width,
                height: 1,
            },
        )
    }

    /// Finds the screen area of the task with identifier `task_id`.
    pub fn find_task_rect(&self, task_id: &str) -> (r: Option<Area>)
        requires
            self.wf(),
        ensures
            r == match position_of(self.task_ids@, task_id@) {
                Some(i) => row_area(*self, i),
                None => None,
            },
    {
        let id = chars_of(task_id);
        let mut i: usize = 0;
        while i < self.task_ids.len()
            invariant
                i <= self.task_ids@.len(),
                self.wf(),
                id@ == task_id@,
                forall|j: int| 0 <= j < i ==> (#[trigger] self.task_ids@[j])@ != task_id@,
            decreases self.task_ids@.len() - i,
        {
            let c = chars_of_string(&self.task_ids[i]);
            if crate::text::same_chars(&c, &id) {
                proof {
                    let k = choose|k: int|
                        0 <= k < self.task_ids@.len() && (#[trigger] self.task_ids@[k])@ == task_id@
                            && forall|j: int| 0 <= j < k ==> (#[trigger] self.task_ids@[j])@ != task_id@;
                    if k < i {
                    } else if k > i {
                        assert(self.task_ids@[i as int]@ == task_id@);
                    }
                    assert(k == i);
                }
                return self.task_row_rect(i);
            }
            i = i + 1;
        }
        None
    }
}

} // verus!
