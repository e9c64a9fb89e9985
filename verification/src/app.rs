//! Application state.
//!
//! [`App`] holds everything the interface shows: the tasks, projects and
//! tags as last loaded from storage, the view and panel in use, the
//! selection, the filter and sort order, the input line, the open dialog
//! and the status message. Every change to it goes through the methods
//! here and in [`crate::handlers`]; storage work is described by
//! [`crate::handlers::StoreOp`] values and performed by the caller.
use vstd::prelude::*;
use crate::models::filter::{Filter, SortOrder, filter_matches, sorted_tasks};
use crate::models::priority::Priority;
use crate::models::project::Project;
use crate::models::task::{Task, TaskStatus, overdue_at, due_today_at};
use crate::storage::tags::Tag;
use crate::ui::calendar::CalendarState;
use crate::ui::dialogs::Dialog;
use crate::ui::search::SearchResult;
use crate::utils::datetime::Clock;
use crate::text::{string_from, views_of};

verus! {

/// How long a status message stays before it is cleared, in seconds.
pub const STATUS_MESSAGE_TIMEOUT_SECS: i64 = 3;

/// The same timeout in microseconds.
pub const STATUS_MESSAGE_TIMEOUT_MICROS: i64 = 3_000_000;

/// The screen being shown.
#[derive(Debug, Clone, Copy, PartialEq, Eq, Structural)]
pub enum Screen {
    /// Startup splash screen
    Splash,
    /// Main view with sidebar and task list
    Main,
    /// Detailed view of a single task
    TaskDetail,
    /// Calendar view showing tasks by date
    Calendar,
    /// Search results view
    Search,
    /// Help/keybindings view
    Help,
    /// Debug log viewer
    DebugLogs,
}

impl Default for Screen {
    fn default() -> (r: Self)
        ensures
            r == Screen::Splash,
    {
        Screen::Splash
    }
}

/// How keys are read.
#[derive(Debug, Clone, Copy, PartialEq, Eq, Structural)]
pub enum InputMode {
    /// Keys trigger commands
    Normal,
    /// Keys are typed into the input line
    Editing,
    /// Keys are typed into the search line
    Search,
}

impl Default for InputMode {
    fn default() -> (r: Self)
        ensures
            r == InputMode::Normal,
    {
        InputMode::Normal
    }
}

/// The panel that has the focus.
#[derive(Debug, Clone, Copy, PartialEq, Eq, Structural)]
pub enum FocusPanel {
    /// Projects sidebar
    Sidebar,
    /// Main task list
    TaskList,
}

impl Default for FocusPanel {
    fn default() -> (r: Self)
        ensures
            r == FocusPanel::TaskList,
    {
        FocusPanel::TaskList
    }
}

/// The project a sidebar position selects: position 0 is "All Tasks",
/// position `k` the `k`-th project; a position past the end selects none.
pub open spec fn project_scope(projects: Seq<Project>, idx: int) -> Option<Seq<char>> {
    if idx == 0 || idx - 1 >= projects.len() {
        None
    } else {
        Some(projects[idx - 1].id@)
    }
}

/// Whether `t` lies within the project `scope` (`None`: every task).
pub open spec fn in_scope(scope: Option<Seq<char>>, t: Task) -> bool {
    match scope {
        None => true,
        Some(id) => t.project_id matches Some(q) && q@ == id,
    }
}

/// Whether `t` is listed: inside the scope and passing the filter.
pub open spec fn listed(scope: Option<Seq<char>>, filter: Filter, clock: Clock, t: Task) -> bool {
    in_scope(scope, t) && filter_matches(filter, t, clock)
}

/// The selection kept valid for a list of `count` tasks: none when the
/// list is empty, the last task when it lay past the end, the first task
/// when there was none.
pub open spec fn adjusted(sel: Option<usize>, count: int) -> Option<usize> {
    if count == 0 {
        None
    } else {
        match sel {
            Some(i) => if i >= count {
                Some((count - 1) as usize)
            } else {
                Some(i)
            },
            None => Some(0),
        }
    }
}

/// The selection after moving down in a list of `count` tasks, wrapping
/// from the last task to the first.
pub open spec fn next_selection(sel: Option<usize>, count: int) -> Option<usize> {
    if count == 0 {
        None
    } else {
        match sel {
            Some(i) => if i >= count - 1 {
                Some(0)
            } else {
                Some((i + 1) as usize)
            },
            None => Some(0),
        }
    }
}

/// The selection after moving up in a list of `count` tasks, wrapping
/// from the first task to the last.
pub open spec fn prev_selection(sel: Option<usize>, count: int) -> Option<usize> {
    if count == 0 {
        None
    } else {
        match sel {
            Some(i) => if i == 0 {
                Some((count - 1) as usize)
            } else {
                Some((i - 1) as usize)
            },
            None => Some(0),
        }
    }
}

/// The first task, or none for an empty list.
pub open spec fn first_selection(count: int) -> Option<usize> {
    if count > 0 {
        Some(0)
    } else {
        None
    }
}

/// The filter after cycling: All, Pending, Completed, Due Today, Overdue,
/// and back to All; any other filter goes to All.
pub open spec fn cycled_filter(f: Filter) -> Filter {
    match f {
        Filter::All => Filter::Pending,
        Filter::Pending => Filter::Completed,
        Filter::Completed => Filter::DueToday,
        Filter::DueToday => Filter::Overdue,
        _ => Filter::All,
    }
}

/// The sort order after cycling: Due Date, Priority, Newest, A-Z, and back
/// to Due Date; any other order goes to Due Date.
pub open spec fn cycled_sort(s: SortOrder) -> SortOrder {
    match s {
        SortOrder::DueDateAsc => SortOrder::PriorityDesc,
        SortOrder::PriorityDesc => SortOrder::CreatedDesc,
        SortOrder::CreatedDesc => SortOrder::Alphabetical,
        _ => SortOrder::DueDateAsc,
    }
}

/// The whole state of the application.
pub struct App {
    /// All tasks loaded from storage
    pub tasks: Vec<Task>,
    /// All projects loaded from storage
    pub projects: Vec<Project>,
    /// All tags loaded from storage
    pub tags: Vec<Tag>,
    /// Current view being displayed
    pub current_view: Screen,
    /// Current input mode
    pub input_mode: InputMode,
    /// Which panel has focus
    pub focus: FocusPanel,
    /// Position of the selected task in the visible list
    pub selected_task_index: Option<usize>,
    /// Position selected in the sidebar (0 = "All Tasks")
    pub selected_project_index: usize,
    /// Current filter applied to the task list
    pub filter: Filter,
    /// Current sort order of the task list
    pub sort: SortOrder,
    /// Text typed in editing and search modes
    pub input_buffer: String,
    /// Cursor position in the input line, in characters
    pub input_cursor: usize,
    /// Whether the application should exit
    pub should_quit: bool,
    /// Status message to display
    pub status_message: Option<String>,
    /// When the status message was set, in microseconds since the epoch
    pub status_message_set_at: Option<i64>,
    /// Task being edited in the input line
    pub editing_task: Option<Task>,
    /// Currently open dialog
    pub dialog: Option<Dialog>,
    /// Search results
    pub search_results: Vec<SearchResult>,
    /// Selected position in the search results
    pub selected_search_index: usize,
    /// Calendar view state
    pub calendar_state: CalendarState,
    /// Whether animations run
    pub animations_enabled: bool,
    /// Whether the splash animation has been started
    pub splash_started: bool,
    /// Identifiers of tasks being removed once their animation ends (each once)
    pub dissolving_tasks: Vec<String>,
    /// Task to greet with the "new task" animation on the next frame
    pub pending_new_task_animation: Option<String>,
    /// Task to greet with the "completed" animation on the next frame
    pub pending_complete_animation: Option<String>,
    /// The time of the event being handled
    pub clock: Clock,
}

impl App {
    /// Well-formed: a valid clock, the input cursor within the input line,
    /// the open dialog and the calendar well-formed, and room in the
    /// sidebar for "All Tasks" beside the projects.
    pub open spec fn wf(&self) -> bool {
        &&& self.clock.wf()
        &&& self.projects@.len() < usize::MAX
        &&& self.input_cursor <= self.input_buffer@.len()
        &&& self.calendar_state.wf()
        &&& views_of(self.dissolving_tasks@).no_duplicates()
        &&& match self.dialog {
            Some(d) => d.wf(),
            None => true,
        }
    }

    /// The project the sidebar selects, if any.
    pub open spec fn scope(&self) -> Option<Seq<char>> {
        project_scope(self.projects@, self.selected_project_index as int)
    }

    /// The tasks that pass the project scope and the filter, in storage order.
    pub open spec fn candidates(&self) -> Seq<Task> {
        let scope = self.scope();
        let filter = self.filter;
        let clock = self.clock;
        self.tasks@.filter(|t: Task| listed(scope, filter, clock, t))
    }

    /// The tasks shown in the list: the candidates, sorted stably.
    pub open spec fn visible(&self) -> Seq<Task> {
        sorted_tasks(self.sort, self.candidates())
    }

    /// The tasks of the selected project (all tasks for "All Tasks").
    pub open spec fn scoped_tasks(&self) -> Seq<Task> {
        let scope = self.scope();
        self.tasks@.filter(|t: Task| in_scope(scope, t))
    }
}

/// The project a sidebar position selects, as characters.
pub open spec fn scope_view(s: Option<&String>) -> Option<Seq<char>> {
    match s {
        Some(id) => Some(id@),
        None => None,
    }
}

/// Whether `t` lies within the project `scope`.
fn in_scope_of(scope: Option<&String>, t: &Task) -> (r: bool)
    ensures
        r == in_scope(scope_view(scope), *t),
{
    match scope {
        None => true,
        Some(id) => match &t.project_id {
            Some(q) => *q == *id,
            None => false,
        },
    }
}

impl App {
    /// A fresh state at the time of `clock`, before any data is loaded: the
    /// splash screen, normal mode, focus on the task list, the Pending filter
    /// and the due-date order.
    pub fn new(clock: Clock) -> (r: App)
        requires
            clock.wf(),
        ensures
            r.wf(),
            r.tasks@.len() == 0,
            r.projects@.len() == 0,
            r.tags@.len() == 0,
            r.current_view == Screen::Splash,
            r.input_mode == InputMode::Normal,
            r.focus == FocusPanel::TaskList,
            r.selected_task_index is None,
            r.selected_project_index == 0,
            r.filter is Pending,
            r.sort == SortOrder::DueDateAsc,
            r.input_buffer@.len() == 0,
            r.input_cursor == 0,
            !r.should_quit,
            r.status_message is None,
            r.status_message_set_at is None,
            r.editing_task is None,
            r.dialog is None,
            r.search_results@.len() == 0,
            r.selected_search_index == 0,
            r.calendar_state == crate::ui::calendar::calendar_on(clock.today()),
            r.animations_enabled,
            !r.splash_started,
            r.dissolving_tasks@.len() == 0,
            r.pending_new_task_animation is None,
            r.pending_complete_animation is None,
            r.clock == clock,
    {
        App {
            tasks: Vec::new(),
            projects: Vec::new(),
            tags: Vec::new(),
            current_view: Screen::Splash,
            input_mode: InputMode::Normal,
            focus: FocusPanel::TaskList,
            selected_task_index: None,
            selected_project_index: 0,
            filter: Filter::Pending,
            sort: SortOrder::DueDateAsc,
            input_buffer: String::new(),
            input_cursor: 0,
            should_quit: false,
            status_message: None,
            status_message_set_at: None,
            editing_task: None,
            dialog: None,
            search_results: Vec::new(),
            selected_search_index: 0,
            calendar_state: CalendarState::new_at(clock),
            animations_enabled: true,
            splash_started: false,
            dissolving_tasks: Vec::new(),
            pending_new_task_animation: None,
            pending_complete_animation: None,
            clock,
        }
    }

    /// Turns animations off and skips the splash screen.
    pub fn disable_animations(&mut self)
        ensures
            *final(self) == (App {
                animations_enabled: false,
                current_view: Screen::Main,
                ..*old(self)
            }),
    {
        self.animations_enabled = false;
        self.current_view = Screen::Main;
    }

    /// Sets the time of the event being handled.
    pub fn set_clock(&mut self, clock: Clock)
        ensures
            *final(self) == (App { clock, ..*old(self) }),
    {
        self.clock = clock;
    }

    /// The identifier of the project the sidebar selects, if any.
    fn scope_id(&self) -> (r: Option<&String>)
        ensures
            scope_view(r) == self.scope(),
    {
        if self.selected_project_index == 0 {
            None
        } else if self.selected_project_index - 1 < self.projects.len() {
            Some(&self.projects[self.selected_project_index - 1].id)
        } else {
            None
        }
    }

    /// The tasks shown in the list: those of the selected project that pass
    /// the filter, sorted stably by the sort order.
    pub fn visible_tasks(&self) -> (r: Vec<&Task>)
        requires
            self.clock.wf(),
        ensures
            r@.map_values(|t: &Task| *t) == self.visible(),
    {
        let scope = self.scope_id();
        let ghost sc = self.scope();
        let ghost filter = self.filter;
        let ghost clock = self.clock;
        let ghost pred = |t: Task| listed(sc, filter, clock, t);
        let mut r: Vec<&Task> = Vec::new();
        let mut i: usize = 0;
        while i < self.tasks.len()
            invariant
                i <= self.tasks@.len(),
                self.clock.wf(),
                scope_view(scope) == sc,
                filter == self.filter,
                clock == self.clock,
                pred == (|t: Task| listed(sc, filter, clock, t)),
                r@.map_values(|t: &Task| *t) == self.tasks@.take(i as int).filter(pred),
            decreases self.tasks@.len() - i,
        {
            let ghost before = r@;
            let t = &self.tasks[i];
            if in_scope_of(scope, t) && self.filter.matches_at(t, self.clock) {
                r.push(t);
                assert(r@.map_values(|t: &Task| *t) =~= before.map_values(|t: &Task| *t).push(
                    self.tasks@[i as int],
                ));
            }
            proof {
                assert(self.tasks@.take(i + 1) =~= self.tasks@.take(i as int).push(
                    self.tasks@[i as int],
                ));
                self.tasks@.take(i as int).lemma_filter_push(self.tasks@[i as int], pred);
            }
            i = i + 1;
        }
        assert(self.tasks@.take(self.tasks@.len() as int) =~= self.tasks@);
        assert(r@.map_values(|t: &Task| *t) == self.candidates());
        self.sort.apply(&mut r);
        r
    }

    /// The number of tasks shown in the list.
    pub fn visible_count(&self) -> (r: usize)
        requires
            self.clock.wf(),
        ensures
            r == self.visible().len(),
    {
        let v = self.visible_tasks();
        v.len()
    }

    /// The selected task, if the selection lies within the list.
    pub fn selected_task(&self) -> (r: Option<&Task>)
        requires
            self.clock.wf(),
        ensures
            r is Some <==> (self.selected_task_index matches Some(i) && i < self.visible().len()),
            r matches Some(t) ==> *t == self.visible()[self.selected_task_index->0 as int],
    {
        let v = self.visible_tasks();
        match self.selected_task_index {
            Some(i) => if i < v.len() {
                Some(v[i])
            } else {
                None
            },
            None => None,
        }
    }

    /// Keeps the selection within the list after the tasks changed.
    pub fn adjust_task_selection(&mut self)
        requires
            old(self).clock.wf(),
        ensures
            *final(self) == (App {
                selected_task_index: adjusted(
                    old(self).selected_task_index,
                    old(self).visible().len() as int,
                ),
                ..*old(self)
            }),
    {
        let count = self.visible_count();
        if count == 0 {
            self.selected_task_index = None;
        } else {
            match self.selected_task_index {
                Some(idx) => {
                    if idx >= count {
                        self.selected_task_index = Some(count - 1);
                    }
                },
                None => {
                    self.selected_task_index = Some(0);
                },
            }
        }
    }

    /// Replaces the data with what was loaded from storage and keeps the
    /// selection within the new list.
    pub fn load_data(&mut self, tasks: Vec<Task>, projects: Vec<Project>, tags: Vec<Tag>)
        requires
            old(self).clock.wf(),
        ensures
            old(self).wf() && projects@.len() < usize::MAX ==> final(self).wf(),
            final(self).tasks == tasks,
            final(self).projects == projects,
            final(self).tags == tags,
            final(self).selected_task_index == adjusted(
                old(self).selected_task_index,
                final(self).visible().len() as int,
            ),
            *final(self) == (App {
                tasks,
                projects,
                tags,
                selected_task_index: final(self).selected_task_index,
                ..*old(self)
            }),
    {
        self.tasks = tasks;
        self.projects = projects;
        self.tags = tags;
        self.adjust_task_selection();
    }

    /// Moves the selection down, wrapping from the last task to the first.
    pub fn select_next_task(&mut self)
        requires
            old(self).clock.wf(),
        ensures
            *final(self) == (App {
                selected_task_index: next_selection(
                    old(self).selected_task_index,
                    old(self).visible().len() as int,
                ),
                ..*old(self)
            }),
    {
        let count = self.visible_count();
        if count == 0 {
            self.selected_task_index = None;
            return ;
        }
        self.selected_task_index = Some(
            match self.selected_task_index {
                Some(i) => if i >= count - 1 {
                    0
                } else {
                    i + 1
                },
                None => 0,
            },
        );
    }

    /// Moves the selection up, wrapping from the first task to the last.
    pub fn select_previous_task(&mut self)
        requires
            old(self).clock.wf(),
        ensures
            *final(self) == (App {
                selected_task_index: prev_selection(
                    old(self).selected_task_index,
                    old(self).visible().len() as int,
                ),
                ..*old(self)
            }),
    {
        let count = self.visible_count();
        if count == 0 {
            self.selected_task_index = None;
            return ;
        }
        self.selected_task_index = Some(
            match self.selected_task_index {
                Some(i) => if i == 0 {
                    count - 1
                } else {
                    i - 1
                },
                None => 0,
            },
        );
    }

    /// Selects the first task of the list, or none when it is empty.
    pub fn update_task_selection(&mut self)
        requires
            old(self).clock.wf(),
        ensures
            *final(self) == (App {
                selected_task_index: first_selection(old(self).visible().len() as int),
                ..*old(self)
            }),
    {
        let count = self.visible_count();
        self.selected_task_index = if count > 0 {
            Some(0)
        } else {
            None
        };
    }

    /// Moves the sidebar selection down, wrapping after the last project,
    /// and selects the first task of the new list.
    pub fn select_next_project(&mut self)
        requires
            old(self).clock.wf(),
            old(self).projects@.len() < usize::MAX,
        ensures
            final(self).selected_project_index as int == (old(self).selected_project_index as int
                + 1) % (old(self).projects@.len() as int + 1),
            final(self).selected_task_index == first_selection(final(self).visible().len() as int),
            *final(self) == (App {
                selected_project_index: final(self).selected_project_index,
                selected_task_index: final(self).selected_task_index,
                ..*old(self)
            }),
    {
        let count = self.projects.len() + 1;
        let idx = self.selected_project_index;
        assert(((idx as int % count as int) + 1) % (count as int) == (idx as int + 1) % (
        count as int)) by (nonlinear_arith)
            requires
                count > 0,
        ;
        self.selected_project_index = ((idx % count) + 1) % count;
        self.update_task_selection();
    }

    /// Moves the sidebar selection up, wrapping from "All Tasks" to the
    /// last project, and selects the first task of the new list.
    pub fn select_previous_project(&mut self)
        requires
            old(self).clock.wf(),
            old(self).projects@.len() < usize::MAX,
        ensures
            final(self).selected_project_index == if old(self).selected_project_index == 0 {
                old(self).projects@.len()
            } else {
                (old(self).selected_project_index - 1) as nat
            },
            final(self).selected_task_index == first_selection(final(self).visible().len() as int),
            *final(self) == (App {
                selected_project_index: final(self).selected_project_index,
                selected_task_index: final(self).selected_task_index,
                ..*old(self)
            }),
    {
        let count = self.projects.len() + 1;
        if self.selected_project_index == 0 {
            self.selected_project_index = count - 1;
        } else {
            self.selected_project_index = self.selected_project_index - 1;
        }
        self.update_task_selection();
    }

    /// Switches the focus between the sidebar and the task list.
    pub fn toggle_focus(&mut self)
        ensures
            *final(self) == (App {
                focus: match old(self).focus {
                    FocusPanel::Sidebar => FocusPanel::TaskList,
                    FocusPanel::TaskList => FocusPanel::Sidebar,
                },
                ..*old(self)
            }),
    {
        self.focus = match self.focus {
            FocusPanel::Sidebar => FocusPanel::TaskList,
            FocusPanel::TaskList => FocusPanel::Sidebar,
        };
    }

    /// Shows `message` in the status bar from now on.
    pub fn set_status(&mut self, message: &str)
        ensures
            final(self).status_message matches Some(m) && m@ == message@,
            *final(self) == (App {
                status_message: final(self).status_message,
                status_message_set_at: Some(old(self).clock.now),
                ..*old(self)
            }),
    {
        self.status_message = Some(string_from(message));
        self.status_message_set_at = Some(self.clock.now);
    }

    /// Shows `message` in the status bar from now on.
    pub fn set_status_string(&mut self, message: String)
        ensures
            *final(self) == (App {
                status_message: Some(message),
                status_message_set_at: Some(old(self).clock.now),
                ..*old(self)
            }),
    {
        self.status_message = Some(message);
        self.status_message_set_at = Some(self.clock.now);
    }

    /// Clears the status message.
    pub fn clear_status(&mut self)
        ensures
            *final(self) == (App {
                status_message: None,
                status_message_set_at: None,
                ..*old(self)
            }),
    {
        self.status_message = None;
        self.status_message_set_at = None;
    }

    /// Cycles the filter (see [`cycled_filter`]) and selects the first task
    /// of the new list.
    pub fn cycle_filter(&mut self)
        requires
            old(self).clock.wf(),
        ensures
            final(self).filter == cycled_filter(old(self).filter),
            final(self).selected_task_index == first_selection(final(self).visible().len() as int),
            *final(self) == (App {
                filter: final(self).filter,
                selected_task_index: final(self).selected_task_index,
                ..*old(self)
            }),
    {
        self.filter = match self.filter {
            Filter::All => Filter::Pending,
            Filter::Pending => Filter::Completed,
            Filter::Completed => Filter::DueToday,
            Filter::DueToday => Filter::Overdue,
            _ => Filter::All,
        };
        self.update_task_selection();
    }

    /// Cycles the sort order (see [`cycled_sort`]).
    pub fn cycle_sort(&mut self)
        ensures
            *final(self) == (App { sort: cycled_sort(old(self).sort), ..*old(self) }),
    {
        self.sort = match self.sort {
            SortOrder::DueDateAsc => SortOrder::PriorityDesc,
            SortOrder::PriorityDesc => SortOrder::CreatedDesc,
            SortOrder::CreatedDesc => SortOrder::Alphabetical,
            _ => SortOrder::DueDateAsc,
        };
    }
}

/// Whether a task with identifier `id` is among `ids`.
pub open spec fn id_listed(ids: Seq<String>, id: Seq<char>) -> bool {
    exists|j: int| 0 <= j < ids.len() && (#[trigger] ids[j])@ == id
}

/// Whether `id` is among `ids`.
fn id_listed_in(ids: &Vec<String>, id: &String) -> (r: bool)
    ensures
        r == id_listed(ids@, id@),
{
    let mut j: usize = 0;
    while j < ids.len()
        invariant
            j <= ids@.len(),
            forall|k: int| 0 <= k < j ==> (#[trigger] ids@[k])@ != id@,
        decreases ids@.len() - j,
    {
        if ids[j] == *id {
            return true;
        }
        j = j + 1;
    }
    false
}

/// The tasks of `v` whose identifiers are not among `ids`, in their order.
fn without_ids(v: Vec<Task>, ids: &Vec<String>) -> (r: Vec<Task>)
    ensures
        r@ == v@.filter(|t: Task| !id_listed(ids@, t.id@)),
{
    let ghost orig = v@;
    let ghost pred = |t: Task| !id_listed(ids@, t.id@);
    let mut rest = v;
    let mut out: Vec<Task> = Vec::new();
    let ghost mut k: int = 0;
    while rest.len() > 0
        invariant
            0 <= k <= orig.len(),
            rest@ == orig.skip(k),
            pred == (|t: Task| !id_listed(ids@, t.id@)),
            out@ == orig.take(k).filter(pred),
        decreases rest@.len(),
    {
        let t = rest.remove(0);
        proof {
            assert(orig.take(k + 1) =~= orig.take(k).push(orig[k]));
            orig.take(k).lemma_filter_push(orig[k], pred);
            assert(orig.skip(k + 1) =~= orig.skip(k).subrange(1, orig.skip(k).len() as int));
        }
        if !id_listed_in(ids, &t.id) {
            out.push(t);
        }
        proof {
            k = k + 1;
        }
    }
    assert(orig.take(k) =~= orig);
    out
}

/// Whether the status message has been shown for its whole time.
pub open spec fn status_expired(app: App) -> bool {
    app.status_message_set_at matches Some(t) && app.clock.now - t >= STATUS_MESSAGE_TIMEOUT_MICROS
}

/// Whether `t` is the first task of `s` with identifier `id`.
pub open spec fn first_with_id(s: Seq<Task>, id: Seq<char>, i: int) -> bool {
    &&& 0 <= i < s.len()
    &&& s[i].id@ == id
    &&& forall|j: int| 0 <= j < i ==> (#[trigger] s[j]).id@ != id
}

/// What a task count counts.
#[derive(Clone, Copy, PartialEq, Eq, Structural)]
enum Tally {
    Project,
    Tag,
    NotArchived,
    Overdue,
    DueToday,
    InProgress,
    Completed,
}

/// Whether `t` counts toward tally `k` (`key`: the project or tag).
spec fn tallied(k: Tally, key: Seq<char>, clock: Clock, t: Task) -> bool {
    match k {
        Tally::Project => (t.project_id matches Some(p) && p@ == key) && t.status
            != TaskStatus::Archived,
        Tally::Tag => crate::models::filter::has_tag(t, key) && t.status != TaskStatus::Archived,
        Tally::NotArchived => t.status != TaskStatus::Archived,
        Tally::Overdue => overdue_at(t, clock.now as int),
        Tally::DueToday => due_today_at(t, clock) && t.status != TaskStatus::Completed,
        Tally::InProgress => t.status == TaskStatus::InProgress,
        Tally::Completed => t.status == TaskStatus::Completed,
    }
}

/// Whether `t` counts toward tally `k`.
fn tallies(k: Tally, key: &String, clock: Clock, t: &Task) -> (r: bool)
    requires
        clock.wf(),
    ensures
        r == tallied(k, key@, clock, *t),
{
    match k {
        Tally::Project => (match &t.project_id {
            Some(p) => *p == *key,
            None => false,
        }) && t.status != TaskStatus::Archived,
        Tally::Tag => crate::models::filter::task_has_tag(t, key) && t.status
            != TaskStatus::Archived,
        Tally::NotArchived => t.status != TaskStatus::Archived,
        Tally::Overdue => t.is_overdue_at(clock.now),
        Tally::DueToday => t.is_due_today_at(clock) && t.status != TaskStatus::Completed,
        Tally::InProgress => t.status == TaskStatus::InProgress,
        Tally::Completed => t.status == TaskStatus::Completed,
    }
}

/// The number of tasks that count toward tally `k`.
fn tally(tasks: &Vec<Task>, k: Tally, key: &String, clock: Clock) -> (r: usize)
    requires
        clock.wf(),
    ensures
        r == tasks@.filter(|t: Task| tallied(k, key@, clock, t)).len(),
{
    let ghost pred = |t: Task| tallied(k, key@, clock, t);
    let mut n: usize = 0;
    let mut i: usize = 0;
    while i < tasks.len()
        invariant
            i <= tasks@.len(),
            clock.wf(),
            pred == (|t: Task| tallied(k, key@, clock, t)),
            n == tasks@.take(i as int).filter(pred).len(),
        decreases tasks@.len() - i,
    {
        proof {
            assert(tasks@.take(i + 1) =~= tasks@.take(i as int).push(tasks@[i as int]));
            tasks@.take(i as int).lemma_filter_push(tasks@[i as int], pred);
            broadcast use vstd::seq_lib::group_filter_ensures;
        }
        if tallies(k, key, clock, &tasks[i]) {
            n = n + 1;
        }
        i = i + 1;
    }
    assert(tasks@.take(tasks@.len() as int) =~= tasks@);
    n
}

/// How a tick changes the state: the status message is cleared once shown
/// for its time; the splash screen gives way to the main view once its
/// animation ended; tasks waiting for their removal animation are removed
/// once no animation runs.
pub open spec fn ticked(o: App, n: App, effects_active: bool) -> bool {
    &&& (n.status_message == if status_expired(o) {
                None
            } else {
                o.status_message
            })
    &&& (n.status_message_set_at == if status_expired(o) {
                None
            } else {
                o.status_message_set_at
            })
    &&& (n.current_view == if o.current_view == Screen::Splash && o.splash_started && !effects_active {
                Screen::Main
            } else {
                o.current_view
            })
    &&& (if o.dissolving_tasks@.len() > 0 && !effects_active {
                &&& n.tasks@ == o.tasks@.filter(
                    |t: Task| !id_listed(o.dissolving_tasks@, t.id@),
                )
                &&& n.dissolving_tasks@.len() == 0
                &&& n.selected_task_index == adjusted(
                    o.selected_task_index,
                    n.visible().len() as int,
                )
            } else {
                &&& n.tasks == o.tasks
                &&& n.dissolving_tasks == o.dissolving_tasks
                &&& n.selected_task_index == o.selected_task_index
            })
    &&& (n == (App {
                status_message: n.status_message,
                status_message_set_at: n.status_message_set_at,
                current_view: n.current_view,
                tasks: n.tasks,
                dissolving_tasks: n.dissolving_tasks,
                selected_task_index: n.selected_task_index,
                ..o
            }))
}

impl App {
    /// Replaces the first task with the identifier of `task` by `task`
    /// (nothing changes when there is none), then keeps the selection
    /// within the list.
    pub fn update_task_in_place(&mut self, task: Task)
        requires
            old(self).clock.wf(),
        ensures
            (exists|i: int|
                first_with_id(old(self).tasks@, task.id@, i) && final(self).tasks@ == old(
                    self,
                ).tasks@.update(i, task)) || ((forall|i: int|
                0 <= i < old(self).tasks@.len() ==> (#[trigger] old(self).tasks@[i]).id@
                    != task.id@) && final(self).tasks@ == old(self).tasks@),
            final(self).selected_task_index == adjusted(
                old(self).selected_task_index,
                final(self).visible().len() as int,
            ),
            *final(self) == (App {
                tasks: final(self).tasks,
                selected_task_index: final(self).selected_task_index,
                ..*old(self)
            }),
    {
        let mut i: usize = 0;
        while i < self.tasks.len() && !(self.tasks[i].id == task.id)
            invariant
                i <= self.tasks@.len(),
                self.tasks == old(self).tasks,
                forall|j: int| 0 <= j < i ==> (#[trigger] self.tasks@[j]).id@ != task.id@,
            decreases self.tasks@.len() - i,
        {
            i = i + 1;
        }
        if i < self.tasks.len() {
            assert(first_with_id(self.tasks@, task.id@, i as int));
            self.tasks.set(i, task);
        }
        self.adjust_task_selection();
    }

    /// Removes the tasks with identifier `task_id`, then keeps the
    /// selection within the list.
    pub fn remove_task_in_place(&mut self, task_id: &str)
        requires
            old(self).clock.wf(),
        ensures
            final(self).tasks@ == old(self).tasks@.filter(|t: Task| t.id@ != task_id@),
            final(self).selected_task_index == adjusted(
                old(self).selected_task_index,
                final(self).visible().len() as int,
            ),
            *final(self) == (App {
                tasks: final(self).tasks,
                selected_task_index: final(self).selected_task_index,
                ..*old(self)
            }),
    {
        let mut ids: Vec<String> = Vec::new();
        ids.push(string_from(task_id));
        let mut tasks: Vec<Task> = Vec::new();
        std::mem::swap(&mut tasks, &mut self.tasks);
        let kept = without_ids(tasks, &ids);
        proof {
            assert forall|t: Task| #[trigger] id_listed(ids@, t.id@) == (t.id@ == task_id@) by {
                if t.id@ == task_id@ {
                    assert(ids@[0]@ == t.id@);
                }
            }
            assert((|t: Task| !id_listed(ids@, t.id@)) =~= (|t: Task| t.id@ != task_id@));
        }
        self.tasks = kept;
        self.adjust_task_selection();
    }

    /// Puts `task` at the front of the tasks, then keeps the selection
    /// within the list.
    pub fn add_task_in_place(&mut self, task: Task)
        requires
            old(self).clock.wf(),
        ensures
            final(self).tasks@ == seq![task] + old(self).tasks@,
            final(self).selected_task_index == adjusted(
                old(self).selected_task_index,
                final(self).visible().len() as int,
            ),
            *final(self) == (App {
                tasks: final(self).tasks,
                selected_task_index: final(self).selected_task_index,
                ..*old(self)
            }),
    {
        self.tasks.insert(0, task);
        assert(self.tasks@ =~= seq![task] + old(self).tasks@);
        self.adjust_task_selection();
    }

    /// Time-based updates: the status message is cleared once shown for
    /// its time; the splash screen gives way to the main view once its
    /// animation ended; tasks waiting for their removal animation are
    /// removed once no animation runs. `effects_active` tells whether an
    /// animation is running.
    pub fn on_tick(&mut self, effects_active: bool)
        requires
            old(self).clock.wf(),
        ensures
            final(self).wf() <== old(self).wf(),
            ticked(*old(self), *final(self), effects_active),

    {
        match self.status_message_set_at {
            Some(set_at) => {
                if (self.clock.now as i128) - (set_at as i128) >= (
                STATUS_MESSAGE_TIMEOUT_MICROS as i128) {
                    self.clear_status();
                }
            },
            None => {},
        }
        if self.current_view == Screen::Splash && self.splash_started && !effects_active {
            self.current_view = Screen::Main;
        }
        if self.dissolving_tasks.len() > 0 && !effects_active {
            let mut ids: Vec<String> = Vec::new();
            std::mem::swap(&mut ids, &mut self.dissolving_tasks);
            let mut tasks: Vec<Task> = Vec::new();
            std::mem::swap(&mut tasks, &mut self.tasks);
            self.tasks = without_ids(tasks, &ids);
            self.adjust_task_selection();
        }
    }

    /// The number of tasks of project `project_id` that are not archived.
    pub fn task_count_for_project(&self, project_id: &str) -> (r: usize)
        requires
            self.clock.wf(),
        ensures
            r == self.tasks@.filter(
                |t: Task| (t.project_id matches Some(p) && p@ == project_id@) && t.status
                    != TaskStatus::Archived,
            ).len(),
    {
        let key = string_from(project_id);
        let r = tally(&self.tasks, Tally::Project, &key, self.clock);
        assert((|t: Task| tallied(Tally::Project, key@, self.clock, t)) =~= (|t: Task|
            (t.project_id matches Some(p) && p@ == project_id@) && t.status
                != TaskStatus::Archived));
        r
    }

    /// The number of tasks that are not archived.
    pub fn total_task_count(&self) -> (r: usize)
        requires
            self.clock.wf(),
        ensures
            r == self.tasks@.filter(|t: Task| t.status != TaskStatus::Archived).len(),
    {
        let key = String::new();
        let r = tally(&self.tasks, Tally::NotArchived, &key, self.clock);
        assert((|t: Task| tallied(Tally::NotArchived, key@, self.clock, t)) =~= (|t: Task|
            t.status != TaskStatus::Archived));
        r
    }

    /// The number of overdue tasks.
    pub fn overdue_count(&self) -> (r: usize)
        requires
            self.clock.wf(),
        ensures
            r == self.tasks@.filter(|t: Task| overdue_at(t, self.clock.now as int)).len(),
    {
        let key = String::new();
        let r = tally(&self.tasks, Tally::Overdue, &key, self.clock);
        assert((|t: Task| tallied(Tally::Overdue, key@, self.clock, t)) =~= (|t: Task|
            overdue_at(t, self.clock.now as int)));
        r
    }

    /// The number of tasks due today that are not completed.
    pub fn due_today_count(&self) -> (r: usize)
        requires
            self.clock.wf(),
        ensures
            r == self.tasks@.filter(
                |t: Task| due_today_at(t, self.clock) && t.status != TaskStatus::Completed,
            ).len(),
    {
        let key = String::new();
        let r = tally(&self.tasks, Tally::DueToday, &key, self.clock);
        assert((|t: Task| tallied(Tally::DueToday, key@, self.clock, t)) =~= (|t: Task|
            due_today_at(t, self.clock) && t.status != TaskStatus::Completed));
        r
    }

    /// The number of tasks in progress.
    pub fn in_progress_count(&self) -> (r: usize)
        requires
            self.clock.wf(),
        ensures
            r == self.tasks@.filter(|t: Task| t.status == TaskStatus::InProgress).len(),
    {
        let key = String::new();
        let r = tally(&self.tasks, Tally::InProgress, &key, self.clock);
        assert((|t: Task| tallied(Tally::InProgress, key@, self.clock, t)) =~= (|t: Task|
            t.status == TaskStatus::InProgress));
        r
    }

    /// The number of completed tasks.
    pub fn completed_count(&self) -> (r: usize)
        requires
            self.clock.wf(),
        ensures
            r == self.tasks@.filter(|t: Task| t.status == TaskStatus::Completed).len(),
    {
        let key = String::new();
        let r = tally(&self.tasks, Tally::Completed, &key, self.clock);
        assert((|t: Task| tallied(Tally::Completed, key@, self.clock, t)) =~= (|t: Task|
            t.status == TaskStatus::Completed));
        r
    }

    /// The number of tasks tagged `tag_name` that are not archived.
    pub fn task_count_for_tag(&self, tag_name: &str) -> (r: usize)
        requires
            self.clock.wf(),
        ensures
            r == self.tasks@.filter(
                |t: Task| crate::models::filter::has_tag(t, tag_name@) && t.status
                    != TaskStatus::Archived,
            ).len(),
    {
        let key = string_from(tag_name);
        let r = tally(&self.tasks, Tally::Tag, &key, self.clock);
        assert((|t: Task| tallied(Tally::Tag, key@, self.clock, t)) =~= (|t: Task|
            crate::models::filter::has_tag(t, tag_name@) && t.status != TaskStatus::Archived));
        r
    }

    /// The tasks of the selected project (all tasks for "All Tasks", or
    /// when the sidebar position lies past the projects), in their order.
    pub fn project_tasks(&self) -> (r: Vec<&Task>)
        ensures
            r@.map_values(|t: &Task| *t) == self.scoped_tasks(),
    {
        let scope = self.scope_id();
        let ghost sc = self.scope();
        let ghost pred = |t: Task| in_scope(sc, t);
        let mut r: Vec<&Task> = Vec::new();
        let mut i: usize = 0;
        while i < self.tasks.len()
            invariant
                i <= self.tasks@.len(),
                scope_view(scope) == sc,
                sc == self.scope(),
                pred == (|t: Task| in_scope(sc, t)),
                r@.map_values(|t: &Task| *t) == self.tasks@.take(i as int).filter(pred),
            decreases self.tasks@.len() - i,
        {
            let ghost before = r@;
            let t = &self.tasks[i];
            if in_scope_of(scope, t) {
                r.push(t);
                assert(r@.map_values(|t: &Task| *t) =~= before.map_values(|t: &Task| *t).push(
                    self.tasks@[i as int],
                ));
            }
            proof {
                assert(self.tasks@.take(i + 1) =~= self.tasks@.take(i as int).push(
                    self.tasks@[i as int],
                ));
                self.tasks@.take(i as int).lemma_filter_push(self.tasks@[i as int], pred);
            }
            i = i + 1;
        }
        assert(self.tasks@.take(self.tasks@.len() as int) =~= self.tasks@);
        r
    }

    /// The selected project; none for "All Tasks" or a position past the
    /// projects.
    pub fn selected_project(&self) -> (r: Option<&Project>)
        ensures
            r is Some <==> 0 < self.selected_project_index <= self.projects@.len(),
            r matches Some(p) ==> *p == self.projects@[self.selected_project_index - 1],
    {
        if self.selected_project_index == 0 {
            None
        } else if self.selected_project_index - 1 < self.projects.len() {
            Some(&self.projects[self.selected_project_index - 1])
        } else {
            None
        }
    }

    /// The name of the selected project, or "All Tasks".
    pub fn selected_project_name(&self) -> (r: &str)
        ensures
            r@ == if 0 < self.selected_project_index <= self.projects@.len() {
                self.projects@[self.selected_project_index - 1].name@
            } else {
                "All Tasks"@
            },
    {
        match self.selected_project() {
            Some(p) => p.name.as_str(),
            None => "All Tasks",
        }
    }

    /// The name shown for the current filter.
    pub fn filter_name(&self) -> (r: &'static str)
        ensures
            r@ == filter_title(self.filter),
    {
        match self.filter {
            Filter::All => "All",
            Filter::Pending => "Pending",
            Filter::InProgress => "In Progress",
            Filter::Completed => "Completed",
            Filter::Archived => "Archived",
            Filter::DueToday => "Due Today",
            Filter::DueThisWeek => "This Week",
            Filter::Overdue => "Overdue",
            Filter::ByProject(_) => "Project",
            Filter::ByTag(_) => "Tag",
            Filter::ByPriority(Priority::Low) => "Low Priority",
            Filter::ByPriority(Priority::Medium) => "Medium Priority",
            Filter::ByPriority(Priority::High) => "High Priority",
            Filter::ByPriority(Priority::Urgent) => "Urgent",
        }
    }

    /// The name shown for the current sort order.
    pub fn sort_name(&self) -> (r: &'static str)
        ensures
            r@ == sort_title(self.sort),
    {
        match self.sort {
            SortOrder::DueDateAsc => "Due Date ↑",
            SortOrder::DueDateDesc => "Due Date ↓",
            SortOrder::PriorityDesc => "Priority ↓",
            SortOrder::PriorityAsc => "Priority ↑",
            SortOrder::CreatedDesc => "Newest",
            SortOrder::CreatedAsc => "Oldest",
            SortOrder::Alphabetical => "A-Z",
        }
    }
}

/// The name shown for a filter.
pub open spec fn filter_title(f: Filter) -> Seq<char> {
    match f {
        Filter::All => "All"@,
        Filter::Pending => "Pending"@,
        Filter::InProgress => "In Progress"@,
        Filter::Completed => "Completed"@,
        Filter::Archived => "Archived"@,
        Filter::DueToday => "Due Today"@,
        Filter::DueThisWeek => "This Week"@,
        Filter::Overdue => "Overdue"@,
        Filter::ByProject(_) => "Project"@,
        Filter::ByTag(_) => "Tag"@,
        Filter::ByPriority(Priority::Low) => "Low Priority"@,
        Filter::ByPriority(Priority::Medium) => "Medium Priority"@,
        Filter::ByPriority(Priority::High) => "High Priority"@,
        Filter::ByPriority(Priority::Urgent) => "Urgent"@,
    }
}

/// The name shown for a sort order.
pub open spec fn sort_title(s: SortOrder) -> Seq<char> {
    match s {
        SortOrder::DueDateAsc => "Due Date ↑"@,
        SortOrder::DueDateDesc => "Due Date ↓"@,
        SortOrder::PriorityDesc => "Priority ↓"@,
        SortOrder::PriorityAsc => "Priority ↑"@,
        SortOrder::CreatedDesc => "Newest"@,
        SortOrder::CreatedAsc => "Oldest"@,
        SortOrder::Alphabetical => "A-Z"@,
    }
}

/// The sidebar position after moving down among `n` projects.
pub open spec fn next_project_index(idx: int, n: int) -> int {
    (idx + 1) % (n + 1)
}

/// The sidebar position after moving up among `n` projects.
pub open spec fn prev_project_index(idx: int, n: int) -> int {
    if idx == 0 {
        n
    } else {
        idx - 1
    }
}

/// The selection is kept within the list: it is empty exactly when the
/// list is, and otherwise names a task of the list. Moving up or down
/// keeps this too.
pub proof fn law_selection_in_bounds(sel: Option<usize>, count: int)
    requires
        0 <= count <= usize::MAX,
    ensures
        adjusted(sel, count) is None <==> count == 0,
        adjusted(sel, count) matches Some(i) ==> i < count,
        next_selection(sel, count) is None <==> count == 0,
        next_selection(sel, count) matches Some(i) ==> i < count,
        prev_selection(sel, count) matches Some(i) ==> (sel matches Some(j) && j < count ==> i
            < count),
        first_selection(count) is None <==> count == 0,
{
}

/// Moving the selection down and then up, or up and then down, comes back
/// to the task selected before, the list wrapping at both ends.
pub proof fn law_next_prev_selection(i: usize, count: int)
    requires
        i < count <= usize::MAX,
    ensures
        prev_selection(next_selection(Some(i), count), count) == Some(i),
        next_selection(prev_selection(Some(i), count), count) == Some(i),
{
}

/// Moving down from the last task selects the first, and up from the first
/// selects the last.
pub proof fn law_selection_wraps(count: int)
    requires
        0 < count <= usize::MAX,
    ensures
        next_selection(Some((count - 1) as usize), count) == Some(0usize),
        prev_selection(Some(0), count) == Some((count - 1) as usize),
{
}

/// Moving the sidebar selection down and then up comes back to the same
/// position, and so does moving up and then down.
pub proof fn law_next_prev_project(idx: int, n: int)
    requires
        0 <= idx <= n,
    ensures
        prev_project_index(next_project_index(idx, n), n) == idx,
        next_project_index(prev_project_index(idx, n), n) == idx,
        0 <= next_project_index(idx, n) <= n,
{
    assert(n + 1 > 0);
    if idx < n {
        assert((idx + 1) % (n + 1) == idx + 1) by (nonlinear_arith)
            requires
                0 <= idx < n,
        ;
    } else {
        assert((n + 1) % (n + 1) == 0) by (nonlinear_arith)
            requires
                n >= 0,
        ;
    }
    if idx == 0 {
        assert((n + 1) % (n + 1) == 0) by (nonlinear_arith)
            requires
                n >= 0,
        ;
    } else {
        assert(idx % (n + 1) == idx) by (nonlinear_arith)
            requires
                0 < idx <= n,
        ;
    }
}

/// The focus after switching panels.
pub open spec fn toggled(f: FocusPanel) -> FocusPanel {
    match f {
        FocusPanel::Sidebar => FocusPanel::TaskList,
        FocusPanel::TaskList => FocusPanel::Sidebar,
    }
}

/// Switching panels twice gives back the panel that had the focus.
pub proof fn law_toggle_focus_twice(f: FocusPanel)
    ensures
        toggled(toggled(f)) == f,
        toggled(f) != f,
{
}

/// Cycling the filter five times from any filter of the cycle comes back to it.
pub proof fn law_filter_cycle(f: Filter)
    requires
        f is All || f is Pending || f is Completed || f is DueToday || f is Overdue,
    ensures
        cycled_filter(cycled_filter(cycled_filter(cycled_filter(cycled_filter(f))))) == f,
{
}

/// Cycling the sort order four times from any order of the cycle comes back to it.
pub proof fn law_sort_cycle(s: SortOrder)
    requires
        s == SortOrder::DueDateAsc || s == SortOrder::PriorityDesc || s == SortOrder::CreatedDesc
            || s == SortOrder::Alphabetical,
    ensures
        cycled_sort(cycled_sort(cycled_sort(cycled_sort(s)))) == s,
{
}

/// Which message an empty task list shows.
#[derive(Debug, Clone, Copy, PartialEq, Eq, Structural)]
pub enum EmptyState {
    /// Every task is completed or archived
    AllDone,
    /// The filter lets no task through
    Filtered,
    /// The selected project has no task
    EmptyProject,
    /// There is no task yet
    NoTasks,
}

/// The message an empty list shows: all done when there are tasks and
/// each is completed or archived (under the All or Pending filter); the
/// filter's fault under any other filter; an empty project when a project
/// is selected and there is no task; otherwise a first-task invitation.
pub open spec fn empty_state_of(app: App) -> EmptyState {
    let any = app.tasks@.len() > 0;
    let all_done = any && forall|i: int|
        0 <= i < app.tasks@.len() ==> (#[trigger] app.tasks@[i]).status == TaskStatus::Completed
            || app.tasks@[i].status == TaskStatus::Archived;
    let filtered = !(app.filter is All || app.filter is Pending);
    if all_done && !filtered {
        EmptyState::AllDone
    } else if filtered {
        EmptyState::Filtered
    } else if app.selected_project_index > 0 && !any {
        EmptyState::EmptyProject
    } else {
        EmptyState::NoTasks
    }
}

impl App {
    /// Which message an empty task list shows (see [`empty_state_of`]).
    pub fn empty_state(&self) -> (r: EmptyState)
        ensures
            r == empty_state_of(*self),
    {
        let any = self.tasks.len() > 0;
        let mut all_done = any;
        let mut i: usize = 0;
        while i < self.tasks.len()
            invariant
                i <= self.tasks@.len(),
                any == (self.tasks@.len() > 0),
                all_done == (any && forall|j: int|
                    0 <= j < i ==> (#[trigger] self.tasks@[j]).status == TaskStatus::Completed
                        || self.tasks@[j].status == TaskStatus::Archived),
            decreases self.tasks@.len() - i,
        {
            let st = self.tasks[i].status;
            if !(st == TaskStatus::Completed || st == TaskStatus::Archived) {
                all_done = false;
            }
            i = i + 1;
        }
        let filtered = match self.filter {
            Filter::All | Filter::Pending => false,
            _ => true,
        };
        if all_done && !filtered {
            EmptyState::AllDone
        } else if filtered {
            EmptyState::Filtered
        } else if self.selected_project_index > 0 && !any {
            EmptyState::EmptyProject
        } else {
            EmptyState::NoTasks
        }
    }
}

} // verus!
