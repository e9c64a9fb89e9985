//! Commands: what a key asks of the application, and how each one changes
//! the state.
//!
//! [`Command::execute`] is the state machine of the application. It changes
//! the [`App`] and answers with an [`Outcome`]: whether to keep running,
//! and the outside work still to be done (a storage operation, or an event
//! for the log viewer). After a storage operation the caller reloads the
//! data and hands it to [`App::after_store`].
use vstd::prelude::*;
use crate::app::{
    App, FocusPanel, InputMode, Screen, first_selection, next_selection, prev_selection,
    next_project_index, prev_project_index, toggled, first_with_id, in_scope,
};
use crate::models::filter::Filter;
use crate::models::priority::Priority;
use crate::models::project::{Project, copy_projects};
use crate::models::task::{Task, TaskStatus, same_task, completed, reopened};
use crate::storage::tags::copy_tags;
use crate::text::{
    string_from, concat, chars_of_string, string_of, trimmed, trim, lowercase, digits_of,
    decimal_digits,
};
use crate::models::filter::SortOrder;
use crate::storage::tags::Tag;
use crate::app::adjusted;
use crate::ui::calendar::{CalendarState, calendar_on};
use crate::ui::dialogs::{
    AddTaskDialog, ConfirmDialog, DeleteProjectChoice, DeleteProjectDialog, Dialog,
    FilterSortDialog, MoveToProjectDialog, ProjectDialog, SettingsDialog,
};
use crate::ui::search::{SearchResult, search_task_refs_checked, snippets_cuttable, search_results_for};
use crate::ui::status_bar::{priority_label, priority_name};

verus! {

/// Events for the log viewer.
#[derive(Debug, Clone, Copy, PartialEq, Eq, Structural)]
pub enum TuiLoggerEvent {
    /// Toggle focus between target selector and logs
    SpaceBar,
    /// Scroll up through targets
    Up,
    /// Scroll down through targets
    Down,
    /// Move to previous page of logs
    PrevPage,
    /// Move to next page of logs
    NextPage,
    /// Decrease logging level for selected target
    Left,
    /// Increase logging level for selected target
    Right,
    /// Enable all log levels for selected target
    Plus,
    /// Disable all log levels for selected target
    Minus,
    /// Hide selected target
    Hide,
}

/// Everything the application can be asked to do.
///
/// The calendar offers day and week moves, "today" and picking a day. It
/// has no commands for acting on the tasks of a day (moving between them,
/// toggling, editing): no key leads to such an action, so there is none.
#[derive(Debug, Clone, PartialEq)]
pub enum Command {
    /// Move selection up in the current list
    NavigateUp,
    /// Move selection down in the current list
    NavigateDown,
    /// Jump to the top of the current list
    NavigateTop,
    /// Jump to the bottom of the current list
    NavigateBottom,
    /// Scroll down by a page
    PageDown,
    /// Scroll up by a page
    PageUp,
    /// Switch focus between panels
    SwitchPanel,
    /// Focus the sidebar panel
    FocusSidebar,
    /// Focus the task list panel
    FocusTaskList,
    /// Start adding a new task
    AddTask,
    /// Edit the selected task
    EditTask,
    /// Delete the selected task
    DeleteTask,
    /// Toggle completion status of the selected task
    ToggleTaskStatus,
    /// Cycle through priority levels for the selected task
    CyclePriority,
    /// Move selected task to a different project
    MoveToProject,
    /// Edit tags on the selected task
    EditTags,
    /// Create a new project
    AddProject,
    /// Edit the selected project
    EditProject,
    /// Delete the selected project
    DeleteProject,
    /// Show the main task list view
    ShowMain,
    /// Show the help screen
    ShowHelp,
    /// Show the calendar view
    ShowCalendar,
    /// Enter search mode
    ShowSearch,
    /// Navigate up in search results
    SearchNavigateUp,
    /// Navigate down in search results
    SearchNavigateDown,
    /// Select the current search result
    SearchSelectTask,
    /// Toggle the debug logs view
    ShowDebugLogs,
    /// Show detailed view of selected task
    ShowTaskDetail,
    /// Move to previous day in calendar
    CalendarPrevDay,
    /// Move to next day in calendar
    CalendarNextDay,
    /// Move to previous week in calendar
    CalendarPrevWeek,
    /// Move to next week in calendar
    CalendarNextWeek,
    /// Jump to today in calendar
    CalendarToday,
    /// Leave the calendar for the main view
    CalendarSelectDay,
    /// Show the settings dialog
    ShowSettings,
    /// Set a specific filter
    SetFilter(Filter),
    /// Filter to show only tasks due today
    FilterToday,
    /// Filter to show only tasks due this week
    FilterThisWeek,
    /// Filter by priority level
    FilterByPriority(Priority),
    /// Open the filter/sort selection dialog
    ShowFilterSort,
    /// Enter editing mode for text input
    EnterEditMode,
    /// Exit editing mode back to normal
    ExitEditMode,
    /// Submit the current input
    SubmitInput,
    /// Cancel the current input operation
    CancelInput,
    /// Insert a character at cursor position
    InsertChar(char),
    /// Delete character before cursor
    DeleteCharBackward,
    /// Delete character at cursor
    DeleteCharForward,
    /// Move cursor left
    MoveCursorLeft,
    /// Move cursor right
    MoveCursorRight,
    /// Move cursor to start of line
    MoveCursorStart,
    /// Move cursor to end of line
    MoveCursorEnd,
    /// Send event to the log viewer
    LoggerEvent(TuiLoggerEvent),
    /// Quit the application
    Quit,
    /// Force quit without confirmation
    ForceQuit,
    /// Refresh data from storage
    Refresh,
}

/// A change to storage, carried out by the caller.
#[derive(Debug, Clone)]
pub enum StoreOp {
    /// Nothing changes; the data is read again
    Reload,
    /// Nothing changes; the data is read again and the sidebar goes back
    /// to "All Tasks"
    ReloadToAllTasks,
    /// Store a new task
    InsertTask(Task),
    /// Store the new values of a task
    UpdateTask(Task),
    /// Delete the task with this identifier
    DeleteTask(String),
    /// Store a new project
    InsertProject(Project),
    /// Store the new values of a project
    UpdateProject(Project),
    /// Delete a project; its tasks are deleted too, or moved to the Inbox
    DeleteProject { project_id: String, delete_tasks: bool },
    /// Delete the completed tasks
    DeleteCompletedTasks,
    /// Delete all tasks, and all projects but the Inbox
    ResetDatabase,
}

/// Outside work a command leaves to the caller.
#[derive(Debug, Clone)]
pub enum Effect {
    /// Nothing to do
    Nothing,
    /// Change storage, then reload the data and call [`App::after_store`]
    Store(StoreOp),
    /// Pass an event on to the log viewer
    Logger(TuiLoggerEvent),
    /// The key was not acted on: the search it asks for cannot cut a
    /// description at a character boundary, or a text is at its length limit
    Refused,
}

/// The answer to a command.
#[derive(Debug, Clone)]
pub struct Outcome {
    /// Whether the application keeps running
    pub keep_running: bool,
    /// The outside work left to do
    pub effect: Effect,
}

/// The hint shown while a task dialog is open.
pub open spec fn edit_hint() -> Seq<char> {
    "Tab between fields, Ctrl+Enter to save"@
}

/// `n` is `o` with `msg` as a status message set at the time of `o`.
pub open spec fn status_set(o: App, n: App, msg: Seq<char>) -> bool {
    &&& n.status_message matches Some(m) && m@ == msg
    &&& n.status_message_set_at == Some(o.clock.now)
}

/// The selection after a page down in a list of `count` tasks.
pub open spec fn page_down(sel: Option<usize>, count: int) -> Option<usize> {
    let cur: int = match sel {
        Some(i) => i as int,
        None => 0,
    };
    Some((if cur + 10 < count - 1 {
        cur + 10
    } else {
        count - 1
    }) as usize)
}

/// The selection after a page up.
pub open spec fn page_up(sel: Option<usize>) -> Option<usize> {
    let cur: int = match sel {
        Some(i) => i as int,
        None => 0,
    };
    Some((if cur >= 10 {
        cur - 10
    } else {
        0
    }) as usize)
}

/// How a navigation command changes the state.
pub open spec fn navigated(o: App, n: App, cmd: Command) -> bool {
    let count = o.visible().len() as int;
    let tl = o.focus == FocusPanel::TaskList;
    match cmd {
        Command::NavigateUp => if tl {
            n == (App { selected_task_index: prev_selection(o.selected_task_index, count), ..o })
        } else {
            &&& n.selected_project_index as int == prev_project_index(
                o.selected_project_index as int,
                o.projects@.len() as int,
            )
            &&& n.selected_task_index == first_selection(n.visible().len() as int)
            &&& n == (App {
                selected_project_index: n.selected_project_index,
                selected_task_index: n.selected_task_index,
                ..o
            })
        },
        Command::NavigateDown => if tl {
            n == (App { selected_task_index: next_selection(o.selected_task_index, count), ..o })
        } else {
            &&& n.selected_project_index as int == next_project_index(
                o.selected_project_index as int,
                o.projects@.len() as int,
            )
            &&& n.selected_task_index == first_selection(n.visible().len() as int)
            &&& n == (App {
                selected_project_index: n.selected_project_index,
                selected_task_index: n.selected_task_index,
                ..o
            })
        },
        Command::NavigateTop => if tl {
            n == (App {
                selected_task_index: if count > 0 {
                    Some(0)
                } else {
                    o.selected_task_index
                },
                ..o
            })
        } else {
            &&& n.selected_project_index == 0
            &&& n.selected_task_index == first_selection(n.visible().len() as int)
            &&& n == (App {
                selected_project_index: n.selected_project_index,
                selected_task_index: n.selected_task_index,
                ..o
            })
        },
        Command::NavigateBottom => if tl {
            n == (App {
                selected_task_index: if count > 0 {
                    Some((count - 1) as usize)
                } else {
                    o.selected_task_index
                },
                ..o
            })
        } else {
            &&& n.selected_project_index == o.projects@.len()
            &&& n.selected_task_index == first_selection(n.visible().len() as int)
            &&& n == (App {
                selected_project_index: n.selected_project_index,
                selected_task_index: n.selected_task_index,
                ..o
            })
        },
        Command::PageDown => if tl && count > 0 {
            n == (App { selected_task_index: page_down(o.selected_task_index, count), ..o })
        } else {
            n == o
        },
        Command::PageUp => if tl && count > 0 {
            n == (App { selected_task_index: page_up(o.selected_task_index), ..o })
        } else {
            n == o
        },
        Command::SwitchPanel => n == (App { focus: toggled(o.focus), ..o }),
        Command::FocusSidebar => n == (App { focus: FocusPanel::Sidebar, ..o }),
        Command::FocusTaskList => n == (App { focus: FocusPanel::TaskList, ..o }),
        _ => false,
    }
}

/// Whether `cmd` moves a selection or the focus.
pub open spec fn is_navigation(cmd: Command) -> bool {
    match cmd {
        Command::NavigateUp | Command::NavigateDown | Command::NavigateTop
        | Command::NavigateBottom | Command::PageDown | Command::PageUp | Command::SwitchPanel
        | Command::FocusSidebar | Command::FocusTaskList => true,
        _ => false,
    }
}

impl App {
    /// Carries out a navigation command (see [`navigated`]).
    fn navigate(&mut self, cmd: &Command)
        requires
            old(self).wf(),
            is_navigation(*cmd),
        ensures
            navigated(*old(self), *final(self), *cmd),
    {
        let tl = self.focus == FocusPanel::TaskList;
        match cmd {
            Command::NavigateUp => {
                if tl {
                    self.select_previous_task();
                } else {
                    self.select_previous_project();
                }
            },
            Command::NavigateDown => {
                if tl {
                    self.select_next_task();
                } else {
                    self.select_next_project();
                }
            },
            Command::NavigateTop => {
                if tl {
                    let count = self.visible_count();
                    if count > 0 {
                        self.selected_task_index = Some(0);
                    }
                } else {
                    self.selected_project_index = 0;
                    self.update_task_selection();
                }
            },
            Command::NavigateBottom => {
                if tl {
                    let count = self.visible_count();
                    if count > 0 {
                        self.selected_task_index = Some(count - 1);
                    }
                } else {
                    self.selected_project_index = self.projects.len();
                    self.update_task_selection();
                }
            },
            Command::PageDown => {
                if tl {
                    let count = self.visible_count();
                    if count > 0 {
                        let current = match self.selected_task_index {
                            Some(i) => i,
                            None => 0,
                        };
                        let last = count - 1;
                        self.selected_task_index = Some(
                            if current < last && last - current > 10 {
                                current + 10
                            } else {
                                last
                            },
                        );
                    }
                }
            },
            Command::PageUp => {
                if tl {
                    let count = self.visible_count();
                    if count > 0 {
                        let current = match self.selected_task_index {
                            Some(i) => i,
                            None => 0,
                        };
                        self.selected_task_index = Some(
                            if current >= 10 {
                                current - 10
                            } else {
                                0
                            },
                        );
                    }
                }
            },
            Command::SwitchPanel => {
                self.toggle_focus();
            },
            Command::FocusSidebar => {
                self.focus = FocusPanel::Sidebar;
            },
            _ => {
                self.focus = FocusPanel::TaskList;
            },
        }
    }
}

/// Whether `cmd` changes the view, the calendar or the search selection.
pub open spec fn is_view_change(cmd: Command) -> bool {
    match cmd {
        Command::ShowMain | Command::ShowHelp | Command::ShowCalendar | Command::CalendarPrevDay
        | Command::CalendarNextDay | Command::CalendarPrevWeek | Command::CalendarNextWeek
        | Command::CalendarToday | Command::CalendarSelectDay | Command::ShowSearch
        | Command::SearchNavigateUp | Command::SearchNavigateDown | Command::SearchSelectTask
        | Command::ShowDebugLogs | Command::ShowTaskDetail => true,
        _ => false,
    }
}

/// How the selection and the filter are set to show the task with
/// identifier `id`, starting from `b`: the task is selected where it is
/// listed; when it is not, the filter is reset to All and the task selected
/// in that list, if it is there.
pub open spec fn selects_task(b: App, n: App, id: Seq<char>) -> bool {
    let v = b.visible();
    let b2 = App { filter: Filter::All, ..b };
    let v2 = b2.visible();
    ||| (exists|i: int| first_with_id(v, id, i) && n.selected_task_index == Some(i as usize))
        && n.filter == b.filter
    ||| (forall|i: int| 0 <= i < v.len() ==> (#[trigger] v[i]).id@ != id) && n.filter
        == Filter::All && (((exists|j: int|
        first_with_id(v2, id, j) && n.selected_task_index == Some(j as usize))) || ((forall|j: int|
        0 <= j < v2.len() ==> (#[trigger] v2[j]).id@ != id) && n.selected_task_index
        == b.selected_task_index))
}

/// How a view command changes the state.
pub open spec fn view_changed(o: App, n: App, cmd: Command) -> bool {
    match cmd {
        Command::ShowMain => n == (App { current_view: Screen::Main, ..o }),
        Command::ShowHelp => n == (App { current_view: Screen::Help, ..o }),
        Command::ShowCalendar => n == (App {
            current_view: Screen::Calendar,
            calendar_state: calendar_on(o.clock.today()),
            ..o
        }),
        Command::CalendarPrevDay => n == (App {
            calendar_state: crate::ui::calendar::day_before(o.calendar_state),
            ..o
        }),
        Command::CalendarNextDay => n == (App {
            calendar_state: crate::ui::calendar::day_after(o.calendar_state),
            ..o
        }),
        Command::CalendarPrevWeek => n == (App {
            calendar_state: crate::ui::calendar::week_moved(o.calendar_state, -1),
            ..o
        }),
        Command::CalendarNextWeek => n == (App {
            calendar_state: crate::ui::calendar::week_moved(o.calendar_state, 1),
            ..o
        }),
        Command::CalendarToday => n == (App { calendar_state: calendar_on(o.clock.today()), ..o }),
        Command::CalendarSelectDay => n == (App { current_view: Screen::Main, ..o }),
        Command::ShowSearch => {
            let name = if 0 < o.selected_project_index <= o.projects@.len() {
                o.projects@[o.selected_project_index - 1].name@
            } else {
                "All Tasks"@
            };
            &&& n.input_buffer@.len() == 0
            &&& n.search_results@.len() == 0
            &&& if name != "All Tasks"@ {
                status_set(o, n, "Searching in: "@ + name)
            } else {
                n.status_message == o.status_message && n.status_message_set_at
                    == o.status_message_set_at
            }
            &&& n == (App {
                current_view: Screen::Search,
                input_mode: InputMode::Search,
                input_buffer: n.input_buffer,
                input_cursor: 0,
                search_results: n.search_results,
                selected_search_index: 0,
                status_message: n.status_message,
                status_message_set_at: n.status_message_set_at,
                ..o
            })
        },
        Command::SearchNavigateUp => if o.search_results@.len() > 0 {
            n == (App {
                selected_search_index: if o.selected_search_index > 0 {
                    (o.selected_search_index - 1) as usize
                } else {
                    0
                },
                ..o
            })
        } else {
            n == o
        },
        Command::SearchNavigateDown => if o.search_results@.len() > 0 {
            n == (App {
                selected_search_index: if o.selected_search_index + 1 < o.search_results@.len() {
                    (o.selected_search_index + 1) as usize
                } else {
                    (o.search_results@.len() - 1) as usize
                },
                ..o
            })
        } else {
            n == o
        },
        Command::SearchSelectTask => {
            let k = o.selected_search_index as int;
            if k < o.search_results@.len() {
                let res = o.search_results@[k];
                let b = App {
                    current_view: Screen::Main,
                    input_mode: InputMode::Normal,
                    input_buffer: n.input_buffer,
                    input_cursor: 0,
                    focus: FocusPanel::TaskList,
                    ..o
                };
                &&& n.input_buffer@.len() == 0
                &&& status_set(o, n, "Selected: "@ + res.task.title@)
                &&& selects_task(b, n, res.task.id@)
                &&& n == (App {
                    filter: n.filter,
                    selected_task_index: n.selected_task_index,
                    status_message: n.status_message,
                    status_message_set_at: n.status_message_set_at,
                    ..b
                })
            } else {
                n == o
            }
        },
        Command::ShowDebugLogs => n == (App {
            current_view: if o.current_view == Screen::DebugLogs {
                Screen::Main
            } else {
                Screen::DebugLogs
            },
            ..o
        }),
        Command::ShowTaskDetail => n == (App {
            current_view: if o.selected_task_index matches Some(i) && i < o.visible().len() {
                Screen::TaskDetail
            } else {
                o.current_view
            },
            ..o
        }),
        _ => false,
    }
}

impl App {
    /// The position of the first listed task with identifier `id`.
    fn position_of(&self, id: &String) -> (r: Option<usize>)
        requires
            self.clock.wf(),
        ensures
            match r {
                Some(i) => first_with_id(self.visible(), id@, i as int),
                None => forall|i: int|
                    0 <= i < self.visible().len() ==> (#[trigger] self.visible()[i]).id@ != id@,
            },
    {
        let v = self.visible_tasks();
        let ghost vs = v@.map_values(|t: &Task| *t);
        let mut i: usize = 0;
        while i < v.len()
            invariant
                i <= v@.len(),
                vs == v@.map_values(|t: &Task| *t),
                vs == self.visible(),
                forall|j: int| 0 <= j < i ==> (#[trigger] vs[j]).id@ != id@,
            decreases v@.len() - i,
        {
            if v[i].id == *id {
                return Some(i);
            }
            i = i + 1;
        }
        None
    }

    /// Carries out a view command (see [`view_changed`]).
    fn change_view(&mut self, cmd: &Command)
        requires
            old(self).wf(),
            is_view_change(*cmd),
        ensures
            view_changed(*old(self), *final(self), *cmd),
    {
        match cmd {
            Command::ShowMain => {
                self.current_view = Screen::Main;
            },
            Command::ShowHelp => {
                self.current_view = Screen::Help;
            },
            Command::ShowCalendar => {
                self.current_view = Screen::Calendar;
                self.calendar_state.goto_today_at(self.clock);
            },
            Command::CalendarPrevDay => {
                self.calendar_state.prev_day();
            },
            Command::CalendarNextDay => {
                self.calendar_state.next_day();
            },
            Command::CalendarPrevWeek => {
                self.calendar_state.prev_week();
            },
            Command::CalendarNextWeek => {
                self.calendar_state.next_week();
            },
            Command::CalendarToday => {
                self.calendar_state.goto_today_at(self.clock);
            },
            Command::CalendarSelectDay => {
                self.current_view = Screen::Main;
            },
            Command::ShowSearch => {
                self.current_view = Screen::Search;
                self.input_mode = InputMode::Search;
                self.input_buffer = String::new();
                self.input_cursor = 0;
                self.search_results = Vec::new();
                self.selected_search_index = 0;
                let name = string_from(self.selected_project_name());
                let all = string_from("All Tasks");
                if !(name == all) {
                    let msg = concat("Searching in: ", name.as_str());
                    self.set_status_string(msg);
                }
            },
            Command::SearchNavigateUp => {
                if self.search_results.len() > 0 && self.selected_search_index > 0 {
                    self.selected_search_index = self.selected_search_index - 1;
                }
            },
            Command::SearchNavigateDown => {
                if self.search_results.len() > 0 {
                    let last = self.search_results.len() - 1;
                    self.selected_search_index = if self.selected_search_index < last {
                        self.selected_search_index + 1
                    } else {
                        last
                    };
                }
            },
            Command::SearchSelectTask => {
                if self.selected_search_index < self.search_results.len() {
                    let task_id = self.search_results[self.selected_search_index].task.id.clone();
                    let msg = concat(
                        "Selected: ",
                        self.search_results[self.selected_search_index].task.title.as_str(),
                    );
                    self.current_view = Screen::Main;
                    self.input_mode = InputMode::Normal;
                    self.input_buffer = String::new();
                    self.input_cursor = 0;
                    self.focus = FocusPanel::TaskList;
                    match self.position_of(&task_id) {
                        Some(idx) => {
                            self.selected_task_index = Some(idx);
                        },
                        None => {
                            self.filter = Filter::All;
                            match self.position_of(&task_id) {
                                Some(idx) => {
                                    self.selected_task_index = Some(idx);
                                },
                                None => {},
                            }
                        },
                    }
                    self.set_status_string(msg);
                }
            },
            Command::ShowDebugLogs => {
                self.current_view = if self.current_view == Screen::DebugLogs {
                    Screen::Main
                } else {
                    Screen::DebugLogs
                };
            },
            _ => {
                if self.selected_task().is_some() {
                    self.current_view = Screen::TaskDetail;
                }
            },
        }
    }
}

/// Whether `cmd` sets the filter or opens the filter or settings dialog.
pub open spec fn is_filter_change(cmd: Command) -> bool {
    match cmd {
        Command::SetFilter(_) | Command::ShowFilterSort | Command::ShowSettings
        | Command::FilterToday | Command::FilterThisWeek | Command::FilterByPriority(_) => true,
        _ => false,
    }
}

/// `n` is `o` with filter `f`, the first task selected, and the status
/// message `msg` (or the same status, for `None`).
pub open spec fn filtered_to(o: App, n: App, f: Filter, msg: Option<Seq<char>>) -> bool {
    &&& n.filter == f
    &&& n.selected_task_index == first_selection(n.visible().len() as int)
    &&& match msg {
        Some(m) => status_set(o, n, m),
        None => n.status_message == o.status_message && n.status_message_set_at
            == o.status_message_set_at,
    }
    &&& n == (App {
        filter: f,
        selected_task_index: n.selected_task_index,
        status_message: n.status_message,
        status_message_set_at: n.status_message_set_at,
        ..o
    })
}

/// How a filter command changes the state.
pub open spec fn filter_changed(o: App, n: App, cmd: Command) -> bool {
    match cmd {
        Command::SetFilter(f) => filtered_to(o, n, f, None),
        Command::FilterToday => filtered_to(
            o,
            n,
            Filter::DueToday,
            Some("Showing tasks due today"@),
        ),
        Command::FilterThisWeek => filtered_to(
            o,
            n,
            Filter::DueThisWeek,
            Some("Showing tasks due this week"@),
        ),
        Command::FilterByPriority(p) => filtered_to(
            o,
            n,
            Filter::ByPriority(p),
            Some("Showing "@ + priority_name(p) + " priority tasks"@),
        ),
        Command::ShowFilterSort => {
            &&& n.dialog matches Some(Dialog::FilterSort(d)) && {
                &&& d.wf()
                &&& d.section == crate::ui::dialogs::FilterSortSection::Filter
                &&& d.filter_index == crate::ui::dialogs::filter_sort::filter_position(o.filter)
                &&& d.sort_index == crate::ui::dialogs::filter_sort::sort_position(o.sort)
                &&& d.filter_counts@.len() == crate::ui::dialogs::filter_sort::FILTER_COUNT
                &&& forall|i: int|
                    0 <= i < crate::ui::dialogs::filter_sort::FILTER_COUNT
                        ==> #[trigger] d.filter_counts@[i]
                        == crate::ui::dialogs::filter_sort::match_count(
                        crate::ui::dialogs::filter_sort::filter_choice(i),
                        o.scoped_tasks(),
                        o.clock,
                    )
            }
            &&& n == (App { dialog: n.dialog, ..o })
        },
        Command::ShowSettings => {
            &&& n.dialog matches Some(Dialog::Settings(d)) && d.is_fresh()
            &&& n == (App { dialog: n.dialog, ..o })
        },
        _ => false,
    }
}

impl App {
    /// Sets the filter and selects the first task of the new list.
    fn set_filter(&mut self, f: Filter)
        requires
            old(self).wf(),
        ensures
            filtered_to(*old(self), *final(self), f, None),
            final(self).wf(),
    {
        self.filter = f;
        self.update_task_selection();
    }

    /// Carries out a filter command (see [`filter_changed`]).
    fn change_filter(&mut self, cmd: Command)
        requires
            old(self).wf(),
            is_filter_change(cmd),
        ensures
            filter_changed(*old(self), *final(self), cmd),
    {
        match cmd {
            Command::SetFilter(f) => {
                self.set_filter(f);
            },
            Command::FilterToday => {
                self.set_filter(Filter::DueToday);
                self.set_status("Showing tasks due today");
            },
            Command::FilterThisWeek => {
                self.set_filter(Filter::DueThisWeek);
                self.set_status("Showing tasks due this week");
            },
            Command::FilterByPriority(p) => {
                self.set_filter(Filter::ByPriority(p));
                let head = concat("Showing ", priority_label(p));
                let msg = concat(head.as_str(), " priority tasks");
                self.set_status_string(msg);
            },
            Command::ShowFilterSort => {
                let d = {
                    let refs = self.project_tasks();
                    FilterSortDialog::new_over(&self.filter, &self.sort, &refs, self.clock)
                };
                self.dialog = Some(Dialog::FilterSort(d));
            },
            _ => {
                self.dialog = Some(Dialog::Settings(SettingsDialog::new()));
            },
        }
    }
}

/// Whether `cmd` edits the input line or changes the input mode.
pub open spec fn is_input(cmd: Command) -> bool {
    match cmd {
        Command::EnterEditMode | Command::ExitEditMode | Command::SubmitInput
        | Command::CancelInput | Command::InsertChar(_) | Command::DeleteCharBackward
        | Command::DeleteCharForward | Command::MoveCursorLeft | Command::MoveCursorRight
        | Command::MoveCursorStart | Command::MoveCursorEnd => true,
        _ => false,
    }
}

/// `r` holds the results of searching `tasks` for `query`.
pub open spec fn search_ok(r: Seq<SearchResult>, tasks: Seq<Task>, query: Seq<char>) -> bool {
    &&& lowercase(query).len() == 0 ==> r.len() == 0
    &&& lowercase(query).len() > 0 ==> search_results_for(r, tasks, lowercase(query))
}

/// The input line after a key edit, with the cursor, and whether the
/// search results are to be refreshed: `None` when the key does not edit.
pub open spec fn line_edit(o: App, cmd: Command) -> Option<(Seq<char>, int, bool)> {
    let b = o.input_buffer@;
    let c = o.input_cursor as int;
    match cmd {
        Command::InsertChar(ch) => Some((b.insert(c, ch), c + 1, true)),
        Command::DeleteCharBackward => if c > 0 {
            Some((b.remove(c - 1), c - 1, true))
        } else {
            None
        },
        Command::DeleteCharForward => if c < b.len() {
            Some((b.remove(c), c, false))
        } else {
            None
        },
        _ => None,
    }
}

/// Whether an input command can be carried out: the line has room for one
/// more character, and a search that it triggers can cut every matching
/// description for its snippet.
pub open spec fn input_ok(o: App, cmd: Command) -> bool {
    &&& cmd is InsertChar ==> o.input_buffer@.len() < usize::MAX
    &&& match line_edit(o, cmd) {
        Some((nb, _, refresh)) => refresh && o.input_mode == InputMode::Search
            ==> snippets_cuttable(o.scoped_tasks(), lowercase(nb)),
        None => true,
    }
}

/// `n` is `o` back in normal mode with an empty input line.
pub open spec fn input_closed(o: App, n: App) -> bool {
    &&& n.input_mode == InputMode::Normal
    &&& n.input_buffer@.len() == 0
    &&& n.input_cursor == 0
}

/// How an input command changes the state, with the work it leaves.
pub open spec fn input_handled(o: App, n: App, cmd: Command, e: Effect) -> bool {
    if !input_ok(o, cmd) {
        n == o && e is Refused
    } else {
        match cmd {
            Command::EnterEditMode => n == (App { input_mode: InputMode::Editing, ..o })
                && e is Nothing,
            Command::ExitEditMode => {
                &&& input_closed(o, n)
                &&& e is Nothing
                &&& n == (App {
                    input_mode: InputMode::Normal,
                    input_buffer: n.input_buffer,
                    input_cursor: 0,
                    editing_task: None,
                    status_message: None,
                    status_message_set_at: None,
                    ..o
                })
            },
            Command::CancelInput => {
                let s = o.current_view == Screen::Search;
                &&& input_closed(o, n)
                &&& e is Nothing
                &&& if s {
                    n.search_results@.len() == 0
                } else {
                    n.search_results == o.search_results
                }
                &&& n == (App {
                    current_view: if s {
                        Screen::Main
                    } else {
                        o.current_view
                    },
                    search_results: n.search_results,
                    selected_search_index: if s {
                        0
                    } else {
                        o.selected_search_index
                    },
                    input_mode: InputMode::Normal,
                    input_buffer: n.input_buffer,
                    input_cursor: 0,
                    editing_task: None,
                    status_message: None,
                    status_message_set_at: None,
                    ..o
                })
            },
            Command::SubmitInput => {
                let title = trim(o.input_buffer@);
                &&& input_closed(o, n)
                &&& if o.input_mode == InputMode::Editing && title.len() > 0 {
                    &&& match o.editing_task {
                        Some(t) => e matches Effect::Store(StoreOp::UpdateTask(u)) && u == (Task {
                            title: u.title,
                            ..t
                        }) && u.title@ == title && status_set(o, n, "Task updated"@),
                        None => e matches Effect::Store(StoreOp::InsertTask(u)) && u.is_fresh(
                            title,
                            o.clock.now as int,
                        ) && crate::utils::ids::uuid_v7_shaped(u.id@) && status_set(
                            o,
                            n,
                            "Task added"@,
                        ),
                    }
                    &&& n == (App {
                        input_mode: InputMode::Normal,
                        input_buffer: n.input_buffer,
                        input_cursor: 0,
                        editing_task: None,
                        status_message: n.status_message,
                        status_message_set_at: n.status_message_set_at,
                        ..o
                    })
                } else {
                    &&& e is Nothing
                    &&& n == (App {
                        input_mode: InputMode::Normal,
                        input_buffer: n.input_buffer,
                        input_cursor: 0,
                        ..o
                    })
                }
            },
            Command::MoveCursorLeft => e is Nothing && n == (App {
                input_cursor: if o.input_cursor > 0 {
                    (o.input_cursor - 1) as usize
                } else {
                    0
                },
                ..o
            }),
            Command::MoveCursorRight => e is Nothing && n == (App {
                input_cursor: if o.input_cursor < o.input_buffer@.len() {
                    (o.input_cursor + 1) as usize
                } else {
                    o.input_cursor
                },
                ..o
            }),
            Command::MoveCursorStart => e is Nothing && n == (App { input_cursor: 0, ..o }),
            Command::MoveCursorEnd => e is Nothing && n == (App {
                input_cursor: o.input_buffer@.len() as usize,
                ..o
            }),
            _ => match line_edit(o, cmd) {
                Some((nb, nc, refresh)) => {
                    &&& e is Nothing
                    &&& n.input_buffer@ == nb
                    &&& n.input_cursor == nc
                    &&& if refresh && o.input_mode == InputMode::Search {
                        &&& search_ok(n.search_results@, o.scoped_tasks(), nb)
                        &&& n == (App {
                            input_buffer: n.input_buffer,
                            input_cursor: n.input_cursor,
                            search_results: n.search_results,
                            selected_search_index: 0,
                            ..o
                        })
                    } else {
                        n == (App {
                            input_buffer: n.input_buffer,
                            input_cursor: n.input_cursor,
                            ..o
                        })
                    }
                },
                None => n == o && e is Nothing,
            },
        }
    }
}

impl App {
    /// Replaces the input line by `nb` with the cursor at `nc`, refreshing
    /// the search results when asked to and in search mode; refuses when
    /// the search cannot be done.
    fn edit_line(&mut self, nb: String, nc: usize, refresh: bool) -> (r: Effect)
        requires
            old(self).wf(),
            nc <= nb@.len(),
        ensures
            (refresh && old(self).input_mode == InputMode::Search && !snippets_cuttable(
                old(self).scoped_tasks(),
                lowercase(nb@),
            )) ==> *final(self) == *old(self) && r is Refused,
            !(refresh && old(self).input_mode == InputMode::Search && !snippets_cuttable(
                old(self).scoped_tasks(),
                lowercase(nb@),
            )) ==> {
                &&& r is Nothing
                &&& final(self).input_buffer == nb
                &&& final(self).input_cursor == nc
                &&& if refresh && old(self).input_mode == InputMode::Search {
                    &&& search_ok(final(self).search_results@, old(self).scoped_tasks(), nb@)
                    &&& *final(self) == (App {
                        input_buffer: nb,
                        input_cursor: nc,
                        search_results: final(self).search_results,
                        selected_search_index: 0,
                        ..*old(self)
                    })
                } else {
                    *final(self) == (App { input_buffer: nb, input_cursor: nc, ..*old(self) })
                }
            },
    {
        if refresh && self.input_mode == InputMode::Search {
            let found = {
                let refs = self.project_tasks();
                search_task_refs_checked(nb.as_str(), &refs)
            };
            match found {
                Some(results) => {
                    self.input_buffer = nb;
                    self.input_cursor = nc;
                    self.search_results = results;
                    self.selected_search_index = 0;
                    Effect::Nothing
                },
                None => Effect::Refused,
            }
        } else {
            self.input_buffer = nb;
            self.input_cursor = nc;
            Effect::Nothing
        }
    }

    /// Carries out an input command (see [`input_handled`]).
    fn handle_input(&mut self, cmd: Command) -> (r: Effect)
        requires
            old(self).wf(),
            is_input(cmd),
        ensures
            input_handled(*old(self), *final(self), cmd, r),
    {
        match cmd {
            Command::EnterEditMode => {
                self.input_mode = InputMode::Editing;
                Effect::Nothing
            },
            Command::ExitEditMode => {
                self.input_mode = InputMode::Normal;
                self.input_buffer = String::new();
                self.input_cursor = 0;
                self.editing_task = None;
                self.clear_status();
                Effect::Nothing
            },
            Command::CancelInput => {
                if self.current_view == Screen::Search {
                    self.current_view = Screen::Main;
                    self.search_results = Vec::new();
                    self.selected_search_index = 0;
                }
                self.input_mode = InputMode::Normal;
                self.input_buffer = String::new();
                self.input_cursor = 0;
                self.editing_task = None;
                self.clear_status();
                Effect::Nothing
            },
            Command::SubmitInput => {
                let mut e = Effect::Nothing;
                if self.input_mode == InputMode::Editing {
                    let line = chars_of_string(&self.input_buffer);
                    let title_chars = trimmed(&line);
                    if title_chars.len() > 0 {
                        let title = string_of(&title_chars);
                        let mut editing: Option<Task> = None;
                        std::mem::swap(&mut editing, &mut self.editing_task);
                        match editing {
                            Some(mut t) => {
                                t.title = title;
                                e = Effect::Store(StoreOp::UpdateTask(t));
                                self.set_status("Task updated");
                            },
                            None => {
                                let t = Task::new_at(
                                    title.as_str(),
                                    crate::utils::ids::generate_id(),
                                    self.clock.now,
                                );
                                e = Effect::Store(StoreOp::InsertTask(t));
                                self.set_status("Task added");
                            },
                        }
                    }
                }
                self.input_mode = InputMode::Normal;
                self.input_buffer = String::new();
                self.input_cursor = 0;
                e
            },
            Command::MoveCursorLeft => {
                if self.input_cursor > 0 {
                    self.input_cursor = self.input_cursor - 1;
                }
                Effect::Nothing
            },
            Command::MoveCursorRight => {
                let n = chars_of_string(&self.input_buffer).len();
                if self.input_cursor < n {
                    self.input_cursor = self.input_cursor + 1;
                }
                Effect::Nothing
            },
            Command::MoveCursorStart => {
                self.input_cursor = 0;
                Effect::Nothing
            },
            Command::MoveCursorEnd => {
                self.input_cursor = chars_of_string(&self.input_buffer).len();
                Effect::Nothing
            },
            Command::InsertChar(c) => {
                let mut v = chars_of_string(&self.input_buffer);
                if v.len() == usize::MAX {
                    return Effect::Refused;
                }
                v.insert(self.input_cursor, c);
                let nb = string_of(&v);
                self.edit_line(nb, self.input_cursor + 1, true)
            },
            Command::DeleteCharBackward => {
                if self.input_cursor > 0 {
                    let mut v = chars_of_string(&self.input_buffer);
                    v.remove(self.input_cursor - 1);
                    let nb = string_of(&v);
                    self.edit_line(nb, self.input_cursor - 1, true)
                } else {
                    Effect::Nothing
                }
            },
            _ => {
                let mut v = chars_of_string(&self.input_buffer);
                if self.input_cursor < v.len() {
                    v.remove(self.input_cursor);
                    let nb = string_of(&v);
                    self.edit_line(nb, self.input_cursor, false)
                } else {
                    Effect::Nothing
                }
            },
        }
    }
}

/// The selected task, if the selection lies within the list.
pub open spec fn selected_of(o: App) -> Option<Task> {
    match o.selected_task_index {
        Some(i) => if i < o.visible().len() {
            Some(o.visible()[i as int])
        } else {
            None
        },
        None => None,
    }
}

/// The project the sidebar selects, if any.
pub open spec fn project_of(o: App) -> Option<Project> {
    if 0 < o.selected_project_index <= o.projects@.len() {
        Some(o.projects@[o.selected_project_index - 1])
    } else {
        None
    }
}

/// The priority after cycling: Low, Medium, High, Urgent, and back to Low.
pub open spec fn cycled_priority(p: Priority) -> Priority {
    match p {
        Priority::Low => Priority::Medium,
        Priority::Medium => Priority::High,
        Priority::High => Priority::Urgent,
        Priority::Urgent => Priority::Low,
    }
}

/// Whether `cmd` acts on a task or a project.
pub open spec fn is_task_action(cmd: Command) -> bool {
    match cmd {
        Command::AddTask | Command::EditTask | Command::DeleteTask | Command::ToggleTaskStatus
        | Command::CyclePriority | Command::MoveToProject | Command::EditTags
        | Command::AddProject | Command::EditProject | Command::DeleteProject => true,
        _ => false,
    }
}

/// `n` is `o` with dialog and status message changed, `msg` shown.
pub open spec fn opened(o: App, n: App, msg: Seq<char>) -> bool {
    &&& status_set(o, n, msg)
    &&& n == (App {
        dialog: n.dialog,
        status_message: n.status_message,
        status_message_set_at: n.status_message_set_at,
        ..o
    })
}

/// `n` is `o` with `msg` shown.
pub open spec fn told(o: App, n: App, msg: Seq<char>) -> bool {
    &&& status_set(o, n, msg)
    &&& n == (App {
        status_message: n.status_message,
        status_message_set_at: n.status_message_set_at,
        ..o
    })
}

/// How a task or project command changes the state, with the work it leaves.
pub open spec fn task_acted(o: App, n: App, cmd: Command, e: Effect) -> bool {
    match cmd {
        Command::AddTask => {
            &&& e is Nothing
            &&& n.dialog matches Some(Dialog::AddTask(d)) && d.is_blank() && d.all_tags@
                == o.tags@ && d.project_id == match project_of(o) {
                Some(p) => Some(p.id),
                None => None,
            }
            &&& opened(o, n, edit_hint())
        },
        Command::EditTask | Command::EditTags => {
            &&& e is Nothing
            &&& match selected_of(o) {
                Some(t) => {
                    &&& n.dialog matches Some(Dialog::AddTask(d)) && d.edits(t) && d.all_tags@
                        == o.tags@
                    &&& opened(
                        o,
                        n,
                        if cmd is EditTask {
                            edit_hint()
                        } else {
                            "Tab to Tags field, Enter to add tags"@
                        },
                    )
                },
                None => n == o,
            }
        },
        Command::DeleteTask => {
            &&& e is Nothing
            &&& match selected_of(o) {
                Some(t) => {
                    &&& n.dialog matches Some(Dialog::Confirm(c)) && {
                        &&& c.title@ == "Delete Task?"@
                        &&& c.message@ == crate::ui::dialogs::confirm::delete_task_message(
                            t.title@,
                        )
                        &&& c.confirm_text@ == "Delete"@
                        &&& c.cancel_text@ == "Cancel"@
                        &&& !c.selected_yes
                        &&& c.destructive
                    }
                    &&& n == (App { dialog: n.dialog, ..o })
                },
                None => n == o,
            }
        },
        Command::ToggleTaskStatus => match selected_of(o) {
            Some(t) => {
                let done = t.status == TaskStatus::Completed;
                &&& e matches Effect::Store(StoreOp::UpdateTask(u)) && same_task(
                    u,
                    if done {
                        reopened(t, o.clock.now)
                    } else {
                        completed(t, o.clock.now)
                    },
                )
                &&& told(
                    o,
                    n,
                    if done {
                        "Task reopened"@
                    } else {
                        "Task completed!"@
                    },
                )
            },
            None => n == o && e is Nothing,
        },
        Command::CyclePriority => match selected_of(o) {
            Some(t) => {
                let p = cycled_priority(t.priority);
                &&& e matches Effect::Store(StoreOp::UpdateTask(u)) && same_task(
                    u,
                    Task { priority: p, ..t },
                )
                &&& told(o, n, "Priority: "@ + priority_name(p))
            },
            None => n == o && e is Nothing,
        },
        Command::MoveToProject => {
            &&& e is Nothing
            &&& match selected_of(o) {
                Some(t) => {
                    &&& n.dialog matches Some(Dialog::MoveToProject(d)) && d.projects@
                        == o.projects@ && d.task_id == t.id && d.selected_index == match t.project_id {
                        Some(id) => match crate::ui::dialogs::move_to_project::project_position(
                            o.projects@,
                            id@,
                        ) {
                            Some(i) => i,
                            None => 0,
                        },
                        None => 0,
                    }
                    &&& opened(o, n, "Select project to move task to"@)
                },
                None => n == o,
            }
        },
        Command::AddProject => {
            &&& e is Nothing
            &&& n.dialog matches Some(Dialog::Project(d)) && d.is_blank()
            &&& opened(o, n, "Enter project name, Tab to navigate"@)
        },
        Command::EditProject => {
            &&& e is Nothing
            &&& if o.selected_project_index > 0 {
                match project_of(o) {
                    Some(p) => {
                        &&& n.dialog matches Some(Dialog::Project(d)) && d.edits(p)
                        &&& opened(o, n, "Edit project, Tab to navigate"@)
                    },
                    None => n == o,
                }
            } else {
                told(o, n, "Select a project to edit (not 'All Tasks')"@)
            }
        },
        Command::DeleteProject => {
            &&& e is Nothing
            &&& if o.selected_project_index > 0 {
                match project_of(o) {
                    Some(p) => if p.id@ == "inbox"@ {
                        told(o, n, "Cannot delete the Inbox project"@)
                    } else {
                        &&& n.dialog matches Some(Dialog::DeleteProject(d)) && {
                            &&& d.project_id == p.id
                            &&& d.project_name == p.name
                            &&& d.task_count == o.tasks@.filter(
                                |t: Task|
                                    (t.project_id matches Some(q) && q@ == p.id@) && t.status
                                        != TaskStatus::Archived,
                            ).len()
                            &&& d.selected == DeleteProjectChoice::MoveToInbox
                        }
                        &&& n == (App { dialog: n.dialog, ..o })
                    },
                    None => n == o,
                }
            } else {
                told(o, n, "Select a project to delete"@)
            }
        },
        _ => false,
    }
}

impl App {
    /// Opens `d` with `msg` in the status bar.
    fn open_dialog(&mut self, d: Dialog, msg: &str)
        ensures
            *final(self) == (App {
                dialog: Some(d),
                status_message: final(self).status_message,
                status_message_set_at: Some(old(self).clock.now),
                ..*old(self)
            }),
            final(self).status_message matches Some(m) && m@ == msg@,
    {
        self.dialog = Some(d);
        self.set_status(msg);
    }

    /// Carries out a task or project command (see [`task_acted`]).
    fn act_on_task(&mut self, cmd: &Command) -> (r: Effect)
        requires
            old(self).wf(),
            is_task_action(*cmd),
        ensures
            task_acted(*old(self), *final(self), *cmd, r),
    {
        match cmd {
            Command::AddTask => {
                let mut d = AddTaskDialog::new().with_available_tags(copy_tags(&self.tags));
                match self.selected_project() {
                    Some(p) => {
                        d.project_id = Some(p.id.clone());
                    },
                    None => {},
                }
                self.open_dialog(
                    Dialog::AddTask(Box::new(d)),
                    "Tab between fields, Ctrl+Enter to save",
                );
                Effect::Nothing
            },
            Command::EditTask | Command::EditTags => {
                let d = match self.selected_task() {
                    Some(t) => Some(
                        AddTaskDialog::from_task(t).with_available_tags(copy_tags(&self.tags)),
                    ),
                    None => None,
                };
                match d {
                    Some(d) => {
                        let msg = match cmd {
                            Command::EditTask => "Tab between fields, Ctrl+Enter to save",
                            _ => "Tab to Tags field, Enter to add tags",
                        };
                        self.open_dialog(Dialog::AddTask(Box::new(d)), msg);
                    },
                    None => {},
                }
                Effect::Nothing
            },
            Command::DeleteTask => {
                let d = match self.selected_task() {
                    Some(t) => Some(ConfirmDialog::delete_task(t.title.as_str())),
                    None => None,
                };
                match d {
                    Some(d) => {
                        self.dialog = Some(Dialog::Confirm(d));
                    },
                    None => {},
                }
                Effect::Nothing
            },
            Command::ToggleTaskStatus => {
                let now = self.clock.now;
                let u = match self.selected_task() {
                    Some(t) => {
                        let mut c = t.copy();
                        if c.status == TaskStatus::Completed {
                            c.reopen_at(now);
                        } else {
                            c.complete_at(now);
                        }
                        Some(c)
                    },
                    None => None,
                };
                match u {
                    Some(c) => {
                        if c.status == TaskStatus::Pending {
                            self.set_status("Task reopened");
                        } else {
                            self.set_status("Task completed!");
                        }
                        Effect::Store(StoreOp::UpdateTask(c))
                    },
                    None => Effect::Nothing,
                }
            },
            Command::CyclePriority => {
                let u = match self.selected_task() {
                    Some(t) => {
                        let mut c = t.copy();
                        c.priority = match c.priority {
                            Priority::Low => Priority::Medium,
                            Priority::Medium => Priority::High,
                            Priority::High => Priority::Urgent,
                            Priority::Urgent => Priority::Low,
                        };
                        Some(c)
                    },
                    None => None,
                };
                match u {
                    Some(c) => {
                        let msg = concat("Priority: ", priority_label(c.priority));
                        self.set_status_string(msg);
                        Effect::Store(StoreOp::UpdateTask(c))
                    },
                    None => Effect::Nothing,
                }
            },
            Command::MoveToProject => {
                let d = match self.selected_task() {
                    Some(t) => {
                        let current = match &t.project_id {
                            Some(p) => Some(p.as_str()),
                            None => None,
                        };
                        Some(
                            MoveToProjectDialog::new(
                                copy_projects(&self.projects),
                                t.id.clone(),
                                current,
                            ),
                        )
                    },
                    None => None,
                };
                match d {
                    Some(d) => {
                        self.open_dialog(
                            Dialog::MoveToProject(d),
                            "Select project to move task to",
                        );
                    },
                    None => {},
                }
                Effect::Nothing
            },
            Command::AddProject => {
                self.open_dialog(
                    Dialog::Project(ProjectDialog::new()),
                    "Enter project name, Tab to navigate",
                );
                Effect::Nothing
            },
            Command::EditProject => {
                if self.selected_project_index > 0 {
                    let d = match self.selected_project() {
                        Some(p) => Some(ProjectDialog::from_project(p)),
                        None => None,
                    };
                    match d {
                        Some(d) => {
                            self.open_dialog(Dialog::Project(d), "Edit project, Tab to navigate");
                        },
                        None => {},
                    }
                } else {
                    self.set_status("Select a project to edit (not 'All Tasks')");
                }
                Effect::Nothing
            },
            _ => {
                if self.selected_project_index > 0 {
                    let p = match self.selected_project() {
                        Some(p) => Some(p.copy()),
                        None => None,
                    };
                    match p {
                        Some(p) => {
                            let inbox = string_from("inbox");
                            if p.id == inbox {
                                self.set_status("Cannot delete the Inbox project");
                            } else {
                                let count = self.task_count_for_project(p.id.as_str());
                                self.dialog = Some(
                                    Dialog::DeleteProject(
                                        DeleteProjectDialog::new(p.id, p.name, count),
                                    ),
                                );
                            }
                        },
                        None => {},
                    }
                } else {
                    self.set_status("Select a project to delete");
                }
                Effect::Nothing
            },
        }
    }
}

/// How `cmd` changes the state, whether the application keeps running,
/// and the outside work it leaves.
pub open spec fn executed(o: App, n: App, cmd: Command, out: Outcome) -> bool {
    if is_navigation(cmd) {
        navigated(o, n, cmd) && out.keep_running && out.effect is Nothing
    } else if is_view_change(cmd) {
        view_changed(o, n, cmd) && out.keep_running && out.effect is Nothing
    } else if is_filter_change(cmd) {
        filter_changed(o, n, cmd) && out.keep_running && out.effect is Nothing
    } else if is_input(cmd) {
        input_handled(o, n, cmd, out.effect) && out.keep_running
    } else if is_task_action(cmd) {
        task_acted(o, n, cmd, out.effect) && out.keep_running
    } else {
        match cmd {
            Command::LoggerEvent(ev) => n == o && out.keep_running && (
            out.effect matches Effect::Logger(x) && x == ev),
            Command::Quit | Command::ForceQuit => n == (App { should_quit: true, ..o })
                && !out.keep_running && out.effect is Nothing,
            Command::Refresh => n == o && out.keep_running && (
            out.effect matches Effect::Store(StoreOp::Reload)),
            _ => false,
        }
    }
}

impl Command {
    /// Carries out the command on `app` (see [`executed`]).
    pub fn execute(self, app: &mut App) -> (r: Outcome)
        requires
            old(app).wf(),
        ensures
            final(app).wf(),
            executed(*old(app), *final(app), self, r),
    {
        match self {
            Command::NavigateUp | Command::NavigateDown | Command::NavigateTop
            | Command::NavigateBottom | Command::PageDown | Command::PageUp
            | Command::SwitchPanel | Command::FocusSidebar | Command::FocusTaskList => {
                app.navigate(&self);
                Outcome { keep_running: true, effect: Effect::Nothing }
            },
            Command::ShowMain | Command::ShowHelp | Command::ShowCalendar
            | Command::CalendarPrevDay | Command::CalendarNextDay | Command::CalendarPrevWeek
            | Command::CalendarNextWeek | Command::CalendarToday | Command::CalendarSelectDay
            | Command::ShowSearch | Command::SearchNavigateUp | Command::SearchNavigateDown
            | Command::SearchSelectTask | Command::ShowDebugLogs | Command::ShowTaskDetail => {
                app.change_view(&self);
                Outcome { keep_running: true, effect: Effect::Nothing }
            },
            Command::SetFilter(_) | Command::ShowFilterSort | Command::ShowSettings
            | Command::FilterToday | Command::FilterThisWeek | Command::FilterByPriority(_) => {
                app.change_filter(self);
                Outcome { keep_running: true, effect: Effect::Nothing }
            },
            Command::EnterEditMode | Command::ExitEditMode | Command::SubmitInput
            | Command::CancelInput | Command::InsertChar(_) | Command::DeleteCharBackward
            | Command::DeleteCharForward | Command::MoveCursorLeft | Command::MoveCursorRight
            | Command::MoveCursorStart | Command::MoveCursorEnd => {
                let e = app.handle_input(self);
                Outcome { keep_running: true, effect: e }
            },
            Command::AddTask | Command::EditTask | Command::DeleteTask
            | Command::ToggleTaskStatus | Command::CyclePriority | Command::MoveToProject
            | Command::EditTags | Command::AddProject | Command::EditProject
            | Command::DeleteProject => {
                let e = app.act_on_task(&self);
                Outcome { keep_running: true, effect: e }
            },
            Command::LoggerEvent(ev) => Outcome { keep_running: true, effect: Effect::Logger(ev) },
            Command::Quit | Command::ForceQuit => {
                app.should_quit = true;
                Outcome { keep_running: false, effect: Effect::Nothing }
            },
            Command::Refresh => Outcome {
                keep_running: true,
                effect: Effect::Store(StoreOp::Reload),
            },
        }
    }
}

/// The state with the data replaced by what was loaded, the selection kept
/// within the new list.
pub open spec fn reloaded(o: App, tasks: Vec<Task>, projects: Vec<Project>, tags: Vec<Tag>) -> App {
    let l = App { tasks, projects, tags, ..o };
    App { selected_task_index: adjusted(o.selected_task_index, l.visible().len() as int), ..l }
}

/// The status message after deleting `n` completed tasks.
pub open spec fn deleted_completed_message(n: u64) -> Seq<char> {
    "Deleted "@ + decimal_digits(n as nat) + " completed task(s)"@
}

/// The status message after a reset that deleted `t` tasks and `p` projects.
pub open spec fn reset_message(t: u64, p: u64) -> Seq<char> {
    "Database reset: deleted "@ + decimal_digits(t as nat) + " task(s) and "@ + decimal_digits(
        p as nat,
    ) + " project(s)"@
}

/// How the state follows a storage operation `op`, given the data loaded
/// afterwards and the numbers of tasks and projects it deleted.
pub open spec fn after_stored(
    o: App,
    n: App,
    op: StoreOp,
    tasks: Vec<Task>,
    projects: Vec<Project>,
    tags: Vec<Tag>,
    deleted: (u64, u64),
) -> bool {
    let l = reloaded(o, tasks, projects, tags);
    match op {
        StoreOp::Reload => {
            &&& status_set(l, n, "Data refreshed"@)
            &&& n == (App {
                status_message: n.status_message,
                status_message_set_at: n.status_message_set_at,
                ..l
            })
        },
        StoreOp::ReloadToAllTasks | StoreOp::DeleteProject { .. } => n == (App {
            selected_project_index: 0,
            ..l
        }),
        StoreOp::DeleteCompletedTasks => {
            &&& status_set(l, n, deleted_completed_message(deleted.0))
            &&& n == (App {
                status_message: n.status_message,
                status_message_set_at: n.status_message_set_at,
                ..l
            })
        },
        StoreOp::ResetDatabase => {
            &&& status_set(l, n, reset_message(deleted.0, deleted.1))
            &&& n == (App {
                selected_task_index: None,
                selected_project_index: 0,
                status_message: n.status_message,
                status_message_set_at: n.status_message_set_at,
                ..l
            })
        },
        _ => n == l,
    }
}

/// The decimal digits of `n` as text.
fn decimal_text(n: u64) -> (r: String)
    ensures
        r@ == decimal_digits(n as nat),
{
    let d = digits_of(n);
    string_of(&d)
}

impl App {
    /// Takes in the data loaded after storage operation `op` and finishes
    /// what the command began (see [`after_stored`]); `deleted` holds the
    /// numbers of tasks and projects the operation deleted.
    pub fn after_store(
        &mut self,
        op: &StoreOp,
        tasks: Vec<Task>,
        projects: Vec<Project>,
        tags: Vec<Tag>,
        deleted: (u64, u64),
    )
        requires
            old(self).wf(),
            projects@.len() < usize::MAX,
        ensures
            final(self).wf(),
            after_stored(*old(self), *final(self), *op, tasks, projects, tags, deleted),
    {
        self.load_data(tasks, projects, tags);
        match op {
            StoreOp::Reload => {
                self.set_status("Data refreshed");
            },
            StoreOp::ReloadToAllTasks | StoreOp::DeleteProject { .. } => {
                self.selected_project_index = 0;
            },
            StoreOp::DeleteCompletedTasks => {
                let head = concat("Deleted ", decimal_text(deleted.0).as_str());
                let msg = concat(head.as_str(), " completed task(s)");
                self.set_status_string(msg);
            },
            StoreOp::ResetDatabase => {
                self.selected_task_index = None;
                self.selected_project_index = 0;
                let a = concat("Database reset: deleted ", decimal_text(deleted.0).as_str());
                let b = concat(a.as_str(), " task(s) and ");
                let c = concat(b.as_str(), decimal_text(deleted.1).as_str());
                let msg = concat(c.as_str(), " project(s)");
                self.set_status_string(msg);
            },
            _ => {},
        }
    }
}

/// Cycling a task's priority four times gives back its priority, each
/// step raising it by one level but from Urgent, which wraps to Low.
pub proof fn law_priority_cycle(p: Priority)
    ensures
        cycled_priority(cycled_priority(cycled_priority(cycled_priority(p)))) == p,
        cycled_priority(p) != p,
{
}

/// Quitting stops the application and changes nothing but the quit flag.
pub proof fn law_quit_stops(o: App, n: App, cmd: Command, out: Outcome)
    requires
        cmd is Quit || cmd is ForceQuit,
        executed(o, n, cmd, out),
    ensures
        !out.keep_running,
        n.should_quit,
        n == (App { should_quit: true, ..o }),
{
}

/// Every command but a quit keeps the application running.
pub proof fn law_only_quit_stops(o: App, n: App, cmd: Command, out: Outcome)
    requires
        !(cmd is Quit || cmd is ForceQuit),
        executed(o, n, cmd, out),
    ensures
        out.keep_running,
{
}

/// A refused command changes nothing.
pub proof fn law_refused_changes_nothing(o: App, n: App, cmd: Command, out: Outcome)
    requires
        executed(o, n, cmd, out),
        out.effect is Refused,
    ensures
        n == o,
{
}

/// Moving in the search results keeps the selection within them.
pub proof fn law_search_selection_in_bounds(o: App, n: App, cmd: Command, out: Outcome)
    requires
        cmd is SearchNavigateUp || cmd is SearchNavigateDown,
        executed(o, n, cmd, out),
        o.search_results@.len() > 0,
        o.selected_search_index < o.search_results@.len(),
    ensures
        n.selected_search_index < n.search_results@.len(),
        n.search_results == o.search_results,
{
}

/// Typing a character and deleting it again with Backspace gives back the
/// input line and cursor, outside search mode.
pub proof fn law_insert_then_backspace(o: App, m: App, n: App, c: char, out1: Outcome, out2: Outcome)
    requires
        o.wf(),
        o.input_mode != InputMode::Search,
        o.input_buffer@.len() < usize::MAX,
        executed(o, m, Command::InsertChar(c), out1),
        executed(m, n, Command::DeleteCharBackward, out2),
    ensures
        n.input_buffer@ == o.input_buffer@,
        n.input_cursor == o.input_cursor,
        n == (App { input_buffer: n.input_buffer, ..o }),
{
    assert(o.input_buffer@.insert(o.input_cursor as int, c).remove(o.input_cursor as int)
        =~= o.input_buffer@);
}

/// Page up on a non-empty task list moves the selection up by ten rows,
/// stopping at the first task: it lands ten rows up, or on the first task
/// when fewer than ten rows lie above. Nothing else changes.
pub proof fn law_page_up(o: App, n: App, out: Outcome, c: usize)
    requires
        executed(o, n, Command::PageUp, out),
        o.focus == FocusPanel::TaskList,
        o.visible().len() > 0,
        o.selected_task_index == Some(c),
    ensures
        n.selected_task_index matches Some(s) && s <= c && c - s <= 10 && (s == 0 || c - s == 10),
        n == (App { selected_task_index: n.selected_task_index, ..o }),
        out.keep_running,
{
}

/// Page down on a non-empty task list moves the selection down by ten
/// rows, stopping at the last task. Nothing else changes.
pub proof fn law_page_down(o: App, n: App, out: Outcome, c: usize)
    requires
        executed(o, n, Command::PageDown, out),
        o.focus == FocusPanel::TaskList,
        c < o.visible().len() <= usize::MAX,
        o.selected_task_index == Some(c),
    ensures
        n.selected_task_index matches Some(s) && c <= s < o.visible().len() && s - c <= 10 && (s
            - c == 10 || s == o.visible().len() - 1),
        n == (App { selected_task_index: n.selected_task_index, ..o }),
        out.keep_running,
{
}

/// In the task list, moving down and then up returns to the same task, and
/// both moves keep the selection inside the list (wrapping at the ends).
pub proof fn law_down_then_up(o: App, m: App, n: App, out1: Outcome, out2: Outcome, c: usize)
    requires
        executed(o, m, Command::NavigateDown, out1),
        executed(m, n, Command::NavigateUp, out2),
        o.focus == FocusPanel::TaskList,
        c < o.visible().len() <= usize::MAX,
        o.selected_task_index == Some(c),
    ensures
        m.selected_task_index matches Some(s) && s < o.visible().len() && (s == c + 1 || (s == 0
            && c == o.visible().len() - 1)),
        n.selected_task_index == Some(c),
        n == o,
{
    assert(m.visible() == o.visible());
}

/// In a non-empty task list, jumping to the top selects the first task,
/// jumping to the bottom the last one, and moving up goes one task up,
/// wrapping from the first task to the last.
pub proof fn law_task_list_jumps(o: App, n: App, out: Outcome, cmd: Command, c: usize)
    requires
        executed(o, n, cmd, out),
        o.focus == FocusPanel::TaskList,
        c < o.visible().len() <= usize::MAX,
        o.selected_task_index == Some(c),
    ensures
        cmd == Command::NavigateTop ==> n.selected_task_index == Some(0usize),
        cmd == Command::NavigateBottom ==> n.selected_task_index == Some(
            (o.visible().len() - 1) as usize,
        ),
        cmd == Command::NavigateUp ==> (n.selected_task_index matches Some(s) && ((c > 0 && s
            == c - 1) || (c == 0 && s == o.visible().len() - 1))),
        cmd == Command::NavigateTop || cmd == Command::NavigateBottom || cmd
            == Command::NavigateUp ==> n == (App { selected_task_index: n.selected_task_index, ..o }),
{
}

} // verus!
