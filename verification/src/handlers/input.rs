//! Key bindings: which command a key asks for, given the view, the input
//! mode and the focused panel. The bindings follow Vim where they can:
//! `j`/`k` down and up, `h`/`l` between panels, `g`/`G` to the top and
//! bottom, Control-`d`/`u` by pages.
use vstd::prelude::*;
use crate::app::{App, FocusPanel, InputMode, Screen};
use crate::handlers::commands::{Command, TuiLoggerEvent};
use crate::keys::{KeyCode, KeyEvent};
use crate::models::priority::Priority;

verus! {

/// Keys in the help view: any key goes back to the main view.
pub open spec fn help_view_command(key: KeyEvent) -> Option<Command> {
    Some(Command::ShowMain)
}

/// Keys in the log viewer.
pub open spec fn debug_view_command(key: KeyEvent) -> Option<Command> {
    match key.code {
        KeyCode::Esc => Some(Command::ShowMain),
        KeyCode::Char(' ') => Some(Command::LoggerEvent(TuiLoggerEvent::SpaceBar)),
        KeyCode::Up | KeyCode::Char('k') => Some(Command::LoggerEvent(TuiLoggerEvent::Up)),
        KeyCode::Down | KeyCode::Char('j') => Some(Command::LoggerEvent(TuiLoggerEvent::Down)),
        KeyCode::PageUp => Some(Command::LoggerEvent(TuiLoggerEvent::PrevPage)),
        KeyCode::PageDown => Some(Command::LoggerEvent(TuiLoggerEvent::NextPage)),
        KeyCode::Left | KeyCode::Char('h') => Some(Command::LoggerEvent(TuiLoggerEvent::Left)),
        KeyCode::Right | KeyCode::Char('l') => Some(Command::LoggerEvent(TuiLoggerEvent::Right)),
        KeyCode::Char('+') | KeyCode::Char('=') => Some(Command::LoggerEvent(TuiLoggerEvent::Plus)),
        KeyCode::Char('-') => Some(Command::LoggerEvent(TuiLoggerEvent::Minus)),
        KeyCode::Char('H') => Some(Command::LoggerEvent(TuiLoggerEvent::Hide)),
        _ => None,
    }
}

/// Keys in the calendar view.
pub open spec fn calendar_view_command(key: KeyEvent) -> Option<Command> {
    match key.code {
        KeyCode::Esc => Some(Command::ShowMain),
        KeyCode::Left | KeyCode::Char('h') => Some(Command::CalendarPrevDay),
        KeyCode::Right | KeyCode::Char('l') => Some(Command::CalendarNextDay),
        KeyCode::Up | KeyCode::Char('k') => Some(Command::CalendarPrevWeek),
        KeyCode::Down | KeyCode::Char('j') => Some(Command::CalendarNextWeek),
        KeyCode::Char('t') => Some(Command::CalendarToday),
        KeyCode::Enter => Some(Command::CalendarSelectDay),
        KeyCode::Char('q') => Some(Command::Quit),
        _ => None,
    }
}

/// Keys in the task detail view.
pub open spec fn task_detail_view_command(key: KeyEvent) -> Option<Command> {
    match key.code {
        KeyCode::Esc => Some(Command::ShowMain),
        KeyCode::Char(' ') => Some(Command::ToggleTaskStatus),
        KeyCode::Char('p') => Some(Command::CyclePriority),
        KeyCode::Char('e') | KeyCode::Enter => Some(Command::EditTask),
        KeyCode::Char('d') => Some(Command::DeleteTask),
        KeyCode::Char('q') => Some(Command::Quit),
        _ => None,
    }
}

/// Keys in normal mode, on the main view.
pub open spec fn normal_mode_command(key: KeyEvent, focus: FocusPanel) -> Option<Command> {
    let side = focus == FocusPanel::Sidebar;
    match key.code {
        KeyCode::Char('q') => Some(Command::Quit),
        KeyCode::Char('j') | KeyCode::Down => Some(Command::NavigateDown),
        KeyCode::Char('k') | KeyCode::Up => Some(Command::NavigateUp),
        KeyCode::Char('g') | KeyCode::Home => Some(Command::NavigateTop),
        KeyCode::Char('G') | KeyCode::End => Some(Command::NavigateBottom),
        KeyCode::Char('d') if key.modifiers.control => Some(Command::PageDown),
        KeyCode::Char('u') if key.modifiers.control => Some(Command::PageUp),
        KeyCode::Tab => Some(Command::SwitchPanel),
        KeyCode::Char('h') | KeyCode::Left => Some(Command::FocusSidebar),
        KeyCode::Char('l') | KeyCode::Right => Some(Command::FocusTaskList),
        KeyCode::Char('a') => Some(
            if side {
                Command::AddProject
            } else {
                Command::AddTask
            },
        ),
        KeyCode::Char('e') | KeyCode::Enter => Some(
            if side {
                Command::EditProject
            } else {
                Command::EditTask
            },
        ),
        KeyCode::Char('d') => Some(
            if side {
                Command::DeleteProject
            } else {
                Command::DeleteTask
            },
        ),
        KeyCode::Char(' ') => Some(Command::ToggleTaskStatus),
        KeyCode::Char('p') => Some(Command::CyclePriority),
        KeyCode::Char('t') => Some(Command::EditTags),
        KeyCode::Char('m') => Some(Command::MoveToProject),
        KeyCode::Char('?') => Some(Command::ShowHelp),
        KeyCode::Char('/') => Some(Command::ShowSearch),
        KeyCode::Char('c') => Some(Command::ShowCalendar),
        KeyCode::Char('T') => Some(Command::FilterToday),
        KeyCode::Char('W') => Some(Command::FilterThisWeek),
        KeyCode::Char('1') => Some(Command::FilterByPriority(Priority::Low)),
        KeyCode::Char('2') => Some(Command::FilterByPriority(Priority::Medium)),
        KeyCode::Char('3') => Some(Command::FilterByPriority(Priority::High)),
        KeyCode::Char('4') => Some(Command::FilterByPriority(Priority::Urgent)),
        KeyCode::Char('f') => Some(Command::ShowFilterSort),
        KeyCode::Char('S') => Some(Command::ShowSettings),
        KeyCode::Char('r') => Some(Command::Refresh),
        _ => None,
    }
}

/// Keys in editing mode: text editing, Emacs-style Control-`a`/`e`, Esc to
/// cancel and Enter to submit.
pub open spec fn editing_mode_command(key: KeyEvent) -> Option<Command> {
    if key.modifiers.control {
        match key.code {
            KeyCode::Char('a') => Some(Command::MoveCursorStart),
            KeyCode::Char('e') => Some(Command::MoveCursorEnd),
            _ => None,
        }
    } else {
        match key.code {
            KeyCode::Esc => Some(Command::CancelInput),
            KeyCode::Enter => Some(Command::SubmitInput),
            KeyCode::Char(c) => Some(Command::InsertChar(c)),
            KeyCode::Backspace => Some(Command::DeleteCharBackward),
            KeyCode::Delete => Some(Command::DeleteCharForward),
            KeyCode::Left => Some(Command::MoveCursorLeft),
            KeyCode::Right => Some(Command::MoveCursorRight),
            KeyCode::Home => Some(Command::MoveCursorStart),
            KeyCode::End => Some(Command::MoveCursorEnd),
            _ => None,
        }
    }
}

/// Keys in search mode: like editing, with the results navigated by the
/// arrows and Control-`n`/`p`, and Enter selecting a result.
pub open spec fn search_mode_command(key: KeyEvent) -> Option<Command> {
    if key.modifiers.control {
        match key.code {
            KeyCode::Char('a') => Some(Command::MoveCursorStart),
            KeyCode::Char('e') => Some(Command::MoveCursorEnd),
            KeyCode::Char('n') => Some(Command::SearchNavigateDown),
            KeyCode::Char('p') => Some(Command::SearchNavigateUp),
            _ => None,
        }
    } else {
        match key.code {
            KeyCode::Esc => Some(Command::CancelInput),
            KeyCode::Enter => Some(Command::SearchSelectTask),
            KeyCode::Down => Some(Command::SearchNavigateDown),
            KeyCode::Up => Some(Command::SearchNavigateUp),
            KeyCode::Char(c) => Some(Command::InsertChar(c)),
            KeyCode::Backspace => Some(Command::DeleteCharBackward),
            KeyCode::Delete => Some(Command::DeleteCharForward),
            KeyCode::Left => Some(Command::MoveCursorLeft),
            KeyCode::Right => Some(Command::MoveCursorRight),
            KeyCode::Home => Some(Command::MoveCursorStart),
            KeyCode::End => Some(Command::MoveCursorEnd),
            _ => None,
        }
    }
}

/// The command a key asks for: Control-C and F12 everywhere, then the
/// bindings of the view, then those of the input mode.
pub open spec fn key_command(key: KeyEvent, view: Screen, mode: InputMode, focus: FocusPanel) -> Option<
    Command,
> {
    if key.code == KeyCode::Char('c') && key.modifiers.control {
        Some(Command::ForceQuit)
    } else if key.code == KeyCode::F(12) {
        Some(Command::ShowDebugLogs)
    } else {
        match view {
            Screen::Help => help_view_command(key),
            Screen::DebugLogs => debug_view_command(key),
            Screen::Calendar => calendar_view_command(key),
            Screen::TaskDetail => task_detail_view_command(key),
            _ => if view == Screen::Search && mode == InputMode::Search {
                search_mode_command(key)
            } else {
                match mode {
                    InputMode::Normal => normal_mode_command(key, focus),
                    InputMode::Editing => editing_mode_command(key),
                    InputMode::Search => search_mode_command(key),
                }
            },
        }
    }
}

fn map_help_view_key(key: KeyEvent) -> (r: Option<Command>)
    ensures
        r == help_view_command(key),
{
    Some(Command::ShowMain)
}

fn map_debug_view_key(key: KeyEvent) -> (r: Option<Command>)
    ensures
        r == debug_view_command(key),
{
    match key.code {
        KeyCode::Esc => Some(Command::ShowMain),
        KeyCode::Char(' ') => Some(Command::LoggerEvent(TuiLoggerEvent::SpaceBar)),
        KeyCode::Up | KeyCode::Char('k') => Some(Command::LoggerEvent(TuiLoggerEvent::Up)),
        KeyCode::Down | KeyCode::Char('j') => Some(Command::LoggerEvent(TuiLoggerEvent::Down)),
        KeyCode::PageUp => Some(Command::LoggerEvent(TuiLoggerEvent::PrevPage)),
        KeyCode::PageDown => Some(Command::LoggerEvent(TuiLoggerEvent::NextPage)),
        KeyCode::Left | KeyCode::Char('h') => Some(Command::LoggerEvent(TuiLoggerEvent::Left)),
        KeyCode::Right | KeyCode::Char('l') => Some(Command::LoggerEvent(TuiLoggerEvent::Right)),
        KeyCode::Char('+') | KeyCode::Char('=') => Some(Command::LoggerEvent(TuiLoggerEvent::Plus)),
        KeyCode::Char('-') => Some(Command::LoggerEvent(TuiLoggerEvent::Minus)),
        KeyCode::Char('H') => Some(Command::LoggerEvent(TuiLoggerEvent::Hide)),
        _ => None,
    }
}

fn map_calendar_view_key(key: KeyEvent) -> (r: Option<Command>)
    ensures
        r == calendar_view_command(key),
{
    match key.code {
        KeyCode::Esc => Some(Command::ShowMain),
        KeyCode::Left | KeyCode::Char('h') => Some(Command::CalendarPrevDay),
        KeyCode::Right | KeyCode::Char('l') => Some(Command::CalendarNextDay),
        KeyCode::Up | KeyCode::Char('k') => Some(Command::CalendarPrevWeek),
        KeyCode::Down | KeyCode::Char('j') => Some(Command::CalendarNextWeek),
        KeyCode::Char('t') => Some(Command::CalendarToday),
        KeyCode::Enter => Some(Command::CalendarSelectDay),
        KeyCode::Char('q') => Some(Command::Quit),
        _ => None,
    }
}

fn map_task_detail_view_key(key: KeyEvent) -> (r: Option<Command>)
    ensures
        r == task_detail_view_command(key),
{
    match key.code {
        KeyCode::Esc => Some(Command::ShowMain),
        KeyCode::Char(' ') => Some(Command::ToggleTaskStatus),
        KeyCode::Char('p') => Some(Command::CyclePriority),
        KeyCode::Char('e') | KeyCode::Enter => Some(Command::EditTask),
        KeyCode::Char('d') => Some(Command::DeleteTask),
        KeyCode::Char('q') => Some(Command::Quit),
        _ => None,
    }
}

fn map_normal_mode_key(key: KeyEvent, focus: FocusPanel) -> (r: Option<Command>)
    ensures
        r == normal_mode_command(key, focus),
{
    let side = focus == FocusPanel::Sidebar;
    match key.code {
        KeyCode::Char('q') => Some(Command::Quit),
        KeyCode::Char('j') | KeyCode::Down => Some(Command::NavigateDown),
        KeyCode::Char('k') | KeyCode::Up => Some(Command::NavigateUp),
        KeyCode::Char('g') | KeyCode::Home => Some(Command::NavigateTop),
        KeyCode::Char('G') | KeyCode::End => Some(Command::NavigateBottom),
        KeyCode::Char('d') if key.modifiers.control => Some(Command::PageDown),
        KeyCode::Char('u') if key.modifiers.control => Some(Command::PageUp),
        KeyCode::Tab => Some(Command::SwitchPanel),
        KeyCode::Char('h') | KeyCode::Left => Some(Command::FocusSidebar),
        KeyCode::Char('l') | KeyCode::Right => Some(Command::FocusTaskList),
        KeyCode::Char('a') => Some(
            if side {
                Command::AddProject
            } else {
                Command::AddTask
            },
        ),
        KeyCode::Char('e') | KeyCode::Enter => Some(
            if side {
                Command::EditProject
            } else {
                Command::EditTask
            },
        ),
        KeyCode::Char('d') => Some(
            if side {
                Command::DeleteProject
            } else {
                Command::DeleteTask
            },
        ),
        KeyCode::Char(' ') => Some(Command::ToggleTaskStatus),
        KeyCode::Char('p') => Some(Command::CyclePriority),
        KeyCode::Char('t') => Some(Command::EditTags),
        KeyCode::Char('m') => Some(Command::MoveToProject),
        KeyCode::Char('?') => Some(Command::ShowHelp),
        KeyCode::Char('/') => Some(Command::ShowSearch),
        KeyCode::Char('c') => Some(Command::ShowCalendar),
        KeyCode::Char('T') => Some(Command::FilterToday),
        KeyCode::Char('W') => Some(Command::FilterThisWeek),
        KeyCode::Char('1') => Some(Command::FilterByPriority(Priority::Low)),
        KeyCode::Char('2') => Some(Command::FilterByPriority(Priority::Medium)),
        KeyCode::Char('3') => Some(Command::FilterByPriority(Priority::High)),
        KeyCode::Char('4') => Some(Command::FilterByPriority(Priority::Urgent)),
        KeyCode::Char('f') => Some(Command::ShowFilterSort),
        KeyCode::Char('S') => Some(Command::ShowSettings),
        KeyCode::Char('r') => Some(Command::Refresh),
        _ => None,
    }
}

fn map_editing_mode_key(key: KeyEvent) -> (r: Option<Command>)
    ensures
        r == editing_mode_command(key),
{
    if key.modifiers.control {
        return match key.code {
            KeyCode::Char('a') => Some(Command::MoveCursorStart),
            KeyCode::Char('e') => Some(Command::MoveCursorEnd),
            _ => None,
        };
    }
    match key.code {
        KeyCode::Esc => Some(Command::CancelInput),
        KeyCode::Enter => Some(Command::SubmitInput),
        KeyCode::Char(c) => Some(Command::InsertChar(c)),
        KeyCode::Backspace => Some(Command::DeleteCharBackward),
        KeyCode::Delete => Some(Command::DeleteCharForward),
        KeyCode::Left => Some(Command::MoveCursorLeft),
        KeyCode::Right => Some(Command::MoveCursorRight),
        KeyCode::Home => Some(Command::MoveCursorStart),
        KeyCode::End => Some(Command::MoveCursorEnd),
        _ => None,
    }
}

fn map_search_mode_key(key: KeyEvent) -> (r: Option<Command>)
    ensures
        r == search_mode_command(key),
{
    if key.modifiers.control {
        return match key.code {
            KeyCode::Char('a') => Some(Command::MoveCursorStart),
            KeyCode::Char('e') => Some(Command::MoveCursorEnd),
            KeyCode::Char('n') => Some(Command::SearchNavigateDown),
            KeyCode::Char('p') => Some(Command::SearchNavigateUp),
            _ => None,
        };
    }
    match key.code {
        KeyCode::Esc => Some(Command::CancelInput),
        KeyCode::Enter => Some(Command::SearchSelectTask),
        KeyCode::Down => Some(Command::SearchNavigateDown),
        KeyCode::Up => Some(Command::SearchNavigateUp),
        KeyCode::Char(c) => Some(Command::InsertChar(c)),
        KeyCode::Backspace => Some(Command::DeleteCharBackward),
        KeyCode::Delete => Some(Command::DeleteCharForward),
        KeyCode::Left => Some(Command::MoveCursorLeft),
        KeyCode::Right => Some(Command::MoveCursorRight),
        KeyCode::Home => Some(Command::MoveCursorStart),
        KeyCode::End => Some(Command::MoveCursorEnd),
        _ => None,
    }
}

/// The command `key` asks for in the state of `app` (see [`key_command`]);
/// `None` when the key has no binding there.
pub fn map_key_to_command(key: KeyEvent, app: &App) -> (r: Option<Command>)
    ensures
        r == key_command(key, app.current_view, app.input_mode, app.focus),
{
    if key.code == KeyCode::Char('c') && key.modifiers.control {
        return Some(Command::ForceQuit);
    }
    if key.code == KeyCode::F(12) {
        return Some(Command::ShowDebugLogs);
    }
    match app.current_view {
        Screen::Help => {
            return map_help_view_key(key);
        },
        Screen::DebugLogs => {
            return map_debug_view_key(key);
        },
        Screen::Calendar => {
            return map_calendar_view_key(key);
        },
        Screen::TaskDetail => {
            return map_task_detail_view_key(key);
        },
        Screen::Search => {
            if app.input_mode == InputMode::Search {
                return map_search_mode_key(key);
            }
        },
        _ => {},
    }
    match app.input_mode {
        InputMode::Normal => map_normal_mode_key(key, app.focus),
        InputMode::Editing => map_editing_mode_key(key),
        InputMode::Search => map_search_mode_key(key),
    }
}

/// Control-C quits and F12 shows the log viewer in every view and mode;
/// in the help view every other key goes back to the main view.
pub proof fn law_global_keys(key: KeyEvent, view: Screen, mode: InputMode, focus: FocusPanel)
    ensures
        key.code == KeyCode::Char('c') && key.modifiers.control ==> key_command(
            key,
            view,
            mode,
            focus,
        ) == Some(Command::ForceQuit),
        key.code == KeyCode::F(12) ==> key_command(key, view, mode, focus) == Some(
            Command::ShowDebugLogs,
        ),
        view == Screen::Help && !(key.code == KeyCode::Char('c') && key.modifiers.control)
            && key.code != KeyCode::F(12) ==> key_command(key, view, mode, focus) == Some(
            Command::ShowMain,
        ),
{
}

/// In editing mode every character typed without Control is inserted, on
/// the main view.
pub proof fn law_editing_inserts(key: KeyEvent, c: char, focus: FocusPanel)
    requires
        key.code == KeyCode::Char(c),
        !key.modifiers.control,
    ensures
        key_command(key, Screen::Main, InputMode::Editing, focus) == Some(Command::InsertChar(c)),
{
}

/// The keys of the main view in normal mode: `q` quits; `j`/`k` and the
/// arrows move, `g`/`G`, Home and End jump; Control-`d`/`u` page; Tab,
/// `h`/`l` and Left/Right move the focus; `a`, `e`/Enter and `d` add, edit
/// and delete a task (a project when the sidebar has the focus); Space
/// toggles, `p` cycles the priority, `t` edits tags, `m` moves to a
/// project; `?` help, `/` search, `c` calendar, `T`/`W` filter today and
/// this week, `1`-`4` filter by priority from Low to Urgent, `f` the filter
/// dialog, `S` settings, `r` refresh.
pub proof fn law_main_view_keys(key: KeyEvent, focus: FocusPanel, cmd: Option<Command>)
    requires
        cmd == key_command(key, Screen::Main, InputMode::Normal, focus),
    ensures
        key.code == KeyCode::Char('q') ==> cmd == Some(Command::Quit),
        key.code == KeyCode::Char('j') ==> cmd == Some(Command::NavigateDown),
        key.code == KeyCode::Char('k') ==> cmd == Some(Command::NavigateUp),
        key.code == KeyCode::Char('g') ==> cmd == Some(Command::NavigateTop),
        key.code == KeyCode::Char('G') ==> cmd == Some(Command::NavigateBottom),
        key.code == KeyCode::Char('h') ==> cmd == Some(Command::FocusSidebar),
        key.code == KeyCode::Char('l') ==> cmd == Some(Command::FocusTaskList),
        key.code == KeyCode::Char(' ') ==> cmd == Some(Command::ToggleTaskStatus),
        key.code == KeyCode::Char('p') ==> cmd == Some(Command::CyclePriority),
        key.code == KeyCode::Char('t') ==> cmd == Some(Command::EditTags),
        key.code == KeyCode::Char('m') ==> cmd == Some(Command::MoveToProject),
        key.code == KeyCode::Char('?') ==> cmd == Some(Command::ShowHelp),
        key.code == KeyCode::Char('/') ==> cmd == Some(Command::ShowSearch),
        key.code == KeyCode::Char('T') ==> cmd == Some(Command::FilterToday),
        key.code == KeyCode::Char('W') ==> cmd == Some(Command::FilterThisWeek),
        key.code == KeyCode::Char('1') ==> cmd == Some(Command::FilterByPriority(Priority::Low)),
        key.code == KeyCode::Char('2') ==> cmd == Some(Command::FilterByPriority(Priority::Medium)),
        key.code == KeyCode::Char('3') ==> cmd == Some(Command::FilterByPriority(Priority::High)),
        key.code == KeyCode::Char('4') ==> cmd == Some(Command::FilterByPriority(Priority::Urgent)),
        key.code == KeyCode::Char('f') ==> cmd == Some(Command::ShowFilterSort),
        key.code == KeyCode::Char('S') ==> cmd == Some(Command::ShowSettings),
        key.code == KeyCode::Char('r') ==> cmd == Some(Command::Refresh),
        key.code == KeyCode::Down ==> cmd == Some(Command::NavigateDown),
        key.code == KeyCode::Up ==> cmd == Some(Command::NavigateUp),
        key.code == KeyCode::Home ==> cmd == Some(Command::NavigateTop),
        key.code == KeyCode::End ==> cmd == Some(Command::NavigateBottom),
        key.code == KeyCode::Tab ==> cmd == Some(Command::SwitchPanel),
        key.code == KeyCode::Left ==> cmd == Some(Command::FocusSidebar),
        key.code == KeyCode::Right ==> cmd == Some(Command::FocusTaskList),
        key.code == KeyCode::Char('c') && !key.modifiers.control ==> cmd == Some(Command::ShowCalendar),
        key.code == KeyCode::Char('d') && key.modifiers.control ==> cmd == Some(Command::PageDown),
        key.code == KeyCode::Char('u') && key.modifiers.control ==> cmd == Some(Command::PageUp),
        key.code == KeyCode::Char('a') ==> cmd == Some(
            if focus == FocusPanel::Sidebar { Command::AddProject } else { Command::AddTask },
        ),
        key.code == KeyCode::Char('e') || key.code == KeyCode::Enter ==> cmd == Some(
            if focus == FocusPanel::Sidebar { Command::EditProject } else { Command::EditTask },
        ),
        key.code == KeyCode::Char('d') && !key.modifiers.control ==> cmd == Some(
            if focus == FocusPanel::Sidebar { Command::DeleteProject } else { Command::DeleteTask },
        ),
{
}

/// The keys of the calendar: Esc back to the main view, `h`/`l` and
/// Left/Right a day back and forth, `k`/`j` and Up/Down a week, `t` today,
/// Enter picks the day, `q` quits.
pub proof fn law_calendar_view_keys(key: KeyEvent, mode: InputMode, focus: FocusPanel, cmd: Option<Command>)
    requires
        cmd == key_command(key, Screen::Calendar, mode, focus),
        !(key.code == KeyCode::Char('c') && key.modifiers.control),
        key.code != KeyCode::F(12),
    ensures
        key.code == KeyCode::Esc ==> cmd == Some(Command::ShowMain),
        key.code == KeyCode::Left || key.code == KeyCode::Char('h') ==> cmd == Some(Command::CalendarPrevDay),
        key.code == KeyCode::Right || key.code == KeyCode::Char('l') ==> cmd == Some(Command::CalendarNextDay),
        key.code == KeyCode::Up || key.code == KeyCode::Char('k') ==> cmd == Some(Command::CalendarPrevWeek),
        key.code == KeyCode::Down || key.code == KeyCode::Char('j') ==> cmd == Some(Command::CalendarNextWeek),
        key.code == KeyCode::Char('t') ==> cmd == Some(Command::CalendarToday),
        key.code == KeyCode::Enter ==> cmd == Some(Command::CalendarSelectDay),
        key.code == KeyCode::Char('q') ==> cmd == Some(Command::Quit),
{
}

/// The keys of the task detail view: Esc back, Space toggles, `p` cycles the
/// priority, `e`/Enter edits, `d` deletes, `q` quits.
pub proof fn law_task_detail_keys(key: KeyEvent, mode: InputMode, focus: FocusPanel, cmd: Option<Command>)
    requires
        cmd == key_command(key, Screen::TaskDetail, mode, focus),
        !(key.code == KeyCode::Char('c') && key.modifiers.control),
        key.code != KeyCode::F(12),
    ensures
        key.code == KeyCode::Esc ==> cmd == Some(Command::ShowMain),
        key.code == KeyCode::Char(' ') ==> cmd == Some(Command::ToggleTaskStatus),
        key.code == KeyCode::Char('p') ==> cmd == Some(Command::CyclePriority),
        key.code == KeyCode::Enter || key.code == KeyCode::Char('e') ==> cmd == Some(Command::EditTask),
        key.code == KeyCode::Char('d') ==> cmd == Some(Command::DeleteTask),
        key.code == KeyCode::Char('q') ==> cmd == Some(Command::Quit),
{
}

/// The keys while typing on the main view: Esc cancels, Enter submits,
/// Backspace and Delete erase, the arrows, Home/End and Control-`a`/`e`
/// move the cursor.
pub proof fn law_editing_keys(key: KeyEvent, focus: FocusPanel, cmd: Option<Command>)
    requires
        cmd == key_command(key, Screen::Main, InputMode::Editing, focus),
        !(key.code == KeyCode::Char('c') && key.modifiers.control),
        key.code != KeyCode::F(12),
    ensures
        key.code == KeyCode::Esc && !key.modifiers.control ==> cmd == Some(Command::CancelInput),
        key.code == KeyCode::Enter && !key.modifiers.control ==> cmd == Some(Command::SubmitInput),
        key.code == KeyCode::Backspace && !key.modifiers.control ==> cmd == Some(Command::DeleteCharBackward),
        key.code == KeyCode::Delete && !key.modifiers.control ==> cmd == Some(Command::DeleteCharForward),
        key.code == KeyCode::Left && !key.modifiers.control ==> cmd == Some(Command::MoveCursorLeft),
        key.code == KeyCode::Right && !key.modifiers.control ==> cmd == Some(Command::MoveCursorRight),
        (key.code == KeyCode::Home && !key.modifiers.control) || (key.code == KeyCode::Char('a') && key.modifiers.control) ==> cmd == Some(Command::MoveCursorStart),
        (key.code == KeyCode::End && !key.modifiers.control) || (key.code == KeyCode::Char('e') && key.modifiers.control) ==> cmd == Some(Command::MoveCursorEnd),
{
}

/// The keys while searching: Esc cancels, Enter opens the chosen result,
/// Down/Control-`n` and Up/Control-`p` move through the results, Backspace
/// erases, other characters are typed.
pub proof fn law_search_keys(key: KeyEvent, focus: FocusPanel, cmd: Option<Command>)
    requires
        cmd == key_command(key, Screen::Search, InputMode::Search, focus),
        !(key.code == KeyCode::Char('c') && key.modifiers.control),
        key.code != KeyCode::F(12),
    ensures
        key.code == KeyCode::Esc && !key.modifiers.control ==> cmd == Some(Command::CancelInput),
        key.code == KeyCode::Enter && !key.modifiers.control ==> cmd == Some(Command::SearchSelectTask),
        (key.code == KeyCode::Down && !key.modifiers.control) || (key.code == KeyCode::Char('n') && key.modifiers.control) ==> cmd == Some(Command::SearchNavigateDown),
        (key.code == KeyCode::Up && !key.modifiers.control) || (key.code == KeyCode::Char('p') && key.modifiers.control) ==> cmd == Some(Command::SearchNavigateUp),
        key.code == KeyCode::Backspace && !key.modifiers.control ==> cmd == Some(Command::DeleteCharBackward),
        forall|c: char| key.code == KeyCode::Char(c) && !key.modifiers.control ==> cmd == Some(Command::InsertChar(c)),
{
}

/// On the main view in normal mode, a character key with no binding asks
/// for nothing.
pub proof fn law_main_view_unbound(key: KeyEvent, focus: FocusPanel, c: char)
    requires
        key.code == KeyCode::Char(c),
        !seq![
            'q', 'j', 'k', 'g', 'G', 'd', 'u', 'h', 'l', 'a', 'e', ' ', 'p', 't', 'm', '?', '/',
            'c', 'T', 'W', '1', '2', '3', '4', 'f', 'S', 'r',
        ].contains(c),
    ensures
        key_command(key, Screen::Main, InputMode::Normal, focus) is None,
{
    let bound = seq![
        'q', 'j', 'k', 'g', 'G', 'd', 'u', 'h', 'l', 'a', 'e', ' ', 'p', 't', 'm', '?', '/',
        'c', 'T', 'W', '1', '2', '3', '4', 'f', 'S', 'r',
    ];
    assert(bound[0] == 'q' && bound[1] == 'j' && bound[2] == 'k' && bound[3] == 'g' && bound[4]
        == 'G' && bound[5] == 'd' && bound[6] == 'u' && bound[7] == 'h' && bound[8] == 'l'
        && bound[9] == 'a' && bound[10] == 'e' && bound[11] == ' ' && bound[12] == 'p'
        && bound[13] == 't' && bound[14] == 'm' && bound[15] == '?' && bound[16] == '/'
        && bound[17] == 'c' && bound[18] == 'T' && bound[19] == 'W' && bound[20] == '1'
        && bound[21] == '2' && bound[22] == '3' && bound[23] == '4' && bound[24] == 'f'
        && bound[25] == 'S' && bound[26] == 'r');
}

} // verus!
