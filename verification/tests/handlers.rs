use ratado::app::{App, FocusPanel, InputMode, Screen};
use ratado::handlers::{handle_event, map_key_to_command, AppEvent, Command, Effect, StoreOp, TuiLoggerEvent};
use ratado::keys::{KeyCode, KeyEvent, KeyModifiers};
use ratado::models::{Filter, Priority, Project, Task};
use ratado::ui::dialogs::Dialog;
use ratado::utils::datetime::Clock;

fn clock() -> Clock {
    Clock::at(1_750_000_000_000_000, 0)
}

fn inbox() -> Project {
    Project::with_style_at("Inbox", "#3498db", "📥", "inbox".to_string(), 0)
}

/// An application with the Inbox and no tasks, animations off.
fn setup_app() -> App {
    let mut app = App::new(clock());
    app.disable_animations();
    app.load_data(Vec::new(), vec![inbox()], Vec::new());
    app
}

fn setup_app_with_tasks() -> App {
    let mut app = setup_app();
    let tasks: Vec<Task> = (0..5).map(|i| Task::new(&format!("Task {}", i))).collect();
    app.load_data(tasks, vec![inbox()], Vec::new());
    app
}

fn key(code: KeyCode) -> KeyEvent {
    KeyEvent::new(code, KeyModifiers::none())
}

fn key_with_mod(code: KeyCode, modifiers: KeyModifiers) -> KeyEvent {
    KeyEvent::new(code, modifiers)
}

#[test]
fn test_vim_navigation_j() {
    let app = setup_app();
    let cmd = map_key_to_command(key(KeyCode::Char('j')), &app);
    assert!(matches!(cmd, Some(Command::NavigateDown)));
}

#[test]
fn test_vim_navigation_k() {
    let app = setup_app();
    let cmd = map_key_to_command(key(KeyCode::Char('k')), &app);
    assert!(matches!(cmd, Some(Command::NavigateUp)));
}

#[test]
fn test_arrow_navigation_down() {
    let app = setup_app();
    let cmd = map_key_to_command(key(KeyCode::Down), &app);
    assert!(matches!(cmd, Some(Command::NavigateDown)));
}

#[test]
fn test_arrow_navigation_up() {
    let app = setup_app();
    let cmd = map_key_to_command(key(KeyCode::Up), &app);
    assert!(matches!(cmd, Some(Command::NavigateUp)));
}

#[test]
fn test_navigate_top_g() {
    let app = setup_app();
    let cmd = map_key_to_command(key(KeyCode::Char('g')), &app);
    assert!(matches!(cmd, Some(Command::NavigateTop)));
}

#[test]
fn test_navigate_bottom_shift_g() {
    let app = setup_app();
    let cmd = map_key_to_command(key(KeyCode::Char('G')), &app);
    assert!(matches!(cmd, Some(Command::NavigateBottom)));
}

#[test]
fn test_page_down_ctrl_d() {
    let app = setup_app();
    let cmd = map_key_to_command(key_with_mod(KeyCode::Char('d'), KeyModifiers::control()), &app);
    assert!(matches!(cmd, Some(Command::PageDown)));
}

#[test]
fn test_page_up_ctrl_u() {
    let app = setup_app();
    let cmd = map_key_to_command(key_with_mod(KeyCode::Char('u'), KeyModifiers::control()), &app);
    assert!(matches!(cmd, Some(Command::PageUp)));
}

#[test]
fn test_tab_switches_panel() {
    let app = setup_app();
    let cmd = map_key_to_command(key(KeyCode::Tab), &app);
    assert!(matches!(cmd, Some(Command::SwitchPanel)));
}

#[test]
fn test_h_focuses_sidebar() {
    let app = setup_app();
    let cmd = map_key_to_command(key(KeyCode::Char('h')), &app);
    assert!(matches!(cmd, Some(Command::FocusSidebar)));
}

#[test]
fn test_l_focuses_tasklist() {
    let app = setup_app();
    let cmd = map_key_to_command(key(KeyCode::Char('l')), &app);
    assert!(matches!(cmd, Some(Command::FocusTaskList)));
}

#[test]
fn test_add_task_a() {
    let app = setup_app();
    let cmd = map_key_to_command(key(KeyCode::Char('a')), &app);
    assert!(matches!(cmd, Some(Command::AddTask)));
}

#[test]
fn test_edit_task_e() {
    let app = setup_app();
    let cmd = map_key_to_command(key(KeyCode::Char('e')), &app);
    assert!(matches!(cmd, Some(Command::EditTask)));
}

#[test]
fn test_edit_task_enter() {
    let app = setup_app();
    let cmd = map_key_to_command(key(KeyCode::Enter), &app);
    assert!(matches!(cmd, Some(Command::EditTask)));
}

#[test]
fn test_delete_task_d() {
    let app = setup_app();
    let cmd = map_key_to_command(key(KeyCode::Char('d')), &app);
    assert!(matches!(cmd, Some(Command::DeleteTask)));
}

#[test]
fn test_toggle_status_space() {
    let app = setup_app();
    let cmd = map_key_to_command(key(KeyCode::Char(' ')), &app);
    assert!(matches!(cmd, Some(Command::ToggleTaskStatus)));
}

#[test]
fn test_cycle_priority_p() {
    let app = setup_app();
    let cmd = map_key_to_command(key(KeyCode::Char('p')), &app);
    assert!(matches!(cmd, Some(Command::CyclePriority)));
}

#[test]
fn test_show_help_question_mark() {
    let app = setup_app();
    let cmd = map_key_to_command(key(KeyCode::Char('?')), &app);
    assert!(matches!(cmd, Some(Command::ShowHelp)));
}

#[test]
fn test_show_search_slash() {
    let app = setup_app();
    let cmd = map_key_to_command(key(KeyCode::Char('/')), &app);
    assert!(matches!(cmd, Some(Command::ShowSearch)));
}

#[test]
fn test_show_calendar_c() {
    let app = setup_app();
    let cmd = map_key_to_command(key(KeyCode::Char('c')), &app);
    assert!(matches!(cmd, Some(Command::ShowCalendar)));
}

#[test]
fn test_filter_today_shift_t() {
    let app = setup_app();
    let cmd = map_key_to_command(key(KeyCode::Char('T')), &app);
    assert!(matches!(cmd, Some(Command::FilterToday)));
}

#[test]
fn test_filter_week_shift_w() {
    let app = setup_app();
    let cmd = map_key_to_command(key(KeyCode::Char('W')), &app);
    assert!(matches!(cmd, Some(Command::FilterThisWeek)));
}

#[test]
fn test_refresh_r() {
    let app = setup_app();
    let cmd = map_key_to_command(key(KeyCode::Char('r')), &app);
    assert!(matches!(cmd, Some(Command::Refresh)));
}

#[test]
fn test_show_filter_sort_f() {
    let app = setup_app();
    let cmd = map_key_to_command(key(KeyCode::Char('f')), &app);
    assert!(matches!(cmd, Some(Command::ShowFilterSort)));
}

#[test]
fn test_esc_does_nothing_in_normal_mode() {
    let app = setup_app();
    let cmd = map_key_to_command(key(KeyCode::Esc), &app);
    assert!(matches!(cmd, None));
}

#[test]
fn test_f12_toggles_debug() {
    let app = setup_app();
    let cmd = map_key_to_command(key(KeyCode::F(12)), &app);
    assert!(matches!(cmd, Some(Command::ShowDebugLogs)));
}

#[test]
fn test_help_view_any_key_closes() {
    let mut app = setup_app();
    app.current_view = Screen::Help;
    let cmd = map_key_to_command(key(KeyCode::Char('x')), &app);
    assert!(matches!(cmd, Some(Command::ShowMain)));
}

#[test]
fn test_help_view_esc_closes() {
    let mut app = setup_app();
    app.current_view = Screen::Help;
    let cmd = map_key_to_command(key(KeyCode::Esc), &app);
    assert!(matches!(cmd, Some(Command::ShowMain)));
}

#[test]
fn test_debug_view_esc_closes() {
    let mut app = setup_app();
    app.current_view = Screen::DebugLogs;
    let cmd = map_key_to_command(key(KeyCode::Esc), &app);
    assert!(matches!(cmd, Some(Command::ShowMain)));
}

#[test]
fn test_editing_mode_chars() {
    let mut app = setup_app();
    app.input_mode = InputMode::Editing;
    let cmd = map_key_to_command(key(KeyCode::Char('x')), &app);
    assert!(matches!(cmd, Some(Command::InsertChar('x'))));
}

#[test]
fn test_editing_mode_backspace() {
    let mut app = setup_app();
    app.input_mode = InputMode::Editing;
    let cmd = map_key_to_command(key(KeyCode::Backspace), &app);
    assert!(matches!(cmd, Some(Command::DeleteCharBackward)));
}

#[test]
fn test_editing_mode_enter_submits() {
    let mut app = setup_app();
    app.input_mode = InputMode::Editing;
    let cmd = map_key_to_command(key(KeyCode::Enter), &app);
    assert!(matches!(cmd, Some(Command::SubmitInput)));
}

#[test]
fn test_editing_mode_esc_cancels() {
    let mut app = setup_app();
    app.input_mode = InputMode::Editing;
    let cmd = map_key_to_command(key(KeyCode::Esc), &app);
    assert!(matches!(cmd, Some(Command::CancelInput)));
}

#[test]
fn test_search_mode_chars() {
    let mut app = setup_app();
    app.input_mode = InputMode::Search;
    let cmd = map_key_to_command(key(KeyCode::Char('a')), &app);
    assert!(matches!(cmd, Some(Command::InsertChar('a'))));
}

#[test]
fn test_search_mode_esc_cancels() {
    let mut app = setup_app();
    app.input_mode = InputMode::Search;
    let cmd = map_key_to_command(key(KeyCode::Esc), &app);
    assert!(matches!(cmd, Some(Command::CancelInput)));
}

#[test]
fn test_calendar_view_esc_returns() {
    let mut app = setup_app();
    app.current_view = Screen::Calendar;
    let cmd = map_key_to_command(key(KeyCode::Esc), &app);
    assert!(matches!(cmd, Some(Command::ShowMain)));
}

#[test]
fn test_calendar_view_left_prev_day() {
    let mut app = setup_app();
    app.current_view = Screen::Calendar;
    let cmd = map_key_to_command(key(KeyCode::Left), &app);
    assert!(matches!(cmd, Some(Command::CalendarPrevDay)));
}

#[test]
fn test_calendar_view_right_next_day() {
    let mut app = setup_app();
    app.current_view = Screen::Calendar;
    let cmd = map_key_to_command(key(KeyCode::Right), &app);
    assert!(matches!(cmd, Some(Command::CalendarNextDay)));
}

#[test]
fn test_calendar_view_up_prev_week() {
    let mut app = setup_app();
    app.current_view = Screen::Calendar;
    let cmd = map_key_to_command(key(KeyCode::Up), &app);
    assert!(matches!(cmd, Some(Command::CalendarPrevWeek)));
}

#[test]
fn test_calendar_view_down_next_week() {
    let mut app = setup_app();
    app.current_view = Screen::Calendar;
    let cmd = map_key_to_command(key(KeyCode::Down), &app);
    assert!(matches!(cmd, Some(Command::CalendarNextWeek)));
}

#[test]
fn test_calendar_view_t_today() {
    let mut app = setup_app();
    app.current_view = Screen::Calendar;
    let cmd = map_key_to_command(key(KeyCode::Char('t')), &app);
    assert!(matches!(cmd, Some(Command::CalendarToday)));
}

#[test]
fn test_task_detail_view_esc_returns() {
    let mut app = setup_app();
    app.current_view = Screen::TaskDetail;
    let cmd = map_key_to_command(key(KeyCode::Esc), &app);
    assert!(matches!(cmd, Some(Command::ShowMain)));
}

#[test]
fn test_task_detail_view_space_toggles() {
    let mut app = setup_app();
    app.current_view = Screen::TaskDetail;
    let cmd = map_key_to_command(key(KeyCode::Char(' ')), &app);
    assert!(matches!(cmd, Some(Command::ToggleTaskStatus)));
}

#[test]
fn test_task_detail_view_p_cycles_priority() {
    let mut app = setup_app();
    app.current_view = Screen::TaskDetail;
    let cmd = map_key_to_command(key(KeyCode::Char('p')), &app);
    assert!(matches!(cmd, Some(Command::CyclePriority)));
}

#[test]
fn test_task_detail_view_e_edits() {
    let mut app = setup_app();
    app.current_view = Screen::TaskDetail;
    let cmd = map_key_to_command(key(KeyCode::Char('e')), &app);
    assert!(matches!(cmd, Some(Command::EditTask)));
}

#[test]
fn test_task_detail_view_d_deletes() {
    let mut app = setup_app();
    app.current_view = Screen::TaskDetail;
    let cmd = map_key_to_command(key(KeyCode::Char('d')), &app);
    assert!(matches!(cmd, Some(Command::DeleteTask)));
}

#[test]
fn test_debug_view_navigation() {
    let mut app = setup_app();
    app.current_view = Screen::DebugLogs;
    let cmd = map_key_to_command(key(KeyCode::Char(' ')), &app);
    assert!(matches!(cmd, Some(Command::LoggerEvent(TuiLoggerEvent::SpaceBar))));
    let cmd = map_key_to_command(key(KeyCode::Char('j')), &app);
    assert!(matches!(cmd, Some(Command::LoggerEvent(TuiLoggerEvent::Down))));
    let cmd = map_key_to_command(key(KeyCode::Char('k')), &app);
    assert!(matches!(cmd, Some(Command::LoggerEvent(TuiLoggerEvent::Up))));
}

#[test]
fn test_editing_mode_cursor_movement() {
    let mut app = setup_app();
    app.input_mode = InputMode::Editing;
    assert!(matches!(map_key_to_command(key(KeyCode::Left), &app), Some(Command::MoveCursorLeft)));
    assert!(matches!(map_key_to_command(key(KeyCode::Right), &app), Some(Command::MoveCursorRight)));
    assert!(matches!(map_key_to_command(key(KeyCode::Home), &app), Some(Command::MoveCursorStart)));
    assert!(matches!(map_key_to_command(key(KeyCode::End), &app), Some(Command::MoveCursorEnd)));
}

#[test]
fn test_editing_mode_emacs_keys() {
    let mut app = setup_app();
    app.input_mode = InputMode::Editing;
    let cmd = map_key_to_command(key_with_mod(KeyCode::Char('a'), KeyModifiers::control()), &app);
    assert!(matches!(cmd, Some(Command::MoveCursorStart)));
    let cmd = map_key_to_command(key_with_mod(KeyCode::Char('e'), KeyModifiers::control()), &app);
    assert!(matches!(cmd, Some(Command::MoveCursorEnd)));
}

#[test]
fn test_calendar_view_vim_navigation() {
    let mut app = setup_app();
    app.current_view = Screen::Calendar;
    assert!(matches!(map_key_to_command(key(KeyCode::Char('h')), &app), Some(Command::CalendarPrevDay)));
    assert!(matches!(map_key_to_command(key(KeyCode::Char('l')), &app), Some(Command::CalendarNextDay)));
    assert!(matches!(map_key_to_command(key(KeyCode::Char('j')), &app), Some(Command::CalendarNextWeek)));
    assert!(matches!(map_key_to_command(key(KeyCode::Char('k')), &app), Some(Command::CalendarPrevWeek)));
}

#[test]
fn test_navigate_down() {
    let mut app = setup_app_with_tasks();
    app.selected_task_index = Some(0);
    Command::NavigateDown.execute(&mut app);
    assert_eq!(app.selected_task_index, Some(1));
}

#[test]
fn test_navigate_up() {
    let mut app = setup_app_with_tasks();
    app.selected_task_index = Some(2);
    Command::NavigateUp.execute(&mut app);
    assert_eq!(app.selected_task_index, Some(1));
}

#[test]
fn test_navigate_top() {
    let mut app = setup_app_with_tasks();
    app.selected_task_index = Some(3);
    Command::NavigateTop.execute(&mut app);
    assert_eq!(app.selected_task_index, Some(0));
}

#[test]
fn test_navigate_bottom() {
    let mut app = setup_app_with_tasks();
    app.selected_task_index = Some(0);
    Command::NavigateBottom.execute(&mut app);
    assert_eq!(app.selected_task_index, Some(4));
}

#[test]
fn test_switch_panel() {
    let mut app = setup_app();
    assert_eq!(app.focus, FocusPanel::TaskList);
    Command::SwitchPanel.execute(&mut app);
    assert_eq!(app.focus, FocusPanel::Sidebar);
    Command::SwitchPanel.execute(&mut app);
    assert_eq!(app.focus, FocusPanel::TaskList);
}

#[test]
fn test_show_help() {
    let mut app = setup_app();
    assert_eq!(app.current_view, Screen::Main);
    Command::ShowHelp.execute(&mut app);
    assert_eq!(app.current_view, Screen::Help);
}

#[test]
fn test_show_main() {
    let mut app = setup_app();
    app.current_view = Screen::Help;
    Command::ShowMain.execute(&mut app);
    assert_eq!(app.current_view, Screen::Main);
}

#[test]
fn test_toggle_debug_logs() {
    let mut app = setup_app();
    assert_eq!(app.current_view, Screen::Main);
    Command::ShowDebugLogs.execute(&mut app);
    assert_eq!(app.current_view, Screen::DebugLogs);
    Command::ShowDebugLogs.execute(&mut app);
    assert_eq!(app.current_view, Screen::Main);
}

#[test]
fn test_filter_today() {
    let mut app = setup_app();
    Command::FilterToday.execute(&mut app);
    assert_eq!(app.filter, Filter::DueToday);
}

#[test]
fn test_show_filter_sort() {
    let mut app = setup_app();
    Command::ShowFilterSort.execute(&mut app);
    assert!(matches!(app.dialog, Some(Dialog::FilterSort(_))));
}

#[test]
fn test_refresh() {
    let mut app = setup_app();
    // A task stored by someone else: the application does not know it yet.
    let stored = vec![Task::new("Direct insert")];
    assert!(app.tasks.is_empty());
    let out = Command::Refresh.execute(&mut app);
    match &out.effect {
        Effect::Store(op) => {
            assert!(matches!(op, StoreOp::Reload));
            app.after_store(op, stored, vec![inbox()], Vec::new(), (0, 0));
        }
        _ => panic!("refresh reads storage again"),
    }
    assert_eq!(app.tasks.len(), 1);
}

#[test]
fn test_handle_key_event_navigation() {
    let mut app = setup_app();
    app.load_data(vec![Task::new("Test task")], vec![inbox()], Vec::new());
    app.selected_task_index = Some(0);
    let out = handle_event(&mut app, AppEvent::Key(key(KeyCode::Char('j'))), false);
    assert!(out.keep_running);
}

#[test]
fn test_handle_tick_event() {
    let mut app = setup_app();
    let out = handle_event(&mut app, AppEvent::Tick, false);
    assert!(out.keep_running);
}

#[test]
fn test_handle_resize_event() {
    let mut app = setup_app();
    let out = handle_event(&mut app, AppEvent::Resize(100, 50), false);
    assert!(out.keep_running);
}

#[test]
fn test_handle_unmapped_key() {
    let mut app = setup_app();
    let out = handle_event(&mut app, AppEvent::Key(key(KeyCode::F(5))), false);
    assert!(out.keep_running);
}

#[test]
fn priority_keys_filter_by_priority() {
    let app = setup_app();
    assert!(matches!(map_key_to_command(key(KeyCode::Char('1')), &app), Some(Command::FilterByPriority(Priority::Low))));
    assert!(matches!(map_key_to_command(key(KeyCode::Char('4')), &app), Some(Command::FilterByPriority(Priority::Urgent))));
}

#[test]
fn sidebar_jumps_reset_task_selection() {
    let mut app = setup_app();
    let work = Project::with_style_at("Work", "#e74c3c", "💼", "work".to_string(), 0);
    let tasks: Vec<Task> = (0..3)
        .map(|i| {
            let mut t = Task::new(&format!("Task {}", i));
            t.project_id = Some("inbox".to_string());
            t
        })
        .collect();
    app.load_data(tasks, vec![inbox(), work], Vec::new());
    app.focus = FocusPanel::Sidebar;
    app.selected_task_index = Some(2);

    // The last project (Work) has no task: nothing stays selected.
    Command::NavigateBottom.execute(&mut app);
    assert_eq!(app.selected_project_index, 2);
    assert!(app.visible_tasks().is_empty());
    assert_eq!(app.selected_task_index, None);

    // Back to "all tasks": the first task is selected.
    Command::NavigateTop.execute(&mut app);
    assert_eq!(app.selected_project_index, 0);
    assert_eq!(app.visible_tasks().len(), 3);
    assert_eq!(app.selected_task_index, Some(0));
}
