use ratado::app::{App, EmptyState, FocusPanel, InputMode, Screen};
use ratado::handlers::{handle_event, AppEvent, Command, Effect, StoreOp, TuiLoggerEvent};
use ratado::handlers::map_key_to_command;
use ratado::keys::{KeyCode, KeyEvent, KeyModifiers};
use ratado::models::{Filter, Priority, Project, SortOrder, Task, TaskStatus};
use ratado::ui::dialogs::Dialog;
use ratado::utils::datetime::Clock;

fn clock() -> Clock {
    Clock::at(1_750_000_000_000_000, 0)
}

fn inbox() -> Project {
    Project::with_style_at("Inbox", "#3498db", "📥", "inbox".to_string(), 0)
}

fn setup_app() -> App {
    let mut app = App::new(clock());
    app.load_data(Vec::new(), vec![inbox()], Vec::new());
    app
}

fn setup_with(tasks: Vec<Task>) -> App {
    let mut app = App::new(clock());
    app.load_data(tasks, vec![inbox()], Vec::new());
    app
}

fn tasks(n: usize) -> Vec<Task> {
    (0..n).map(|i| Task::new(&format!("Task {}", i))).collect()
}

fn key(code: KeyCode) -> KeyEvent {
    KeyEvent::new(code, KeyModifiers::none())
}

fn key_with_mod(code: KeyCode, m: KeyModifiers) -> KeyEvent {
    KeyEvent::new(code, m)
}

/// Carries out a command and, as the caller would, applies a task update
/// it asks for and reloads.
fn run(app: &mut App, cmd: Command) -> bool {
    let out = cmd.execute(app);
    if let Effect::Store(op) = &out.effect {
        let mut tasks: Vec<Task> = app.tasks.clone();
        match op {
            StoreOp::UpdateTask(t) => {
                for x in tasks.iter_mut() {
                    if x.id == t.id {
                        *x = t.clone();
                    }
                }
            }
            StoreOp::InsertTask(t) => tasks.insert(0, t.clone()),
            _ => {}
        }
        let projects = app.projects.clone();
        let tags = app.tags.clone();
        app.after_store(op, tasks, projects, tags, (0, 0));
    }
    out.keep_running
}

#[test]
fn test_app_new() {
    let app = setup_app();
    assert!(!app.should_quit);
    assert_eq!(app.current_view, Screen::Splash);
    assert_eq!(app.input_mode, InputMode::Normal);
    assert_eq!(app.focus, FocusPanel::TaskList);
}

#[test]
fn test_visible_tasks_empty() {
    let app = setup_app();
    assert!(app.visible_tasks().is_empty());
}

#[test]
fn test_visible_tasks_with_data() {
    let app = setup_with(tasks(2));
    assert_eq!(app.visible_tasks().len(), 2);
}

#[test]
fn test_select_next_previous_task() {
    let mut app = setup_with(tasks(3));
    assert_eq!(app.selected_task_index, Some(0));
    app.select_next_task();
    assert_eq!(app.selected_task_index, Some(1));
    app.select_next_task();
    assert_eq!(app.selected_task_index, Some(2));
    app.select_next_task();
    assert_eq!(app.selected_task_index, Some(0));
    app.select_previous_task();
    assert_eq!(app.selected_task_index, Some(2));
}

#[test]
fn test_toggle_focus() {
    let mut app = setup_app();
    assert_eq!(app.focus, FocusPanel::TaskList);
    app.toggle_focus();
    assert_eq!(app.focus, FocusPanel::Sidebar);
    app.toggle_focus();
    assert_eq!(app.focus, FocusPanel::TaskList);
}

#[test]
fn test_cycle_filter() {
    let mut app = setup_app();
    assert_eq!(app.filter, Filter::Pending);
    app.cycle_filter();
    assert_eq!(app.filter, Filter::Completed);
    app.cycle_filter();
    assert_eq!(app.filter, Filter::DueToday);
}

#[test]
fn test_project_selection() {
    let mut app = setup_app();
    assert!(!app.projects.is_empty());
    assert_eq!(app.selected_project_index, 0);
    app.select_next_project();
    assert_eq!(app.selected_project_index, 1);
    app.select_previous_project();
    assert_eq!(app.selected_project_index, 0);
}

#[test]
fn test_update_task_in_place() {
    let mut app = setup_with(vec![Task::new("Original")]);
    let mut updated = app.tasks[0].clone();
    updated.title = "Updated".to_string();
    app.update_task_in_place(updated);
    assert_eq!(app.tasks[0].title, "Updated");
}

#[test]
fn test_remove_task_in_place() {
    let task = Task::new("To remove");
    let id = task.id.clone();
    let mut app = setup_with(vec![task]);
    assert_eq!(app.tasks.len(), 1);
    app.remove_task_in_place(&id);
    assert!(app.tasks.is_empty());
    assert_eq!(app.selected_task_index, None);
}

#[test]
fn test_add_task_in_place() {
    let mut app = setup_app();
    assert!(app.tasks.is_empty());
    app.add_task_in_place(Task::new("New task"));
    assert_eq!(app.tasks.len(), 1);
    assert_eq!(app.tasks[0].title, "New task");
    assert_eq!(app.selected_task_index, Some(0));
}

#[test]
fn test_adjust_task_selection_clamps() {
    let mut app = setup_with(vec![Task::new("Only task")]);
    app.selected_task_index = Some(5);
    app.adjust_task_selection();
    assert_eq!(app.selected_task_index, Some(0));
}

#[test]
fn test_task_counts() {
    let mut task1 = Task::new("Task 1");
    task1.project_id = Some("inbox".to_string());
    let task2 = Task::new("Task 2");
    let app = setup_with(vec![task1, task2]);
    assert_eq!(app.total_task_count(), 2);
    assert_eq!(app.task_count_for_project("inbox"), 1);
}

#[test]
fn app_status_clears_after_timeout() {
    let mut app = setup_app();
    app.set_status("hello");
    app.set_clock(Clock::at(clock().now + 2_000_000, 0));
    app.on_tick(false);
    assert_eq!(app.status_message.as_deref(), Some("hello"));
    app.set_clock(Clock::at(clock().now + 3_000_000, 0));
    app.on_tick(false);
    assert!(app.status_message.is_none());
}

#[test]
fn app_splash_gives_way_when_animation_ends() {
    let mut app = setup_app();
    app.splash_started = true;
    app.on_tick(true);
    assert_eq!(app.current_view, Screen::Splash);
    app.on_tick(false);
    assert_eq!(app.current_view, Screen::Main);
}

#[test]
fn app_dissolving_tasks_are_removed_after_animation() {
    let ts = tasks(3);
    let id = ts[1].id.clone();
    let mut app = setup_with(ts);
    app.dissolving_tasks.push(id.clone());
    app.on_tick(true);
    assert_eq!(app.tasks.len(), 3);
    app.on_tick(false);
    assert_eq!(app.tasks.len(), 2);
    assert!(app.tasks.iter().all(|t| t.id != id));
    assert!(app.dissolving_tasks.is_empty());
}

#[test]
fn app_visible_tasks_follow_project_and_sort() {
    let mut a = Task::new("b task");
    a.project_id = Some("inbox".to_string());
    let b = Task::new("a task");
    let mut app = setup_with(vec![a, b]);
    app.sort = SortOrder::Alphabetical;
    let titles: Vec<String> = app.visible_tasks().iter().map(|t| t.title.clone()).collect();
    assert_eq!(titles, vec!["a task", "b task"]);
    app.select_next_project();
    let titles: Vec<String> = app.visible_tasks().iter().map(|t| t.title.clone()).collect();
    assert_eq!(titles, vec!["b task"]);
    assert_eq!(app.selected_project_name(), "Inbox");
}

#[test]
fn app_names_and_cycles() {
    let mut app = setup_app();
    assert_eq!(app.filter_name(), "Pending");
    assert_eq!(app.sort_name(), "Due Date ↑");
    for _ in 0..4 {
        app.cycle_sort();
    }
    assert_eq!(app.sort, SortOrder::DueDateAsc);
    app.filter = Filter::ByPriority(Priority::Urgent);
    assert_eq!(app.filter_name(), "Urgent");
}

#[test]
fn app_empty_states() {
    let mut app = setup_app();
    assert_eq!(app.empty_state(), EmptyState::NoTasks);
    app.selected_project_index = 1;
    assert_eq!(app.empty_state(), EmptyState::EmptyProject);
    let mut t = Task::new("done");
    t.status = TaskStatus::Completed;
    let mut app = setup_with(vec![t]);
    assert_eq!(app.empty_state(), EmptyState::AllDone);
    app.filter = Filter::Overdue;
    assert_eq!(app.empty_state(), EmptyState::Filtered);
}

// Key bindings

#[test]
fn test_quit_keybinding() {
    let app = setup_app();
    assert!(matches!(map_key_to_command(key(KeyCode::Char('q')), &app), Some(Command::Quit)));
}

#[test]
fn test_force_quit_ctrl_c() {
    let app = setup_app();
    let cmd = map_key_to_command(key_with_mod(KeyCode::Char('c'), KeyModifiers::control()), &app);
    assert!(matches!(cmd, Some(Command::ForceQuit)));
}

#[test]
fn test_vim_navigation() {
    let app = setup_app();
    assert!(matches!(map_key_to_command(key(KeyCode::Char('j')), &app), Some(Command::NavigateDown)));
    assert!(matches!(map_key_to_command(key(KeyCode::Char('k')), &app), Some(Command::NavigateUp)));
    assert!(matches!(map_key_to_command(key(KeyCode::Char('g')), &app), Some(Command::NavigateTop)));
    assert!(matches!(map_key_to_command(key(KeyCode::Char('G')), &app), Some(Command::NavigateBottom)));
    assert!(matches!(map_key_to_command(key(KeyCode::Down), &app), Some(Command::NavigateDown)));
    assert!(matches!(map_key_to_command(key(KeyCode::Up), &app), Some(Command::NavigateUp)));
}

#[test]
fn test_page_keys() {
    let app = setup_app();
    let d = map_key_to_command(key_with_mod(KeyCode::Char('d'), KeyModifiers::control()), &app);
    assert!(matches!(d, Some(Command::PageDown)));
    let u = map_key_to_command(key_with_mod(KeyCode::Char('u'), KeyModifiers::control()), &app);
    assert!(matches!(u, Some(Command::PageUp)));
}

#[test]
fn test_normal_mode_actions() {
    let app = setup_app();
    assert!(matches!(map_key_to_command(key(KeyCode::Tab), &app), Some(Command::SwitchPanel)));
    assert!(matches!(map_key_to_command(key(KeyCode::Char('h')), &app), Some(Command::FocusSidebar)));
    assert!(matches!(map_key_to_command(key(KeyCode::Char('l')), &app), Some(Command::FocusTaskList)));
    assert!(matches!(map_key_to_command(key(KeyCode::Char('a')), &app), Some(Command::AddTask)));
    assert!(matches!(map_key_to_command(key(KeyCode::Char('e')), &app), Some(Command::EditTask)));
    assert!(matches!(map_key_to_command(key(KeyCode::Enter), &app), Some(Command::EditTask)));
    assert!(matches!(map_key_to_command(key(KeyCode::Char('d')), &app), Some(Command::DeleteTask)));
    assert!(matches!(map_key_to_command(key(KeyCode::Char(' ')), &app), Some(Command::ToggleTaskStatus)));
    assert!(matches!(map_key_to_command(key(KeyCode::Char('p')), &app), Some(Command::CyclePriority)));
    assert!(matches!(map_key_to_command(key(KeyCode::Char('?')), &app), Some(Command::ShowHelp)));
    assert!(matches!(map_key_to_command(key(KeyCode::Char('/')), &app), Some(Command::ShowSearch)));
    assert!(matches!(map_key_to_command(key(KeyCode::Char('c')), &app), Some(Command::ShowCalendar)));
    assert!(matches!(map_key_to_command(key(KeyCode::Char('T')), &app), Some(Command::FilterToday)));
    assert!(matches!(map_key_to_command(key(KeyCode::Char('W')), &app), Some(Command::FilterThisWeek)));
    assert!(matches!(map_key_to_command(key(KeyCode::Char('r')), &app), Some(Command::Refresh)));
    assert!(matches!(map_key_to_command(key(KeyCode::Char('f')), &app), Some(Command::ShowFilterSort)));
    assert!(map_key_to_command(key(KeyCode::Esc), &app).is_none());
    assert!(matches!(map_key_to_command(key(KeyCode::F(12)), &app), Some(Command::ShowDebugLogs)));
}

#[test]
fn test_priority_filters() {
    let app = setup_app();
    let expect = [Priority::Low, Priority::Medium, Priority::High, Priority::Urgent];
    for (c, p) in ['1', '2', '3', '4'].iter().zip(expect.iter()) {
        let cmd = map_key_to_command(key(KeyCode::Char(*c)), &app);
        assert_eq!(cmd, Some(Command::FilterByPriority(*p)));
    }
}

#[test]
fn test_sidebar_focus_changes_actions() {
    let mut app = setup_app();
    app.focus = FocusPanel::Sidebar;
    assert!(matches!(map_key_to_command(key(KeyCode::Char('a')), &app), Some(Command::AddProject)));
    assert!(matches!(map_key_to_command(key(KeyCode::Char('e')), &app), Some(Command::EditProject)));
    assert!(matches!(map_key_to_command(key(KeyCode::Char('d')), &app), Some(Command::DeleteProject)));
}

#[test]
fn test_help_and_debug_views() {
    let mut app = setup_app();
    app.current_view = Screen::Help;
    assert!(matches!(map_key_to_command(key(KeyCode::Char('x')), &app), Some(Command::ShowMain)));
    assert!(matches!(map_key_to_command(key(KeyCode::Esc), &app), Some(Command::ShowMain)));
    app.current_view = Screen::DebugLogs;
    assert!(matches!(map_key_to_command(key(KeyCode::Esc), &app), Some(Command::ShowMain)));
    assert_eq!(
        map_key_to_command(key(KeyCode::Char(' ')), &app),
        Some(Command::LoggerEvent(TuiLoggerEvent::SpaceBar))
    );
    assert_eq!(
        map_key_to_command(key(KeyCode::Char('j')), &app),
        Some(Command::LoggerEvent(TuiLoggerEvent::Down))
    );
}

#[test]
fn test_editing_and_search_modes() {
    let mut app = setup_app();
    app.input_mode = InputMode::Editing;
    assert_eq!(map_key_to_command(key(KeyCode::Char('x')), &app), Some(Command::InsertChar('x')));
    assert_eq!(map_key_to_command(key(KeyCode::Backspace), &app), Some(Command::DeleteCharBackward));
    assert_eq!(map_key_to_command(key(KeyCode::Enter), &app), Some(Command::SubmitInput));
    assert_eq!(map_key_to_command(key(KeyCode::Esc), &app), Some(Command::CancelInput));
    let ca = key_with_mod(KeyCode::Char('a'), KeyModifiers::control());
    assert_eq!(map_key_to_command(ca, &app), Some(Command::MoveCursorStart));
    app.input_mode = InputMode::Search;
    assert_eq!(map_key_to_command(key(KeyCode::Char('a')), &app), Some(Command::InsertChar('a')));
    assert_eq!(map_key_to_command(key(KeyCode::Enter), &app), Some(Command::SearchSelectTask));
}

#[test]
fn test_calendar_and_detail_views() {
    let mut app = setup_app();
    app.current_view = Screen::Calendar;
    assert_eq!(map_key_to_command(key(KeyCode::Left), &app), Some(Command::CalendarPrevDay));
    assert_eq!(map_key_to_command(key(KeyCode::Char('l')), &app), Some(Command::CalendarNextDay));
    assert_eq!(map_key_to_command(key(KeyCode::Char('k')), &app), Some(Command::CalendarPrevWeek));
    assert_eq!(map_key_to_command(key(KeyCode::Down), &app), Some(Command::CalendarNextWeek));
    assert_eq!(map_key_to_command(key(KeyCode::Char('t')), &app), Some(Command::CalendarToday));
    app.current_view = Screen::TaskDetail;
    assert_eq!(map_key_to_command(key(KeyCode::Char(' ')), &app), Some(Command::ToggleTaskStatus));
    assert_eq!(map_key_to_command(key(KeyCode::Char('d')), &app), Some(Command::DeleteTask));
}

// Commands

#[test]
fn test_navigate_commands() {
    let mut app = setup_with(tasks(5));
    app.selected_task_index = Some(0);
    run(&mut app, Command::NavigateDown);
    assert_eq!(app.selected_task_index, Some(1));
    app.selected_task_index = Some(2);
    run(&mut app, Command::NavigateUp);
    assert_eq!(app.selected_task_index, Some(1));
    app.selected_task_index = Some(3);
    run(&mut app, Command::NavigateTop);
    assert_eq!(app.selected_task_index, Some(0));
    run(&mut app, Command::NavigateBottom);
    assert_eq!(app.selected_task_index, Some(4));
}

#[test]
fn test_quit_command() {
    let mut app = setup_app();
    assert!(!run(&mut app, Command::Quit));
    assert!(app.should_quit);
}

#[test]
fn test_view_commands() {
    let mut app = setup_app();
    app.current_view = Screen::Main;
    run(&mut app, Command::ShowHelp);
    assert_eq!(app.current_view, Screen::Help);
    run(&mut app, Command::ShowMain);
    assert_eq!(app.current_view, Screen::Main);
    run(&mut app, Command::ShowDebugLogs);
    assert_eq!(app.current_view, Screen::DebugLogs);
    run(&mut app, Command::ShowDebugLogs);
    assert_eq!(app.current_view, Screen::Main);
}

#[test]
fn test_toggle_task_status() {
    let mut app = setup_with(vec![Task::new("Test task")]);
    app.filter = Filter::All;
    app.selected_task_index = Some(0);
    assert_eq!(app.tasks[0].status, TaskStatus::Pending);
    run(&mut app, Command::ToggleTaskStatus);
    assert_eq!(app.tasks[0].status, TaskStatus::Completed);
    assert_eq!(app.status_message.as_deref(), Some("Task completed!"));
    run(&mut app, Command::ToggleTaskStatus);
    assert_eq!(app.tasks[0].status, TaskStatus::Pending);
}

#[test]
fn test_add_task_opens_dialog() {
    let mut app = setup_app();
    run(&mut app, Command::AddTask);
    assert!(matches!(app.dialog, Some(Dialog::AddTask(_))));
}

#[test]
fn test_edit_task_opens_dialog() {
    let mut app = setup_with(vec![Task::new("Original title")]);
    app.selected_task_index = Some(0);
    run(&mut app, Command::EditTask);
    if let Some(Dialog::AddTask(ref dialog)) = app.dialog {
        assert_eq!(dialog.title.value(), "Original title");
        assert!(dialog.is_editing());
    } else {
        panic!("Expected AddTask dialog");
    }
}

#[test]
fn test_delete_task_opens_confirm_dialog() {
    let mut app = setup_with(vec![Task::new("Delete me")]);
    app.selected_task_index = Some(0);
    run(&mut app, Command::DeleteTask);
    assert!(matches!(app.dialog, Some(Dialog::Confirm(_))));
    assert_eq!(app.tasks.len(), 1);
}

#[test]
fn test_cycle_priority() {
    let mut app = setup_with(vec![Task::new("Priority test")]);
    app.selected_task_index = Some(0);
    assert_eq!(app.tasks[0].priority, Priority::Medium);
    run(&mut app, Command::CyclePriority);
    assert_eq!(app.tasks[0].priority, Priority::High);
    run(&mut app, Command::CyclePriority);
    assert_eq!(app.tasks[0].priority, Priority::Urgent);
    run(&mut app, Command::CyclePriority);
    assert_eq!(app.tasks[0].priority, Priority::Low);
    assert_eq!(app.status_message.as_deref(), Some("Priority: Low"));
}

#[test]
fn test_filter_commands() {
    let mut app = setup_app();
    run(&mut app, Command::FilterToday);
    assert_eq!(app.filter, Filter::DueToday);
    run(&mut app, Command::ShowFilterSort);
    assert!(matches!(app.dialog, Some(Dialog::FilterSort(_))));
}

#[test]
fn test_text_editing_commands() {
    let mut app = setup_app();
    app.input_mode = InputMode::Editing;
    run(&mut app, Command::InsertChar('H'));
    run(&mut app, Command::InsertChar('i'));
    assert_eq!(app.input_buffer, "Hi");
    assert_eq!(app.input_cursor, 2);
    run(&mut app, Command::MoveCursorLeft);
    assert_eq!(app.input_cursor, 1);
    run(&mut app, Command::InsertChar('o'));
    assert_eq!(app.input_buffer, "Hoi");
    assert_eq!(app.input_cursor, 2);
    run(&mut app, Command::DeleteCharBackward);
    assert_eq!(app.input_buffer, "Hi");
    assert_eq!(app.input_cursor, 1);
}

#[test]
fn test_submit_new_task() {
    let mut app = setup_app();
    app.input_mode = InputMode::Editing;
    app.input_buffer = "New task from test".to_string();
    app.input_cursor = 18;
    run(&mut app, Command::SubmitInput);
    assert_eq!(app.input_mode, InputMode::Normal);
    assert!(app.input_buffer.is_empty());
    assert_eq!(app.tasks.len(), 1);
    assert_eq!(app.tasks[0].title, "New task from test");
}

#[test]
fn test_cancel_input() {
    let mut app = setup_app();
    app.input_mode = InputMode::Editing;
    app.input_buffer = "Some text".to_string();
    run(&mut app, Command::CancelInput);
    assert_eq!(app.input_mode, InputMode::Normal);
    assert!(app.input_buffer.is_empty());
}

#[test]
fn test_search_flow() {
    let mut app = setup_with(vec![Task::new("Buy milk"), Task::new("Walk dog")]);
    app.current_view = Screen::Main;
    run(&mut app, Command::ShowSearch);
    assert_eq!(app.current_view, Screen::Search);
    assert_eq!(app.input_mode, InputMode::Search);
    for c in "dog".chars() {
        run(&mut app, Command::InsertChar(c));
    }
    assert_eq!(app.search_results.len(), 1);
    run(&mut app, Command::SearchSelectTask);
    assert_eq!(app.current_view, Screen::Main);
    let selected = app.selected_task().unwrap();
    assert_eq!(selected.title, "Walk dog");
    assert_eq!(app.status_message.as_deref(), Some("Selected: Walk dog"));
}

#[test]
fn test_refresh_reloads() {
    let mut app = setup_app();
    let out = Command::Refresh.execute(&mut app);
    assert!(matches!(out.effect, Effect::Store(StoreOp::Reload)));
    let op = StoreOp::Reload;
    app.after_store(&op, vec![Task::new("Direct insert")], vec![inbox()], Vec::new(), (0, 0));
    assert_eq!(app.tasks.len(), 1);
    assert_eq!(app.status_message.as_deref(), Some("Data refreshed"));
}

#[test]
fn test_reset_report() {
    let mut app = setup_app();
    app.selected_project_index = 1;
    let op = StoreOp::ResetDatabase;
    app.after_store(&op, Vec::new(), vec![inbox()], Vec::new(), (3, 2));
    assert_eq!(app.selected_project_index, 0);
    assert_eq!(
        app.status_message.as_deref(),
        Some("Database reset: deleted 3 task(s) and 2 project(s)")
    );
    let op = StoreOp::DeleteCompletedTasks;
    app.after_store(&op, Vec::new(), vec![inbox()], Vec::new(), (12, 0));
    assert_eq!(app.status_message.as_deref(), Some("Deleted 12 completed task(s)"));
}

// Events

#[test]
fn test_handle_key_event_quit() {
    let mut app = setup_app();
    app.current_view = Screen::Main;
    let out = handle_event(&mut app, AppEvent::Key(key(KeyCode::Char('q'))), false);
    assert!(!out.keep_running);
    assert!(app.should_quit);
}

#[test]
fn test_handle_force_quit() {
    let mut app = setup_app();
    let k = key_with_mod(KeyCode::Char('c'), KeyModifiers::control());
    let out = handle_event(&mut app, AppEvent::Key(k), false);
    assert!(!out.keep_running);
    assert!(app.should_quit);
}

#[test]
fn test_handle_tick_and_resize() {
    let mut app = setup_app();
    assert!(handle_event(&mut app, AppEvent::Tick, false).keep_running);
    assert!(handle_event(&mut app, AppEvent::Resize(100, 50), false).keep_running);
    assert!(handle_event(&mut app, AppEvent::Key(key(KeyCode::F(5))), false).keep_running);
}

#[test]
fn test_handle_help_view_close() {
    let mut app = setup_app();
    app.current_view = Screen::Help;
    let out = handle_event(&mut app, AppEvent::Key(key(KeyCode::Char('x'))), false);
    assert!(out.keep_running);
    assert_eq!(app.current_view, Screen::Main);
}

#[test]
fn test_dialog_flow_add_task() {
    let mut app = setup_app();
    app.current_view = Screen::Main;
    handle_event(&mut app, AppEvent::Key(key(KeyCode::Char('a'))), false);
    assert!(matches!(app.dialog, Some(Dialog::AddTask(_))));
    for c in "Buy bread".chars() {
        handle_event(&mut app, AppEvent::Key(key(KeyCode::Char(c))), false);
    }
    let enter = key_with_mod(KeyCode::Enter, KeyModifiers::control());
    let out = handle_event(&mut app, AppEvent::Key(enter), false);
    assert!(app.dialog.is_none());
    match out.effect {
        Effect::Store(StoreOp::InsertTask(t)) => assert_eq!(t.title, "Buy bread"),
        _ => panic!("expected an insert"),
    }
    assert_eq!(app.status_message.as_deref(), Some("Task created"));
}

#[test]
fn test_dialog_flow_filter_sort() {
    let mut app = setup_app();
    app.current_view = Screen::Main;
    handle_event(&mut app, AppEvent::Key(key(KeyCode::Char('f'))), false);
    handle_event(&mut app, AppEvent::Key(key(KeyCode::Char('k'))), false);
    handle_event(&mut app, AppEvent::Key(key(KeyCode::Enter)), false);
    assert!(app.dialog.is_none());
    assert_eq!(app.filter, Filter::All);
    assert_eq!(app.status_message.as_deref(), Some("Filter: All, Sort: DueDateAsc"));
}

#[test]
fn test_delete_inbox_refused() {
    let mut app = setup_app();
    app.selected_project_index = 1;
    run(&mut app, Command::DeleteProject);
    assert!(app.dialog.is_none());
    assert_eq!(app.status_message.as_deref(), Some("Cannot delete the Inbox project"));
}
