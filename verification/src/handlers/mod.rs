//! Input handling: key bindings, commands, and the routing of events.
//!
//! [`handle_event`] is the entry point: a key goes to the open dialog if
//! there is one, and is otherwise mapped to a [`Command`] and executed; a
//! tick runs the time-based updates.
pub mod commands;
pub mod events;
pub mod input;

pub use commands::{Command, Effect, Outcome, StoreOp, TuiLoggerEvent};
pub use events::AppEvent;
pub use input::map_key_to_command;

use vstd::prelude::*;
use crate::app::{App, first_selection, first_with_id};
use crate::handlers::commands::{executed, selected_of, status_set};
use crate::handlers::input::key_command;
use crate::keys::KeyEvent;
use crate::models::filter::{filter_variant, sort_variant};
use crate::models::task::{Task, same_task};
use crate::text::{concat, trim};
use crate::ui::dialogs::{
    AddTaskDialog, ConfirmDialog, DeleteProjectChoice, DeleteProjectDialog, Dialog, DialogAction,
    FilterSortDialog, MoveToProjectDialog, ProjectDialog, SettingsDialog, SettingsOption,
};
use crate::ui::dialogs::add_task::add_task_after_key;
use crate::ui::dialogs::filter_sort::{filter_choice, sort_choice};
use crate::utils::datetime::Clock;
use crate::utils::ids::{generate_id, uuid_v7_shaped};

verus! {

/// How a key changes an open dialog (`d` to `d2`) and what the dialog
/// answers, at the time of `clock`.
pub open spec fn dialog_step(d: Dialog, d2: Dialog, key: KeyEvent, clock: Clock, a: DialogAction) -> bool {
    match (d, d2) {
        (Dialog::AddTask(x), Dialog::AddTask(y)) => y.wf() && add_task_after_key(
            *x,
            *y,
            key,
            clock,
            a,
        ),
        (Dialog::Confirm(x), Dialog::Confirm(y)) => ConfirmDialog::key_step(x, y, key, a),
        (Dialog::DeleteProject(x), Dialog::DeleteProject(y)) => DeleteProjectDialog::key_step(
            x,
            y,
            key,
            a,
        ),
        (Dialog::FilterSort(x), Dialog::FilterSort(y)) => y.wf() && FilterSortDialog::key_step(
            x,
            y,
            key,
            a,
        ),
        (Dialog::MoveToProject(x), Dialog::MoveToProject(y)) => MoveToProjectDialog::key_step(
            x,
            y,
            key,
            a,
        ),
        (Dialog::Project(x), Dialog::Project(y)) => y.wf() && ProjectDialog::key_step(x, y, key, a),
        (Dialog::Settings(x), Dialog::Settings(y)) => y.wf() && SettingsDialog::key_step(
            x,
            y,
            key,
            a,
        ),
        _ => false,
    }
}

/// Whether the open dialog can take one more character in each text.
pub open spec fn dialog_has_room(d: Dialog) -> bool {
    match d {
        Dialog::AddTask(x) => x.has_room(),
        Dialog::Project(x) => x.name.value@.len() < usize::MAX,
        _ => true,
    }
}

/// `n` is `o` with the dialog closed.
pub open spec fn closed(o: App, n: App) -> bool {
    n == (App { dialog: None, ..o })
}

/// `n` is `o` with the dialog closed and the status message cleared.
pub open spec fn closed_quietly(o: App, n: App) -> bool {
    n == (App { dialog: None, status_message: None, status_message_set_at: None, ..o })
}

/// `n` is `o` with the dialog closed and `msg` shown.
pub open spec fn closed_with(o: App, n: App, msg: Seq<char>) -> bool {
    &&& status_set(o, n, msg)
    &&& n == (App {
        dialog: None,
        status_message: n.status_message,
        status_message_set_at: n.status_message_set_at,
        ..o
    })
}

/// How the state follows the submission of dialog `d2`, with the work left.
pub open spec fn submitted(o: App, n: App, d2: Dialog, e: Effect) -> bool {
    let now = o.clock.now as int;
    match d2 {
        Dialog::AddTask(y) => if trim(y.title.value@).len() == 0 {
            closed(o, n) && e is Nothing
        } else if y.editing_task_id is Some {
            &&& e matches Effect::Store(StoreOp::UpdateTask(t)) && y.describes(t, t.id, now, o.clock)
            &&& closed_with(o, n, "Task updated"@)
        } else {
            &&& e matches Effect::Store(StoreOp::InsertTask(t)) && uuid_v7_shaped(t.id@) && y.describes(
                t,
                t.id,
                now,
                o.clock,
            )
            &&& closed_with(o, n, "Task created"@)
        },
        Dialog::Confirm(_) => match selected_of(o) {
            Some(t) => {
                &&& e matches Effect::Store(StoreOp::DeleteTask(id)) && id == t.id
                &&& closed_with(o, n, "Task deleted"@)
            },
            None => closed(o, n) && e is Nothing,
        },
        Dialog::FilterSort(y) => {
            let f = filter_choice(y.filter_index as int);
            let s = sort_choice(y.sort_index as int);
            &&& e is Nothing
            &&& n.filter == f
            &&& n.sort == s
            &&& n.selected_task_index == first_selection(n.visible().len() as int)
            &&& status_set(o, n, "Filter: "@ + filter_variant(f) + ", Sort: "@ + sort_variant(s))
            &&& n == (App {
                dialog: None,
                filter: f,
                sort: s,
                selected_task_index: n.selected_task_index,
                status_message: n.status_message,
                status_message_set_at: n.status_message_set_at,
                ..o
            })
        },
        Dialog::DeleteProject(y) => match y.selected {
            DeleteProjectChoice::MoveToInbox => {
                &&& e matches Effect::Store(StoreOp::DeleteProject { project_id, delete_tasks })
                    && project_id == y.project_id && !delete_tasks
                &&& closed_with(o, n, "Project deleted, tasks moved to Inbox"@)
            },
            DeleteProjectChoice::DeleteTasks => {
                &&& e matches Effect::Store(StoreOp::DeleteProject { project_id, delete_tasks })
                    && project_id == y.project_id && delete_tasks
                &&& closed_with(o, n, "Project and tasks deleted"@)
            },
            DeleteProjectChoice::Cancel => {
                &&& e matches Effect::Store(StoreOp::ReloadToAllTasks)
                &&& closed_quietly(o, n)
            },
        },
        Dialog::Project(y) => if trim(y.name.value@).len() == 0 {
            closed(o, n) && e is Nothing
        } else if y.editing_project_id is Some {
            &&& e matches Effect::Store(StoreOp::UpdateProject(p)) && y.describes(p, p.id, now)
            &&& closed_with(o, n, "Project updated"@)
        } else {
            &&& e matches Effect::Store(StoreOp::InsertProject(p)) && uuid_v7_shaped(p.id@)
                && y.describes(p, p.id, now)
            &&& closed_with(o, n, "Project created"@)
        },
        Dialog::MoveToProject(y) => {
            let k = y.selected_index as int;
            if k < y.projects@.len() && exists|i: int| first_with_id(o.tasks@, y.task_id@, i) {
                let i = choose|i: int| first_with_id(o.tasks@, y.task_id@, i);
                let t = o.tasks@[i];
                &&& e matches Effect::Store(StoreOp::UpdateTask(u)) && same_task(
                    u,
                    Task { project_id: Some(y.projects@[k].id), updated_at: o.clock.now, ..t },
                )
                &&& closed_with(o, n, "Task moved to "@ + y.projects@[k].name@)
            } else {
                closed(o, n) && e is Nothing
            }
        },
        Dialog::Settings(y) => match y.confirming_option {
            Some(SettingsOption::DeleteCompletedTasks) => closed(o, n) && (
            e matches Effect::Store(StoreOp::DeleteCompletedTasks)),
            Some(SettingsOption::ResetDatabase) => closed(o, n) && (
            e matches Effect::Store(StoreOp::ResetDatabase)),
            None => closed(o, n) && e is Nothing,
        },
    }
}

/// How a key changes the state while a dialog is open, with the work left.
pub open spec fn dialog_handled(o: App, n: App, key: KeyEvent, out: Outcome) -> bool {
    &&& out.keep_running
    &&& match o.dialog {
        Some(d) => if !dialog_has_room(d) {
            n == o && out.effect is Refused
        } else {
            exists|d2: Dialog, a: DialogAction|
                #![trigger dialog_step(d, d2, key, o.clock, a)]
                dialog_step(d, d2, key, o.clock, a) && match a {
                    DialogAction::Nothing => n == (App { dialog: Some(d2), ..o })
                        && out.effect is Nothing,
                    DialogAction::Cancel => out.effect is Nothing && if d2 is FilterSort {
                        closed(o, n)
                    } else {
                        closed_quietly(o, n)
                    },
                    DialogAction::Submit => submitted(o, n, d2, out.effect),
                }
        },
        None => n == o && out.effect is Nothing,
    }
}

/// Finishes a dialog: the state after action `a` of dialog `d2`.
fn finish_dialog(app: &mut App, d2: Dialog, a: DialogAction) -> (r: Outcome)
    requires
        old(app).wf(),
        old(app).dialog is None,
        d2.wf(),
    ensures
        final(app).wf(),
        r.keep_running,
        match a {
            DialogAction::Nothing => *final(app) == (App { dialog: Some(d2), ..*old(app) })
                && r.effect is Nothing,
            DialogAction::Cancel => r.effect is Nothing && if d2 is FilterSort {
                *final(app) == *old(app)
            } else {
                *final(app) == (App {
                    status_message: None,
                    status_message_set_at: None,
                    ..*old(app)
                })
            },
            DialogAction::Submit => submitted(*old(app), *final(app), d2, r.effect),
        },
{
    let keep = true;
    match a {
        DialogAction::Nothing => {
            app.dialog = Some(d2);
            return Outcome { keep_running: keep, effect: Effect::Nothing };
        },
        DialogAction::Cancel => {
            match d2 {
                Dialog::FilterSort(_) => {},
                _ => {
                    app.clear_status();
                },
            }
            return Outcome { keep_running: keep, effect: Effect::Nothing };
        },
        DialogAction::Submit => {},
    }
    let now = app.clock.now;
    let effect = match d2 {
        Dialog::AddTask(y) => match y.to_task_at(generate_id(), now, app.clock) {
            Some(t) => {
                if y.is_editing() {
                    app.set_status("Task updated");
                    Effect::Store(StoreOp::UpdateTask(t))
                } else {
                    app.set_status("Task created");
                    Effect::Store(StoreOp::InsertTask(t))
                }
            },
            None => Effect::Nothing,
        },
        Dialog::Confirm(_) => {
            let id = match app.selected_task() {
                Some(t) => Some(t.id.clone()),
                None => None,
            };
            match id {
                Some(id) => {
                    app.set_status("Task deleted");
                    Effect::Store(StoreOp::DeleteTask(id))
                },
                None => Effect::Nothing,
            }
        },
        Dialog::FilterSort(y) => {
            app.filter = y.selected_filter();
            app.sort = y.selected_sort();
            app.update_task_selection();
            let a = concat("Filter: ", app.filter.variant_text().as_str());
            let b = concat(a.as_str(), ", Sort: ");
            let msg = concat(b.as_str(), app.sort.variant_text());
            app.set_status_string(msg);
            Effect::Nothing
        },
        Dialog::DeleteProject(y) => match y.choice() {
            DeleteProjectChoice::MoveToInbox => {
                app.set_status("Project deleted, tasks moved to Inbox");
                Effect::Store(StoreOp::DeleteProject { project_id: y.project_id, delete_tasks: false })
            },
            DeleteProjectChoice::DeleteTasks => {
                app.set_status("Project and tasks deleted");
                Effect::Store(StoreOp::DeleteProject { project_id: y.project_id, delete_tasks: true })
            },
            DeleteProjectChoice::Cancel => {
                app.clear_status();
                Effect::Store(StoreOp::ReloadToAllTasks)
            },
        },
        Dialog::Project(y) => match y.to_project_at(generate_id(), now) {
            Some(p) => {
                if y.is_editing() {
                    app.set_status("Project updated");
                    Effect::Store(StoreOp::UpdateProject(p))
                } else {
                    app.set_status("Project created");
                    Effect::Store(StoreOp::InsertProject(p))
                }
            },
            None => Effect::Nothing,
        },
        Dialog::MoveToProject(y) => {
            let mut e = Effect::Nothing;
            if y.selected_index < y.projects.len() {
                let pid = y.projects[y.selected_index].id.clone();
                let mut i: usize = 0;
                while i < app.tasks.len() && !(app.tasks[i].id == y.task_id)
                    invariant
                        i <= app.tasks@.len(),
                        forall|j: int| 0 <= j < i ==> (#[trigger] app.tasks@[j]).id@ != y.task_id@,
                    decreases app.tasks@.len() - i,
                {
                    i = i + 1;
                }
                if i < app.tasks.len() {
                    proof {
                        assert(first_with_id(app.tasks@, y.task_id@, i as int));
                        let c = choose|c: int| first_with_id(app.tasks@, y.task_id@, c);
                        if c < i {
                            assert(app.tasks@[c].id@ != y.task_id@);
                        } else if c > i {
                            assert(app.tasks@[i as int].id@ != y.task_id@);
                        }
                    }
                    let mut u = app.tasks[i].copy();
                    u.project_id = Some(pid);
                    u.updated_at = now;
                    let msg = concat("Task moved to ", y.projects[y.selected_index].name.as_str());
                    app.set_status_string(msg);
                    e = Effect::Store(StoreOp::UpdateTask(u));
                }
            }
            e
        },
        Dialog::Settings(y) => match y.confirmed_option() {
            Some(SettingsOption::DeleteCompletedTasks) => Effect::Store(StoreOp::DeleteCompletedTasks),
            Some(SettingsOption::ResetDatabase) => Effect::Store(StoreOp::ResetDatabase),
            None => Effect::Nothing,
        },
    };
    Outcome { keep_running: keep, effect }
}

/// Passes a key to dialog `d`: the dialog after the key and its answer,
/// or the dialog untouched when one of its texts has no room left.
fn step_dialog(d: Dialog, key: KeyEvent, clock: Clock) -> (r: Result<(Dialog, DialogAction), Dialog>)
    requires
        d.wf(),
        clock.wf(),
    ensures
        match r {
            Ok((d2, a)) => dialog_has_room(d) && dialog_step(d, d2, key, clock, a) && d2.wf(),
            Err(d1) => !dialog_has_room(d) && d1 == d,
        },
{
    match d {
        Dialog::AddTask(bx) => {
            let mut x = *bx;
            if !x.room() {
                return Err(Dialog::AddTask(Box::new(x)));
            }
            let a = x.handle_key_at(key, clock);
            Ok((Dialog::AddTask(Box::new(x)), a))
        },
        Dialog::Confirm(mut x) => {
            let a = x.handle_key(key);
            Ok((Dialog::Confirm(x), a))
        },
        Dialog::DeleteProject(mut x) => {
            let a = x.handle_key(key);
            Ok((Dialog::DeleteProject(x), a))
        },
        Dialog::FilterSort(mut x) => {
            let a = x.handle_key(key);
            Ok((Dialog::FilterSort(x), a))
        },
        Dialog::MoveToProject(mut x) => {
            let a = x.handle_key(key);
            Ok((Dialog::MoveToProject(x), a))
        },
        Dialog::Project(mut x) => {
            if x.name.value.len() == usize::MAX {
                return Err(Dialog::Project(x));
            }
            let a = x.handle_key(key);
            Ok((Dialog::Project(x), a))
        },
        Dialog::Settings(mut x) => {
            let a = x.handle_key(key);
            Ok((Dialog::Settings(x), a))
        },
    }
}

/// Routes a key to the open dialog (see [`dialog_handled`]).
pub fn handle_dialog_key(app: &mut App, key: KeyEvent) -> (r: Outcome)
    requires
        old(app).wf(),
    ensures
        final(app).wf(),
        dialog_handled(*old(app), *final(app), key, r),
{
    let mut taken: Option<Dialog> = None;
    std::mem::swap(&mut taken, &mut app.dialog);
    match taken {
        None => Outcome { keep_running: true, effect: Effect::Nothing },
        Some(d) => {
            match step_dialog(d, key, app.clock) {
                Ok((d2, a)) => finish_dialog(app, d2, a),
                Err(d1) => {
                    app.dialog = Some(d1);
                    Outcome { keep_running: true, effect: Effect::Refused }
                },
            }
        },
    }
}

/// How an event changes the state, with the work left: a key goes to the
/// open dialog, or else to the command it is bound to; a tick runs the
/// time-based updates; other events change nothing.
pub open spec fn event_handled(o: App, n: App, event: AppEvent, effects_active: bool, out: Outcome) -> bool {
    match event {
        AppEvent::Key(key) => if o.dialog is Some {
            dialog_handled(o, n, key, out)
        } else {
            match key_command(key, o.current_view, o.input_mode, o.focus) {
                Some(cmd) => executed(o, n, cmd, out),
                None => n == o && out.keep_running && out.effect is Nothing,
            }
        },
        AppEvent::Tick => out.keep_running && out.effect is Nothing && crate::app::ticked(
            o,
            n,
            effects_active,
        ),
        _ => n == o && out.keep_running && out.effect is Nothing,
    }
}

/// Handles one event (see [`event_handled`]); `effects_active` tells
/// whether an animation is running.
pub fn handle_event(app: &mut App, event: AppEvent, effects_active: bool) -> (r: Outcome)
    requires
        old(app).wf(),
    ensures
        final(app).wf(),
        event_handled(*old(app), *final(app), event, effects_active, r),
{
    match event {
        AppEvent::Key(key) => {
            if app.dialog.is_some() {
                return handle_dialog_key(app, key);
            }
            match map_key_to_command(key, app) {
                Some(cmd) => cmd.execute(app),
                None => Outcome { keep_running: true, effect: Effect::Nothing },
            }
        },
        AppEvent::Tick => {
            app.on_tick(effects_active);
            Outcome { keep_running: true, effect: Effect::Nothing }
        },
        _ => Outcome { keep_running: true, effect: Effect::Nothing },
    }
}

} // verus!
