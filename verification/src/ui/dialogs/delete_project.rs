//! The dialog asked before a project with tasks is deleted.
use vstd::prelude::*;
use crate::keys::{KeyCode, KeyEvent};
use crate::ui::dialogs::DialogAction;

verus! {

/// What to do with a deleted project's tasks.
#[derive(Debug, Clone, Copy, PartialEq, Eq, Structural)]
pub enum DeleteProjectChoice {
    /// Move tasks to Inbox (default, safe option)
    MoveToInbox,
    /// Delete all tasks in the project
    DeleteTasks,
    /// Cancel the operation
    Cancel,
}

impl Default for DeleteProjectChoice {
    fn default() -> (r: Self)
        ensures
            r == DeleteProjectChoice::MoveToInbox,
    {
        DeleteProjectChoice::MoveToInbox
    }
}

/// The choice above `c`, wrapping around.
pub open spec fn choice_up(c: DeleteProjectChoice) -> DeleteProjectChoice {
    match c {
        DeleteProjectChoice::MoveToInbox => DeleteProjectChoice::Cancel,
        DeleteProjectChoice::DeleteTasks => DeleteProjectChoice::MoveToInbox,
        DeleteProjectChoice::Cancel => DeleteProjectChoice::DeleteTasks,
    }
}

/// The choice below `c`, wrapping around.
pub open spec fn choice_down(c: DeleteProjectChoice) -> DeleteProjectChoice {
    match c {
        DeleteProjectChoice::MoveToInbox => DeleteProjectChoice::DeleteTasks,
        DeleteProjectChoice::DeleteTasks => DeleteProjectChoice::Cancel,
        DeleteProjectChoice::Cancel => DeleteProjectChoice::MoveToInbox,
    }
}

/// Moving up and then down comes back to the same choice.
pub proof fn law_choice_up_down(c: DeleteProjectChoice)
    ensures
        choice_down(choice_up(c)) == c,
        choice_up(choice_down(c)) == c,
{
}

/// The dialog for deleting a project that holds tasks.
#[derive(Debug)]
pub struct DeleteProjectDialog {
    /// ID of the project to delete
    pub project_id: String,
    /// Name of the project (for display)
    pub project_name: String,
    /// Number of tasks in the project
    pub task_count: usize,
    /// Currently selected option
    pub selected: DeleteProjectChoice,
}

impl DeleteProjectDialog {
    /// Creates the dialog with "Move to Inbox" selected.
    pub fn new(project_id: String, project_name: String, task_count: usize) -> (r: Self)
        ensures
            r.project_id == project_id,
            r.project_name == project_name,
            r.task_count == task_count,
            r.selected == DeleteProjectChoice::MoveToInbox,
    {
        DeleteProjectDialog {
            project_id,
            project_name,
            task_count,
            selected: DeleteProjectChoice::MoveToInbox,
        }
    }

    /// Returns the selected choice.
    pub fn choice(&self) -> (r: DeleteProjectChoice)
        ensures
            r == self.selected,
    {
        self.selected
    }

    /// How a key changes the dialog (`pre` to `post`) and what it answers.
    pub open spec fn key_step(pre: DeleteProjectDialog, post: DeleteProjectDialog, key: KeyEvent, r: DialogAction) -> bool {
        &&& (post.project_id == pre.project_id)
        &&& (post.project_name == pre.project_name)
        &&& (post.task_count == pre.task_count)
        &&& (match key.code {
                KeyCode::Char('m') | KeyCode::Char('M') => r == DialogAction::Submit
                    && post.selected == DeleteProjectChoice::MoveToInbox,
                KeyCode::Char('d') | KeyCode::Char('D') => r == DialogAction::Submit
                    && post.selected == DeleteProjectChoice::DeleteTasks,
                KeyCode::Esc | KeyCode::Char('c') | KeyCode::Char('C') => r == DialogAction::Cancel
                    && post.selected == DeleteProjectChoice::Cancel,
                KeyCode::Up | KeyCode::Char('k') => r == DialogAction::Nothing && post.selected
                    == choice_up(pre.selected),
                KeyCode::Down | KeyCode::Char('j') => r == DialogAction::Nothing
                    && post.selected == choice_down(pre.selected),
                KeyCode::Enter => post.selected == pre.selected && r == (if pre.selected == DeleteProjectChoice::Cancel {
                    DialogAction::Cancel
                } else {
                    DialogAction::Submit
                }),
                _ => r == DialogAction::Nothing && post.selected == pre.selected
            })
    }

    /// Handles a key: `m`, `d` and `c` pick an option at once, the arrows
    /// and `j`/`k` move the selection, Enter answers with it.
    pub fn handle_key(&mut self, key: KeyEvent) -> (r: DialogAction)
        ensures
            Self::key_step(*old(self), *final(self), key, r),
    {
        match key.code {
            KeyCode::Char('m') | KeyCode::Char('M') => {
                self.selected = DeleteProjectChoice::MoveToInbox;
                DialogAction::Submit
            },
            KeyCode::Char('d') | KeyCode::Char('D') => {
                self.selected = DeleteProjectChoice::DeleteTasks;
                DialogAction::Submit
            },
            KeyCode::Esc | KeyCode::Char('c') | KeyCode::Char('C') => {
                self.selected = DeleteProjectChoice::Cancel;
                DialogAction::Cancel
            },
            KeyCode::Up | KeyCode::Char('k') => {
                self.selected = match self.selected {
                    DeleteProjectChoice::MoveToInbox => DeleteProjectChoice::Cancel,
                    DeleteProjectChoice::DeleteTasks => DeleteProjectChoice::MoveToInbox,
                    DeleteProjectChoice::Cancel => DeleteProjectChoice::DeleteTasks,
                };
                DialogAction::Nothing
            },
            KeyCode::Down | KeyCode::Char('j') => {
                self.selected = match self.selected {
                    DeleteProjectChoice::MoveToInbox => DeleteProjectChoice::DeleteTasks,
                    DeleteProjectChoice::DeleteTasks => DeleteProjectChoice::Cancel,
                    DeleteProjectChoice::Cancel => DeleteProjectChoice::MoveToInbox,
                };
                DialogAction::Nothing
            },
            KeyCode::Enter => {
                if self.selected == DeleteProjectChoice::Cancel {
                    DialogAction::Cancel
                } else {
                    DialogAction::Submit
                }
            },
            _ => DialogAction::Nothing,
        }
    }
}

} // verus!
