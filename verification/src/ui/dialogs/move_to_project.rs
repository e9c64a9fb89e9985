//! The dialog that moves a task to another project.
use vstd::prelude::*;
use crate::keys::{KeyCode, KeyEvent};
use crate::models::project::Project;
use crate::text::string_from;
use crate::ui::dialogs::DialogAction;

verus! {

/// The dialog's state: the projects to choose from and the highlighted one.
#[derive(Debug, Clone)]
pub struct MoveToProjectDialog {
    /// Available projects to move to
    pub projects: Vec<Project>,
    /// Currently selected project index
    pub selected_index: usize,
    /// The task being moved
    pub task_id: String,
}

/// The position of the first project with identifier `id`, if any.
pub open spec fn project_position(projects: Seq<Project>, id: Seq<char>) -> Option<int> {
    if exists|i: int| 0 <= i < projects.len() && (#[trigger] projects[i]).id@ == id {
        Some(
            choose|i: int|
                0 <= i < projects.len() && projects[i].id@ == id && forall|j: int|
                    0 <= j < i ==> (#[trigger] projects[j]).id@ != id,
        )
    } else {
        None
    }
}

impl MoveToProjectDialog {
    /// Opens the dialog on the task's current project, or on the first one.
    pub fn new(projects: Vec<Project>, task_id: String, current_project_id: Option<&str>) -> (r: Self)
        ensures
            r.projects@ == projects@,
            r.task_id == task_id,
            r.selected_index == match current_project_id {
                Some(id) => match project_position(projects@, id@) {
                    Some(i) => i,
                    None => 0,
                },
                None => 0,
            },
    {
        let mut selected_index: usize = 0;
        match current_project_id {
            Some(id) => {
                let target = string_from(id);
                let mut i: usize = 0;
                let mut found = false;
                while i < projects.len() && !found
                    invariant
                        i <= projects@.len(),
                        target@ == id@,
                        !found ==> selected_index == 0 && forall|j: int|
                            0 <= j < i ==> (#[trigger] projects@[j]).id@ != id@,
                        found ==> selected_index < projects@.len() && projects@[selected_index as int].id@
                            == id@ && forall|j: int|
                            0 <= j < selected_index ==> (#[trigger] projects@[j]).id@ != id@,
                    decreases projects@.len() - i,
                {
                    if projects[i].id == target {
                        selected_index = i;
                        found = true;
                    }
                    i = i + 1;
                }
                proof {
                    if found {
                        let w = selected_index as int;
                        assert(projects@[w].id@ == id@);
                        let c = project_position(projects@, id@).unwrap();
                        if c < w {
                        } else if c > w {
                            assert(projects@[w].id@ != id@);
                        }
                    }
                }
            },
            None => {},
        }
        MoveToProjectDialog { projects, selected_index, task_id }
    }

    /// The highlighted project, if the position is valid.
    pub fn selected_project(&self) -> (r: Option<&Project>)
        ensures
            r == (if self.selected_index < self.projects@.len() {
                Some(&self.projects@[self.selected_index as int])
            } else {
                None
            }),
    {
        if self.selected_index < self.projects.len() {
            Some(&self.projects[self.selected_index])
        } else {
            None
        }
    }

    /// The identifier of the highlighted project, if any.
    pub fn selected_project_id(&self) -> (r: Option<String>)
        ensures
            r == (if self.selected_index < self.projects@.len() {
                Some(self.projects@[self.selected_index as int].id)
            } else {
                None
            }),
    {
        match self.selected_project() {
            Some(p) => Some(p.id.clone()),
            None => None,
        }
    }

    /// How a key changes the dialog (`pre` to `post`) and what it answers.
    pub open spec fn key_step(pre: MoveToProjectDialog, post: MoveToProjectDialog, key: KeyEvent, r: DialogAction) -> bool {
        &&& (post.projects == pre.projects)
        &&& (post.task_id == pre.task_id)
        &&& (match key.code {
                KeyCode::Esc | KeyCode::Char('q') => r == DialogAction::Cancel
                    && post.selected_index == pre.selected_index,
                KeyCode::Enter => r == DialogAction::Submit && post.selected_index == pre.selected_index,
                KeyCode::Up | KeyCode::Char('k') => r == DialogAction::Nothing
                    && post.selected_index == if pre.selected_index > 0 {
                    pre.selected_index - 1
                } else {
                    0
                },
                KeyCode::Down | KeyCode::Char('j') => r == DialogAction::Nothing
                    && post.selected_index == if pre.projects@.len() == 0 {
                    pre.selected_index as int
                } else if pre.selected_index + 1 < pre.projects@.len() - 1 {
                    pre.selected_index + 1
                } else {
                    pre.projects@.len() - 1
                },
                KeyCode::Home | KeyCode::Char('g') => r == DialogAction::Nothing
                    && post.selected_index == 0,
                KeyCode::End | KeyCode::Char('G') => r == DialogAction::Nothing
                    && post.selected_index == if pre.projects@.len() == 0 {
                    pre.selected_index as int
                } else {
                    pre.projects@.len() - 1
                },
                _ => r == DialogAction::Nothing && post.selected_index == pre.selected_index
            })
    }

    /// Handles a key: Esc or `q` cancels, Enter submits, the arrows, `j`,
    /// `k`, Home, End, `g` and `G` move the highlight within the list.
    pub fn handle_key(&mut self, key: KeyEvent) -> (r: DialogAction)
        ensures
            Self::key_step(*old(self), *final(self), key, r),
    {
        match key.code {
            KeyCode::Esc | KeyCode::Char('q') => DialogAction::Cancel,
            KeyCode::Enter => DialogAction::Submit,
            KeyCode::Up | KeyCode::Char('k') => {
                self.selected_index = self.selected_index.saturating_sub(1);
                DialogAction::Nothing
            },
            KeyCode::Down | KeyCode::Char('j') => {
                if self.projects.len() > 0 {
                    let last = self.projects.len() - 1;
                    self.selected_index = if self.selected_index < last && self.selected_index + 1 < last {
                        self.selected_index + 1
                    } else {
                        last
                    };
                }
                DialogAction::Nothing
            },
            KeyCode::Home | KeyCode::Char('g') => {
                self.selected_index = 0;
                DialogAction::Nothing
            },
            KeyCode::End | KeyCode::Char('G') => {
                if self.projects.len() > 0 {
                    self.selected_index = self.projects.len() - 1;
                }
                DialogAction::Nothing
            },
            _ => DialogAction::Nothing,
        }
    }
}

} // verus!
