//! Modal dialogs: each holds its own state and answers key presses with a
//! [`DialogAction`].
use vstd::prelude::*;


pub mod add_task;
pub mod confirm;
pub mod delete_project;
pub mod due_date;
pub mod filter_sort;
pub mod move_to_project;
pub mod project;
pub mod quick_capture;
pub mod settings;


pub use add_task::{AddTaskDialog, AddTaskField};
pub use confirm::ConfirmDialog;
pub use delete_project::{DeleteProjectChoice, DeleteProjectDialog};
pub use filter_sort::{FilterSortDialog, FilterSortSection};
pub use move_to_project::MoveToProjectDialog;
pub use project::{ProjectDialog, ProjectField};
pub use quick_capture::{ParsedCapture, QuickCaptureAction, QuickCaptureDialog, parse_capture_input};
pub use settings::{SettingsDialog, SettingsOption};

verus! {

/// What a dialog asks of its owner after a key press.
#[derive(Debug, Clone, Copy, PartialEq, Eq, Structural)]
pub enum DialogAction {
    /// Nothing to do; the dialog stays open
    Nothing,
    /// The dialog's content is to be applied
    Submit,
    /// The dialog is to be closed without applying anything
    Cancel,
}

/// The dialogs the application opens.
#[derive(Debug)]
pub enum Dialog {
    /// Add or edit a task (boxed for its size)
    AddTask(Box<AddTaskDialog>),
    /// Confirmation prompt
    Confirm(ConfirmDialog),
    /// Project deletion, with the choice of what becomes of its tasks
    DeleteProject(DeleteProjectDialog),
    /// Filter and sort selection
    FilterSort(FilterSortDialog),
    /// Move a task to another project
    MoveToProject(MoveToProjectDialog),
    /// Add or edit a project
    Project(ProjectDialog),
    /// Settings
    Settings(SettingsDialog),
}

impl Dialog {
    /// The dialog held is well-formed.
    pub open spec fn wf(&self) -> bool {
        match self {
            Dialog::AddTask(d) => d.wf(),
            Dialog::FilterSort(d) => d.wf(),
            Dialog::Project(d) => d.wf(),
            Dialog::Settings(d) => d.wf(),
            _ => true,
        }
    }
}

} // verus!
