//! The settings dialog: a menu of database maintenance actions, each
//! confirmed before it is run.
use vstd::prelude::*;
use crate::keys::{KeyCode, KeyEvent};
use crate::ui::dialogs::DialogAction;

verus! {

/// Actions offered by the settings dialog.
#[derive(Debug, Clone, Copy, PartialEq, Eq, Structural)]
pub enum SettingsOption {
    /// Delete all completed tasks
    DeleteCompletedTasks,
    /// Reset the entire database
    ResetDatabase,
}

impl SettingsOption {
    /// The text shown for the option.
    pub fn label(&self) -> (r: &'static str)
        ensures
            r@ == match *self {
                SettingsOption::DeleteCompletedTasks => "Delete all completed tasks"@,
                SettingsOption::ResetDatabase => "Reset database (delete everything)"@,
            },
    {
        match self {
            SettingsOption::DeleteCompletedTasks => "Delete all completed tasks",
            SettingsOption::ResetDatabase => "Reset database (delete everything)",
        }
    }

    /// Whether the option destroys data; both do, so both are confirmed.
    pub fn is_destructive(&self) -> (r: bool)
        ensures
            r,
    {
        true
    }
}

/// The two screens of the dialog.
#[derive(Debug, Clone, Copy, PartialEq, Eq, Structural)]
pub enum DialogState {
    /// Showing the menu of options
    Menu,
    /// Asking to confirm an option
    Confirming,
}

/// The dialog's state.
#[derive(Debug)]
pub struct SettingsDialog {
    /// Position of the highlighted option
    pub selected_index: usize,
    /// The options offered, in menu order
    pub options: Vec<SettingsOption>,
    /// Which screen is shown
    pub state: DialogState,
    /// The option being confirmed, if any
    pub confirming_option: Option<SettingsOption>,
    /// Whether "Yes" is highlighted on the confirmation screen
    pub confirm_selected_yes: bool,
}

/// The menu of a fresh dialog.
pub open spec fn settings_menu() -> Seq<SettingsOption> {
    seq![SettingsOption::DeleteCompletedTasks, SettingsOption::ResetDatabase]
}

impl SettingsDialog {
    /// The menu is not empty, and an option is being confirmed exactly when
    /// the confirmation screen is shown.
    pub open spec fn wf(&self) -> bool {
        &&& self.options@.len() > 0
        &&& (self.state == DialogState::Confirming) == (self.confirming_option is Some)
    }

    /// The option under the highlight, if the position is valid.
    pub open spec fn selected_spec(&self) -> Option<SettingsOption> {
        if self.selected_index < self.options@.len() {
            Some(self.options@[self.selected_index as int])
        } else {
            None
        }
    }

    /// The state of a dialog just opened.
    pub open spec fn is_fresh(&self) -> bool {
        &&& self.wf()
        &&& self.selected_index == 0
        &&& self.options@ == settings_menu()
        &&& self.state == DialogState::Menu
        &&& self.confirming_option is None
        &&& !self.confirm_selected_yes
    }

    /// A dialog showing the menu with its first option highlighted.
    pub fn new() -> (r: Self)
        ensures
            r.is_fresh(),
            r.wf(),
            r.selected_index == 0,
            r.options@ == settings_menu(),
            r.state == DialogState::Menu,
            r.confirming_option is None,
            !r.confirm_selected_yes,
    {
        let mut options: Vec<SettingsOption> = Vec::new();
        options.push(SettingsOption::DeleteCompletedTasks);
        options.push(SettingsOption::ResetDatabase);
        assert(options@ =~= settings_menu());
        SettingsDialog {
            selected_index: 0,
            options,
            state: DialogState::Menu,
            confirming_option: None,
            confirm_selected_yes: false,
        }
    }

    /// The highlighted option, if any.
    pub fn selected_option(&self) -> (r: Option<SettingsOption>)
        ensures
            r == self.selected_spec(),
    {
        if self.selected_index < self.options.len() {
            Some(self.options[self.selected_index])
        } else {
            None
        }
    }

    /// The option that was confirmed or is being confirmed, if any.
    pub fn confirmed_option(&self) -> (r: Option<SettingsOption>)
        ensures
            r == self.confirming_option,
    {
        self.confirming_option
    }

    /// How a key changes the dialog (`pre` to `post`) and what it answers.
    pub open spec fn key_step(pre: SettingsDialog, post: SettingsDialog, key: KeyEvent, r: DialogAction) -> bool {
        &&& (post.options == pre.options)
        &&& (pre.state == DialogState::Menu ==> match key.code {
                KeyCode::Esc => r == DialogAction::Cancel && post == pre,
                KeyCode::Up | KeyCode::Char('k') => r == DialogAction::Nothing
                    && post.selected_index == (if pre.selected_index > 0 {
                    pre.selected_index - 1
                } else {
                    0
                }) && post.state == pre.state && post.confirming_option
                    == pre.confirming_option && post.confirm_selected_yes == pre.confirm_selected_yes,
                KeyCode::Down | KeyCode::Char('j') => r == DialogAction::Nothing
                    && post.selected_index == (if pre.selected_index < pre.options@.len() - 1 {
                    pre.selected_index + 1
                } else {
                    pre.selected_index as int
                }) && post.state == pre.state && post.confirming_option
                    == pre.confirming_option && post.confirm_selected_yes == pre.confirm_selected_yes,
                KeyCode::Enter => r == DialogAction::Nothing && match pre.selected_spec() {
                    Some(o) => post.state == DialogState::Confirming
                        && post.confirming_option == Some(o)
                        && !post.confirm_selected_yes && post.selected_index == pre.selected_index,
                    None => post == pre,
                },
                _ => r == DialogAction::Nothing && post == pre
            })
        &&& (pre.state == DialogState::Confirming ==> post.selected_index == pre.selected_index
            && match key.code {
                KeyCode::Char('y') | KeyCode::Char('Y') => r == DialogAction::Submit && post
                    == pre,
                KeyCode::Char('n') | KeyCode::Char('N') | KeyCode::Esc => r == DialogAction::Nothing
                    && post.state == DialogState::Menu && post.confirming_option is None
                    && post.confirm_selected_yes == pre.confirm_selected_yes,
                KeyCode::Left | KeyCode::Right | KeyCode::Tab | KeyCode::Char('h') | KeyCode::Char(
                    'l',
                ) => r == DialogAction::Nothing && post.confirm_selected_yes == !pre.confirm_selected_yes && post.state == pre.state
                    && post.confirming_option == pre.confirming_option,
                KeyCode::Enter => if pre.confirm_selected_yes {
                    r == DialogAction::Submit && post == pre
                } else {
                    r == DialogAction::Nothing && post.state == DialogState::Menu
                        && post.confirming_option is None
                        && post.confirm_selected_yes == pre.confirm_selected_yes
                },
                _ => r == DialogAction::Nothing && post == pre
            })
    }

    /// Handles a key on the current screen. On the menu: Esc cancels, the
    /// up and down arrows, `k` and `j` move the highlight, Enter asks to
    /// confirm the highlighted option. On the confirmation screen: `y`
    /// submits, `n` or Esc goes back to the menu, the side arrows, Tab, `h`
    /// and `l` switch the highlighted answer, Enter answers with it.
    pub fn handle_key(&mut self, key: KeyEvent) -> (r: DialogAction)
        requires
            old(self).wf(),
        ensures
            final(self).wf(),
            Self::key_step(*old(self), *final(self), key, r),
    {
        match self.state {
            DialogState::Menu => self.handle_menu_key(key),
            DialogState::Confirming => self.handle_confirm_key(key),
        }
    }

    fn handle_menu_key(&mut self, key: KeyEvent) -> (r: DialogAction)
        requires
            old(self).wf(),
            old(self).state == DialogState::Menu,
        ensures
            final(self).wf(),
            final(self).options == old(self).options,
            match key.code {
                KeyCode::Esc => r == DialogAction::Cancel && *final(self) == *old(self),
                KeyCode::Up | KeyCode::Char('k') => r == DialogAction::Nothing
                    && final(self).selected_index == (if old(self).selected_index > 0 {
                    old(self).selected_index - 1
                } else {
                    0
                }) && final(self).state == old(self).state && final(self).confirming_option
                    == old(self).confirming_option && final(self).confirm_selected_yes == old(
                    self,
                ).confirm_selected_yes,
                KeyCode::Down | KeyCode::Char('j') => r == DialogAction::Nothing
                    && final(self).selected_index == (if old(self).selected_index < old(
                    self,
                ).options@.len() - 1 {
                    old(self).selected_index + 1
                } else {
                    old(self).selected_index as int
                }) && final(self).state == old(self).state && final(self).confirming_option
                    == old(self).confirming_option && final(self).confirm_selected_yes == old(
                    self,
                ).confirm_selected_yes,
                KeyCode::Enter => r == DialogAction::Nothing && match old(self).selected_spec() {
                    Some(o) => final(self).state == DialogState::Confirming
                        && final(self).confirming_option == Some(o)
                        && !final(self).confirm_selected_yes && final(self).selected_index == old(
                        self,
                    ).selected_index,
                    None => *final(self) == *old(self),
                },
                _ => r == DialogAction::Nothing && *final(self) == *old(self),
            },
    {
        match key.code {
            KeyCode::Esc => DialogAction::Cancel,
            KeyCode::Up | KeyCode::Char('k') => {
                if self.selected_index > 0 {
                    self.selected_index = self.selected_index - 1;
                }
                DialogAction::Nothing
            },
            KeyCode::Down | KeyCode::Char('j') => {
                if self.selected_index < self.options.len() - 1 {
                    self.selected_index = self.selected_index + 1;
                }
                DialogAction::Nothing
            },
            KeyCode::Enter => {
                if let Some(option) = self.selected_option() {
                    if option.is_destructive() {
                        self.state = DialogState::Confirming;
                        self.confirming_option = Some(option);
                        self.confirm_selected_yes = false;
                    } else {
                        return DialogAction::Submit;
                    }
                }
                DialogAction::Nothing
            },
            _ => DialogAction::Nothing,
        }
    }

    fn handle_confirm_key(&mut self, key: KeyEvent) -> (r: DialogAction)
        requires
            old(self).wf(),
        ensures
            final(self).wf(),
            final(self).options == old(self).options,
            final(self).selected_index == old(self).selected_index,
            match key.code {
                KeyCode::Char('y') | KeyCode::Char('Y') => r == DialogAction::Submit && *final(self)
                    == *old(self),
                KeyCode::Char('n') | KeyCode::Char('N') | KeyCode::Esc => r == DialogAction::Nothing
                    && final(self).state == DialogState::Menu && final(self).confirming_option is None
                    && final(self).confirm_selected_yes == old(self).confirm_selected_yes,
                KeyCode::Left | KeyCode::Right | KeyCode::Tab | KeyCode::Char('h') | KeyCode::Char(
                    'l',
                ) => r == DialogAction::Nothing && final(self).confirm_selected_yes == !old(
                    self,
                ).confirm_selected_yes && final(self).state == old(self).state
                    && final(self).confirming_option == old(self).confirming_option,
                KeyCode::Enter => if old(self).confirm_selected_yes {
                    r == DialogAction::Submit && *final(self) == *old(self)
                } else {
                    r == DialogAction::Nothing && final(self).state == DialogState::Menu
                        && final(self).confirming_option is None
                        && final(self).confirm_selected_yes == old(self).confirm_selected_yes
                },
                _ => r == DialogAction::Nothing && *final(self) == *old(self),
            },
    {
        match key.code {
            KeyCode::Char('y') | KeyCode::Char('Y') => DialogAction::Submit,
            KeyCode::Char('n') | KeyCode::Char('N') | KeyCode::Esc => {
                self.state = DialogState::Menu;
                self.confirming_option = None;
                DialogAction::Nothing
            },
            KeyCode::Left | KeyCode::Right | KeyCode::Tab | KeyCode::Char('h') | KeyCode::Char('l') => {
                self.confirm_selected_yes = !self.confirm_selected_yes;
                DialogAction::Nothing
            },
            KeyCode::Enter => {
                if self.confirm_selected_yes {
                    DialogAction::Submit
                } else {
                    self.state = DialogState::Menu;
                    self.confirming_option = None;
                    DialogAction::Nothing
                }
            },
            _ => DialogAction::Nothing,
        }
    }
}

impl Default for SettingsDialog {
    fn default() -> (r: Self)
        ensures
            r.wf(),
            r.selected_index == 0,
            r.options@ == settings_menu(),
            r.state == DialogState::Menu,
            r.confirming_option is None,
    {
        SettingsDialog::new()
    }
}


/// The dialog submits only from the confirmation screen, with the option
/// being confirmed: both options need a confirmation step, and the option
/// submitted is the one confirmed.
pub proof fn law_submit_only_after_confirmation(
    pre: SettingsDialog,
    post: SettingsDialog,
    key: KeyEvent,
    r: DialogAction,
)
    requires
        pre.wf(),
        SettingsDialog::key_step(pre, post, key, r),
        r == DialogAction::Submit,
    ensures
        pre.state == DialogState::Confirming,
        pre.confirming_option is Some,
        post.confirming_option == pre.confirming_option,
{
}
} // verus!
