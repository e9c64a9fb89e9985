//! A yes/no confirmation dialog.
use vstd::prelude::*;
use crate::keys::{KeyCode, KeyEvent};
use crate::text::{concat, string_from};
use crate::ui::dialogs::DialogAction;

verus! {

/// A confirmation dialog with a title, a message and two buttons.
#[derive(Debug)]
pub struct ConfirmDialog {
    /// Dialog title
    pub title: String,
    /// Message to display
    pub message: String,
    /// Text for the confirm button
    pub confirm_text: String,
    /// Text for the cancel button
    pub cancel_text: String,
    /// Whether "Yes" is currently selected
    pub selected_yes: bool,
    /// Whether this is a destructive action (shows red)
    pub destructive: bool,
}

/// The message asking to delete the task titled `title`.
pub open spec fn delete_task_message(title: Seq<char>) -> Seq<char> {
    "\""@ + title + "\"\n\nThis action cannot be undone."@
}

impl ConfirmDialog {
    /// Creates a confirmation dialog; "No" is selected, for safety.
    pub fn new(title: &str, message: &str) -> (r: Self)
        ensures
            r.title@ == title@,
            r.message@ == message@,
            r.confirm_text@ == "Yes"@,
            r.cancel_text@ == "No"@,
            !r.selected_yes,
            !r.destructive,
    {
        ConfirmDialog {
            title: string_from(title),
            message: string_from(message),
            confirm_text: string_from("Yes"),
            cancel_text: string_from("No"),
            selected_yes: false,
            destructive: false,
        }
    }

    /// The dialog asking to delete the task titled `task_title`.
    pub fn delete_task(task_title: &str) -> (r: Self)
        ensures
            r.title@ == "Delete Task?"@,
            r.message@ == delete_task_message(task_title@),
            r.confirm_text@ == "Delete"@,
            r.cancel_text@ == "Cancel"@,
            !r.selected_yes,
            r.destructive,
    {
        let quoted = concat("\"", task_title);
        let message = concat(quoted.as_str(), "\"\n\nThis action cannot be undone.");
        ConfirmDialog {
            title: string_from("Delete Task?"),
            message,
            confirm_text: string_from("Delete"),
            cancel_text: string_from("Cancel"),
            selected_yes: false,
            destructive: true,
        }
    }

    /// Sets the confirm button's text.
    pub fn with_confirm_text(self, text: &str) -> (r: Self)
        ensures
            r.confirm_text@ == text@,
            r.title == self.title,
            r.message == self.message,
            r.cancel_text == self.cancel_text,
            r.selected_yes == self.selected_yes,
            r.destructive == self.destructive,
    {
        ConfirmDialog { confirm_text: string_from(text), ..self }
    }

    /// Sets the cancel button's text.
    pub fn with_cancel_text(self, text: &str) -> (r: Self)
        ensures
            r.cancel_text@ == text@,
            r.title == self.title,
            r.message == self.message,
            r.confirm_text == self.confirm_text,
            r.selected_yes == self.selected_yes,
            r.destructive == self.destructive,
    {
        ConfirmDialog { cancel_text: string_from(text), ..self }
    }

    /// Marks the action as destructive.
    pub fn destructive(self) -> (r: Self)
        ensures
            r.destructive,
            r.title == self.title,
            r.message == self.message,
            r.confirm_text == self.confirm_text,
            r.cancel_text == self.cancel_text,
            r.selected_yes == self.selected_yes,
    {
        ConfirmDialog { destructive: true, ..self }
    }

    /// How a key changes the dialog (`pre` to `post`) and what it answers.
    pub open spec fn key_step(pre: ConfirmDialog, post: ConfirmDialog, key: KeyEvent, r: DialogAction) -> bool {
        &&& (post.title == pre.title)
        &&& (post.message == pre.message)
        &&& (post.confirm_text == pre.confirm_text)
        &&& (post.cancel_text == pre.cancel_text)
        &&& (post.destructive == pre.destructive)
        &&& (match key.code {
                KeyCode::Char('y') | KeyCode::Char('Y') => r == DialogAction::Submit
                    && post.selected_yes == pre.selected_yes,
                KeyCode::Char('n') | KeyCode::Char('N') | KeyCode::Esc => r == DialogAction::Cancel
                    && post.selected_yes == pre.selected_yes,
                KeyCode::Left | KeyCode::Right | KeyCode::Tab | KeyCode::Char('h') | KeyCode::Char(
                    'l',
                ) => r == DialogAction::Nothing && post.selected_yes == !pre.selected_yes,
                KeyCode::Enter => r == (if pre.selected_yes {
                    DialogAction::Submit
                } else {
                    DialogAction::Cancel
                }) && post.selected_yes == pre.selected_yes,
                _ => r == DialogAction::Nothing && post.selected_yes == pre.selected_yes
            })
    }

    /// Handles a key: `y` confirms, `n` or Esc cancels, the arrows, Tab,
    /// `h` and `l` switch the selected button, Enter answers with it.
    pub fn handle_key(&mut self, key: KeyEvent) -> (r: DialogAction)
        ensures
            Self::key_step(*old(self), *final(self), key, r),
    {
        match key.code {
            KeyCode::Char('y') | KeyCode::Char('Y') => DialogAction::Submit,
            KeyCode::Char('n') | KeyCode::Char('N') | KeyCode::Esc => DialogAction::Cancel,
            KeyCode::Left | KeyCode::Right | KeyCode::Tab | KeyCode::Char('h') | KeyCode::Char('l') => {
                self.selected_yes = !self.selected_yes;
                DialogAction::Nothing
            },
            KeyCode::Enter => {
                if self.selected_yes {
                    DialogAction::Submit
                } else {
                    DialogAction::Cancel
                }
            },
            _ => DialogAction::Nothing,
        }
    }
}

} // verus!
