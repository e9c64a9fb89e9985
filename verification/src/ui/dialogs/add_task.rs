//! The dialog that creates or edits a task: title, description, due date,
//! priority and tags, with a calendar for picking the due date.
use vstd::prelude::*;
use crate::keys::{KeyCode, KeyEvent};
use crate::models::priority::Priority;
use crate::models::task::{Task, TaskStatus};
use crate::storage::tags::Tag;
use crate::text::{chars_of_string, string_from, string_of, trim, trimmed, views_of};
use crate::ui::date_picker::{utc_day, DatePicker, DatePickerAction, picker_after_key};
use crate::ui::description_textarea::{DescriptionTextArea, TextAreaAction, key_action, key_edit};
use crate::ui::dialogs::DialogAction;
use crate::ui::dialogs::due_date::{due_instant, parse_due_date_at};
use crate::ui::input::{InputEdit, TextInput, input_edit_post};
use crate::ui::tag_input::TagInput;
use crate::utils::datetime::{Clock, format_day, formatted_day, local_day, local_day_of, now};
use crate::utils::ids::{generate_id, uuid_v7_shaped};

verus! {

/// Fields of the dialog, in focus order.
#[derive(Debug, Clone, Copy, PartialEq, Eq, Structural)]
pub enum AddTaskField {
    Title,
    Description,
    DueDate,
    Priority,
    Tags,
    Submit,
}

impl Default for AddTaskField {
    fn default() -> (r: Self)
        ensures
            r == AddTaskField::Title,
    {
        AddTaskField::Title
    }
}

impl AddTaskField {
    /// The next field (see [`AddTaskField::next`]).
    pub open spec fn next_spec(self) -> AddTaskField {
        match self {
            AddTaskField::Title => AddTaskField::Description,
            AddTaskField::Description => AddTaskField::DueDate,
            AddTaskField::DueDate => AddTaskField::Priority,
            AddTaskField::Priority => AddTaskField::Tags,
            AddTaskField::Tags => AddTaskField::Submit,
            AddTaskField::Submit => AddTaskField::Title,
        }
    }

    /// The previous field (see [`AddTaskField::prev`]).
    pub open spec fn prev_spec(self) -> AddTaskField {
        match self {
            AddTaskField::Title => AddTaskField::Submit,
            AddTaskField::Description => AddTaskField::Title,
            AddTaskField::DueDate => AddTaskField::Description,
            AddTaskField::Priority => AddTaskField::DueDate,
            AddTaskField::Tags => AddTaskField::Priority,
            AddTaskField::Submit => AddTaskField::Tags,
        }
    }

    /// The next field, wrapping from the last to the first.
    pub fn next(self) -> (r: Self)
        ensures
            r == self.next_spec(),
    {
        match self {
            AddTaskField::Title => AddTaskField::Description,
            AddTaskField::Description => AddTaskField::DueDate,
            AddTaskField::DueDate => AddTaskField::Priority,
            AddTaskField::Priority => AddTaskField::Tags,
            AddTaskField::Tags => AddTaskField::Submit,
            AddTaskField::Submit => AddTaskField::Title,
        }
    }

    /// The previous field, wrapping from the first to the last.
    pub fn prev(self) -> (r: Self)
        ensures
            r == self.prev_spec(),
    {
        match self {
            AddTaskField::Title => AddTaskField::Submit,
            AddTaskField::Description => AddTaskField::Title,
            AddTaskField::DueDate => AddTaskField::Description,
            AddTaskField::Priority => AddTaskField::DueDate,
            AddTaskField::Tags => AddTaskField::Priority,
            AddTaskField::Submit => AddTaskField::Tags,
        }
    }
}

/// Moving to the next field and back, or back and then on, returns to the
/// same field.
pub proof fn law_add_task_field_next_prev(f: AddTaskField)
    ensures
        f.next_spec().prev_spec() == f,
        f.prev_spec().next_spec() == f,
{
}

/// The edit a key makes to the title: Alt with `b`, `f` or the side arrows
/// moves by words, Alt+Backspace deletes a word.
pub open spec fn title_edit(key: KeyEvent) -> InputEdit {
    let alt = key.modifiers.alt;
    match key.code {
        KeyCode::Char(c) => if c == 'b' && alt {
            InputEdit::WordLeft
        } else if c == 'f' && alt {
            InputEdit::WordRight
        } else {
            InputEdit::Insert(c)
        },
        KeyCode::Backspace => if alt {
            InputEdit::DeleteWordBackward
        } else {
            InputEdit::DeleteBackward
        },
        KeyCode::Delete => InputEdit::DeleteForward,
        KeyCode::Left => if alt {
            InputEdit::WordLeft
        } else {
            InputEdit::Left
        },
        KeyCode::Right => if alt {
            InputEdit::WordRight
        } else {
            InputEdit::Right
        },
        KeyCode::Home => InputEdit::Home,
        KeyCode::End => InputEdit::End,
        _ => InputEdit::Keep,
    }
}

/// The edit a key makes to the due-date text (`c` opens the calendar instead).
pub open spec fn due_edit(code: KeyCode) -> InputEdit {
    match code {
        KeyCode::Char(c) => InputEdit::Insert(c),
        KeyCode::Backspace => InputEdit::DeleteBackward,
        KeyCode::Delete => InputEdit::DeleteForward,
        KeyCode::Left => InputEdit::Left,
        KeyCode::Right => InputEdit::Right,
        KeyCode::Home => InputEdit::Home,
        KeyCode::End => InputEdit::End,
        _ => InputEdit::Keep,
    }
}

/// The priority after a key on the priority field: the side arrows and
/// `h`/`l` cycle, the digits 1 to 4 pick Low to Urgent.
pub open spec fn priority_after_key(p: Priority, code: KeyCode) -> Priority {
    match code {
        KeyCode::Left | KeyCode::Char('h') => match p {
            Priority::Low => Priority::Urgent,
            Priority::Medium => Priority::Low,
            Priority::High => Priority::Medium,
            Priority::Urgent => Priority::High,
        },
        KeyCode::Right | KeyCode::Char('l') => match p {
            Priority::Low => Priority::Medium,
            Priority::Medium => Priority::High,
            Priority::High => Priority::Urgent,
            Priority::Urgent => Priority::Low,
        },
        KeyCode::Char('1') => Priority::Low,
        KeyCode::Char('2') => Priority::Medium,
        KeyCode::Char('3') => Priority::High,
        KeyCode::Char('4') => Priority::Urgent,
        _ => p,
    }
}

/// Cycling the priority right four times comes back to it.
pub proof fn law_priority_cycle(p: Priority)
    ensures
        priority_after_key(
            priority_after_key(
                priority_after_key(priority_after_key(p, KeyCode::Right), KeyCode::Right),
                KeyCode::Right,
            ),
            KeyCode::Right,
        ) == p,
        priority_after_key(priority_after_key(p, KeyCode::Right), KeyCode::Left) == p,
{
}

fn title_edit_of(key: KeyEvent) -> (r: InputEdit)
    ensures
        r == title_edit(key),
{
    let alt = key.modifiers.alt;
    match key.code {
        KeyCode::Char(c) => if c == 'b' && alt {
            InputEdit::WordLeft
        } else if c == 'f' && alt {
            InputEdit::WordRight
        } else {
            InputEdit::Insert(c)
        },
        KeyCode::Backspace => if alt {
            InputEdit::DeleteWordBackward
        } else {
            InputEdit::DeleteBackward
        },
        KeyCode::Delete => InputEdit::DeleteForward,
        KeyCode::Left => if alt {
            InputEdit::WordLeft
        } else {
            InputEdit::Left
        },
        KeyCode::Right => if alt {
            InputEdit::WordRight
        } else {
            InputEdit::Right
        },
        KeyCode::Home => InputEdit::Home,
        KeyCode::End => InputEdit::End,
        _ => InputEdit::Keep,
    }
}

fn due_edit_of(code: KeyCode) -> (r: InputEdit)
    ensures
        r == due_edit(code),
{
    match code {
        KeyCode::Char(c) => InputEdit::Insert(c),
        KeyCode::Backspace => InputEdit::DeleteBackward,
        KeyCode::Delete => InputEdit::DeleteForward,
        KeyCode::Left => InputEdit::Left,
        KeyCode::Right => InputEdit::Right,
        KeyCode::Home => InputEdit::Home,
        KeyCode::End => InputEdit::End,
        _ => InputEdit::Keep,
    }
}

fn priority_after_key_of(p: Priority, code: KeyCode) -> (r: Priority)
    ensures
        r == priority_after_key(p, code),
{
    match code {
        KeyCode::Left | KeyCode::Char('h') => match p {
            Priority::Low => Priority::Urgent,
            Priority::Medium => Priority::Low,
            Priority::High => Priority::Medium,
            Priority::Urgent => Priority::High,
        },
        KeyCode::Right | KeyCode::Char('l') => match p {
            Priority::Low => Priority::Medium,
            Priority::Medium => Priority::High,
            Priority::High => Priority::Urgent,
            Priority::Urgent => Priority::Low,
        },
        KeyCode::Char('1') => Priority::Low,
        KeyCode::Char('2') => Priority::Medium,
        KeyCode::Char('3') => Priority::High,
        KeyCode::Char('4') => Priority::Urgent,
        _ => p,
    }
}

/// The dialog's state.
#[derive(Debug, Clone)]
pub struct AddTaskDialog {
    /// Task title input
    pub title: TextInput,
    /// Task description (multi-line)
    pub description: DescriptionTextArea,
    /// Due date input (free text)
    pub due_date: TextInput,
    /// Selected priority
    pub priority: Priority,
    /// Project to assign the task to
    pub project_id: Option<String>,
    /// Tag input
    pub tags: TagInput,
    /// Existing tags, for suggestions
    pub all_tags: Vec<Tag>,
    /// Which field has the focus
    pub focused_field: AddTaskField,
    /// The task being edited, if any
    pub editing_task_id: Option<String>,
    /// Title shown on the dialog
    pub dialog_title: String,
    /// The open calendar, if any
    pub date_picker: Option<DatePicker>,
    /// Message shown in the dialog
    pub status_message: Option<String>,
    /// A link the user asked to open, waiting for the application
    pub pending_link: Option<String>,
}

/// `d` is the description made of editor text `text`: the trimmed text,
/// or none when that is blank.
pub open spec fn describes_text(d: Option<String>, text: Seq<char>) -> bool {
    if trim(text).len() == 0 {
        d is None
    } else {
        d matches Some(x) && x@ == trim(text)
    }
}

impl AddTaskDialog {
    /// The fields are well formed.
    pub open spec fn wf(&self) -> bool {
        &&& self.title.wf()
        &&& self.description.wf()
        &&& self.due_date.wf()
        &&& self.tags.wf()
    }

    /// Lengths stay below the machine's limit, so that one more character fits.
    pub open spec fn has_room(&self) -> bool {
        &&& self.title.value@.len() < usize::MAX
        &&& self.due_date.value@.len() < usize::MAX
        &&& self.tags.input.value@.len() < usize::MAX
        &&& self.description.cur_line().len() < usize::MAX
        &&& self.description.lines@.len() < usize::MAX
    }

    /// The state of a dialog opened for a new task (whatever tags and
    /// project it starts with).
    pub open spec fn is_blank(&self) -> bool {
        &&& self.wf()
        &&& self.title.value@.len() == 0
        &&& self.title.placeholder matches Some(p) && p@ == "Task title..."@
        &&& self.description.text_lines() == seq![Seq::<char>::empty()]
        &&& self.due_date.value@.len() == 0
        &&& self.priority == Priority::Medium
        &&& self.tags.tag_view().len() == 0
        &&& self.focused_field == AddTaskField::Title
        &&& self.editing_task_id is None
        &&& self.dialog_title@ == "Add Task"@
        &&& self.date_picker is None
        &&& self.status_message is None
        &&& self.pending_link is None
    }

    /// The state of a dialog opened to edit `task` (whatever tags it offers).
    pub open spec fn edits(&self, task: Task) -> bool {
        &&& self.wf()
        &&& self.title.value@ == task.title@
        &&& self.description.text_lines() == crate::ui::description_textarea::lines_of(
            match task.description {
                Some(d) => d@,
                None => Seq::empty(),
            },
        )
        &&& self.due_date.value@ == match task.due_date {
            Some(d) => crate::utils::datetime::day_text(utc_day(d as int), "%Y-%m-%d"@),
            None => Seq::empty(),
        }
        &&& self.priority == task.priority
        &&& self.project_id == task.project_id
        &&& self.tags.tags@ == task.tags@
        &&& self.focused_field == AddTaskField::Title
        &&& self.editing_task_id == Some(task.id)
        &&& self.dialog_title@ == "Edit Task"@
        &&& self.date_picker is None
        &&& self.status_message is None
        &&& self.pending_link is None
    }

    /// A dialog for a new task.
    pub fn new() -> (r: Self)
        ensures
            r.is_blank(),
            r.wf(),
            r.title.value@.len() == 0,
            r.title.placeholder matches Some(p) && p@ == "Task title..."@,
            r.description.text_lines() == seq![Seq::<char>::empty()],
            r.due_date.value@.len() == 0,
            r.priority == Priority::Medium,
            r.project_id is None,
            r.tags.tag_view().len() == 0,
            r.all_tags@.len() == 0,
            r.focused_field == AddTaskField::Title,
            r.editing_task_id is None,
            r.dialog_title@ == "Add Task"@,
            r.date_picker is None,
            r.status_message is None,
            r.pending_link is None,
    {
        AddTaskDialog {
            title: TextInput::new().with_placeholder("Task title..."),
            description: DescriptionTextArea::new(),
            due_date: TextInput::new().with_placeholder("today, +1d, mon, c=calendar"),
            priority: Priority::Medium,
            project_id: None,
            tags: TagInput::new(),
            all_tags: Vec::new(),
            focused_field: AddTaskField::Title,
            editing_task_id: None,
            dialog_title: string_from("Add Task"),
            date_picker: None,
            status_message: None,
            pending_link: None,
        }
    }

    /// A dialog that edits `task`; its due date is shown as `YYYY-MM-DD`
    /// (the day in UTC).
    pub fn from_task(task: &Task) -> (r: Self)
        ensures
            r.edits(*task),
            r.wf(),
            r.title.value@ == task.title@,
            r.description.text_lines() == crate::ui::description_textarea::lines_of(
                match task.description {
                    Some(d) => d@,
                    None => Seq::empty(),
                },
            ),
            r.due_date.value@ == match task.due_date {
                Some(d) => crate::utils::datetime::day_text(utc_day(d as int), "%Y-%m-%d"@),
                None => Seq::empty(),
            },
            r.priority == task.priority,
            r.project_id == task.project_id,
            r.tags.tags@ == task.tags@,
            r.focused_field == AddTaskField::Title,
            r.editing_task_id == Some(task.id),
            r.dialog_title@ == "Edit Task"@,
            r.date_picker is None,
            r.status_message is None,
            r.pending_link is None,
    {
        let due_text = match task.due_date {
            Some(d) => match format_day(local_day_of(d, 0), "%Y-%m-%d") {
                Some(t) => t,
                None => String::new(),
            },
            None => String::new(),
        };
        let desc = match &task.description {
            Some(d) => d.clone(),
            None => String::new(),
        };
        AddTaskDialog {
            title: TextInput::with_value(task.title.as_str()),
            description: DescriptionTextArea::with_text(desc.as_str()),
            due_date: TextInput::with_value(due_text.as_str()),
            priority: task.priority,
            project_id: task.project_id.clone(),
            tags: TagInput::with_tags(crate::models::task::copy_strings(&task.tags)),
            all_tags: Vec::new(),
            focused_field: AddTaskField::Title,
            editing_task_id: Some(task.id.clone()),
            dialog_title: string_from("Edit Task"),
            date_picker: None,
            status_message: None,
            pending_link: None,
        }
    }

    /// Sets the existing tags offered as suggestions.
    pub fn with_available_tags(self, tags: Vec<Tag>) -> (r: Self)
        ensures
            r.all_tags@ == tags@,
            r.title == self.title,
            r.description == self.description,
            r.due_date == self.due_date,
            r.priority == self.priority,
            r.project_id == self.project_id,
            r.tags == self.tags,
            r.focused_field == self.focused_field,
            r.editing_task_id == self.editing_task_id,
            r.dialog_title == self.dialog_title,
            r.date_picker == self.date_picker,
            r.status_message == self.status_message,
            r.pending_link == self.pending_link,
    {
        AddTaskDialog { all_tags: tags, ..self }
    }

    /// Whether the dialog edits an existing task.
    pub fn is_editing(&self) -> (r: bool)
        ensures
            r == self.editing_task_id is Some,
    {
        self.editing_task_id.is_some()
    }

    /// Records the outcome of opening the pending link.
    pub fn report_link(&mut self, url: &str, opened: bool)
        ensures
            final(self).status_message matches Some(m) && m@ == if opened {
                "Opened: "@ + url@
            } else {
                "Failed to open link"@
            },
            final(self).pending_link is None,
            final(self).title == old(self).title,
            final(self).description == old(self).description,
            final(self).due_date == old(self).due_date,
            final(self).priority == old(self).priority,
            final(self).tags == old(self).tags,
            final(self).focused_field == old(self).focused_field,
            final(self).date_picker == old(self).date_picker,
    {
        self.pending_link = None;
        self.status_message = Some(
            if opened {
                crate::text::concat("Opened: ", url)
            } else {
                string_from("Failed to open link")
            },
        );
    }
}

/// The dialog after a key, and its answer. An open calendar takes every
/// key: picking a date writes it as `YYYY-MM-DD` into the due-date field.
/// Otherwise Esc cancels; Enter on the submit button, or with Control,
/// submits; Tab and Shift+Tab move the focus (Tab takes a tag suggestion
/// when one is selected); other keys go to the focused field, where `c` on
/// the due date opens the calendar on the typed date (or today).
pub open spec fn add_task_after_key(
    old: AddTaskDialog,
    new: AddTaskDialog,
    key: KeyEvent,
    clock: Clock,
    r: DialogAction,
) -> bool {
    match old.date_picker {
        Some(p) => {
            let (np, a) = picker_after_key(p, key, clock);
            &&& r == DialogAction::Nothing
            &&& match a {
                DatePickerAction::Select => {
                    &&& new == (AddTaskDialog { date_picker: None, due_date: new.due_date, ..old })
                    &&& if crate::utils::datetime::civil_date(np.selected as int) is Some {
                        &&& new.due_date.value@ == formatted_day(np.selected as int, "%Y-%m-%d"@)
                        &&& new.due_date.cursor == new.due_date.value@.len()
                        &&& new.due_date.placeholder == old.due_date.placeholder
                    } else {
                        new.due_date == old.due_date
                    }
                },
                DatePickerAction::Cancel => new == (AddTaskDialog { date_picker: None, ..old }),
                DatePickerAction::Nothing => new == (AddTaskDialog { date_picker: Some(np), ..old }),
            }
        },
        None => if key.code == KeyCode::Esc {
            r == DialogAction::Cancel && new == old
        } else if key.code == KeyCode::Enter && (old.focused_field == AddTaskField::Submit
            || key.modifiers.control) {
            r == DialogAction::Submit && new == old
        } else if key.code == KeyCode::Tab {
            &&& r == DialogAction::Nothing
            &&& if old.focused_field == AddTaskField::Tags && old.tags.selected_view() is Some {
                new == (AddTaskDialog { tags: new.tags, ..old }) && crate::ui::tag_input::tag_key_post(
                    old.tags,
                    new.tags,
                    key,
                    old.all_tags@,
                    true,
                )
            } else {
                new == (AddTaskDialog { focused_field: old.focused_field.next_spec(), ..old })
            }
        } else if key.code == KeyCode::BackTab {
            r == DialogAction::Nothing && new == (AddTaskDialog {
                focused_field: old.focused_field.prev_spec(),
                ..old
            })
        } else {
            &&& r == DialogAction::Nothing
            &&& match old.focused_field {
                AddTaskField::Title => new == (AddTaskDialog { title: new.title, ..old })
                    && input_edit_post(old.title, new.title, title_edit(key)),
                AddTaskField::Description => {
                    let a = key_action(key, old.description.link_under_cursor());
                    &&& DescriptionTextArea::edit_post(old.description, new.description, key_edit(key))
                    &&& new == (AddTaskDialog {
                        description: new.description,
                        focused_field: match a {
                            TextAreaAction::NextField => old.focused_field.next_spec(),
                            TextAreaAction::PrevField => old.focused_field.prev_spec(),
                            _ => old.focused_field,
                        },
                        pending_link: match a {
                            TextAreaAction::OpenLink(u) => Some(u),
                            _ => old.pending_link,
                        },
                        ..old
                    })
                },
                AddTaskField::DueDate => if key.code == KeyCode::Char('c') {
                    let d = match due_instant(trim(old.due_date.value@), clock) {
                        Some(t) => utc_day(t),
                        None => utc_day(clock.now as int),
                    };
                    new == (AddTaskDialog {
                        date_picker: Some(DatePicker { selected: d as i64, view_month: d as i64 }),
                        ..old
                    })
                } else {
                    new == (AddTaskDialog { due_date: new.due_date, ..old }) && input_edit_post(
                        old.due_date,
                        new.due_date,
                        due_edit(key.code),
                    )
                },
                AddTaskField::Priority => new == (AddTaskDialog {
                    priority: priority_after_key(old.priority, key.code),
                    ..old
                }),
                AddTaskField::Tags => new == (AddTaskDialog { tags: new.tags, ..old })
                    && exists|used: bool|
                    crate::ui::tag_input::tag_key_post(old.tags, new.tags, key, old.all_tags@, used),
                AddTaskField::Submit => new == old,
            }
        },
    }
}

impl AddTaskDialog {
    /// Handles a key at the time of `clock` (see [`add_task_after_key`]).
    pub fn handle_key_at(&mut self, key: KeyEvent, clock: Clock) -> (r: DialogAction)
        requires
            old(self).wf(),
            old(self).has_room(),
            clock.wf(),
        ensures
            final(self).wf(),
            add_task_after_key(*old(self), *final(self), key, clock, r),
    {
        match self.date_picker {
            Some(mut picker) => {
                let a = picker.handle_key_at(key, clock);
                match a {
                    DatePickerAction::Select => {
                        match format_day(picker.selected, "%Y-%m-%d") {
                            Some(text) => self.due_date.set_value(text.as_str()),
                            None => {},
                        }
                        self.date_picker = None;
                    },
                    DatePickerAction::Cancel => {
                        self.date_picker = None;
                    },
                    DatePickerAction::Nothing => {
                        self.date_picker = Some(picker);
                    },
                }
                return DialogAction::Nothing;
            },
            None => {},
        }
        match key.code {
            KeyCode::Esc => DialogAction::Cancel,
            KeyCode::Enter if self.focused_field == AddTaskField::Submit || key.modifiers.control => {
                DialogAction::Submit
            },
            KeyCode::Tab => {
                if self.focused_field == AddTaskField::Tags && self.tags.selected_suggestion().is_some() {
                    self.tags.handle_key(key, self.all_tags.as_slice());
                } else {
                    self.focused_field = self.focused_field.next();
                }
                DialogAction::Nothing
            },
            KeyCode::BackTab => {
                self.focused_field = self.focused_field.prev();
                DialogAction::Nothing
            },
            _ => {
                match self.focused_field {
                    AddTaskField::Title => {
                        self.title.apply_edit(title_edit_of(key));
                    },
                    AddTaskField::Description => {
                        match self.description.handle_key(key) {
                            TextAreaAction::Nothing => {},
                            TextAreaAction::OpenLink(url) => {
                                self.pending_link = Some(url);
                            },
                            TextAreaAction::NextField => {
                                self.focused_field = self.focused_field.next();
                            },
                            TextAreaAction::PrevField => {
                                self.focused_field = self.focused_field.prev();
                            },
                        }
                    },
                    AddTaskField::DueDate => {
                        if key.code == KeyCode::Char('c') {
                            let typed = trimmed(&self.due_date.value);
                            let text = string_of(&typed);
                            let d = match parse_due_date_at(text.as_str(), clock) {
                                Some(t) => local_day_of(t, 0),
                                None => local_day_of(clock.now, 0),
                            };
                            self.date_picker = Some(DatePicker::with_date(d));
                        } else {
                            self.due_date.apply_edit(due_edit_of(key.code));
                        }
                    },
                    AddTaskField::Priority => {
                        self.priority = priority_after_key_of(self.priority, key.code);
                    },
                    AddTaskField::Tags => {
                        self.tags.handle_key(key, self.all_tags.as_slice());
                    },
                    AddTaskField::Submit => {},
                }
                DialogAction::Nothing
            },
        }
    }

    /// Handles a key, reading the clock (see [`add_task_after_key`]).
    pub fn handle_key(&mut self, key: KeyEvent) -> (r: DialogAction)
        requires
            old(self).wf(),
            old(self).has_room(),
        ensures
            final(self).wf(),
            exists|c: Clock| c.wf() && add_task_after_key(*old(self), *final(self), key, c, r),
    {
        self.handle_key_at(key, Clock::read())
    }

    /// `t` is the task the dialog describes, with identifier `id` for a new
    /// task and creation instant `at`, due dates read at the time of `clock`.
    pub open spec fn describes(&self, t: Task, id: String, at: int, clock: Clock) -> bool {
        &&& t.title@ == trim(self.title.value@)
        &&& t.id == match self.editing_task_id {
            Some(e) => e,
            None => id,
        }
        &&& describes_text(t.description, self.description.text_view())
        &&& t.due_date == match due_instant(trim(self.due_date.value@), clock) {
            Some(x) => Some(x as i64),
            None => None,
        }
        &&& t.priority == self.priority
        &&& t.status == TaskStatus::Pending
        &&& t.project_id == self.project_id
        &&& t.tags@ == self.tags.tags@
        &&& t.created_at == at
        &&& t.updated_at == at
        &&& t.completed_at is None
    }

    /// Whether every text of the dialog has room for one more character
    /// (executable [`AddTaskDialog::has_room`]).
    pub fn room(&self) -> (r: bool)
        requires
            self.wf(),
        ensures
            r == self.has_room(),
    {
        self.title.value.len() < usize::MAX && self.due_date.value.len() < usize::MAX
            && self.tags.input.value.len() < usize::MAX
            && self.description.lines[self.description.cursor_row].len() < usize::MAX
            && self.description.lines.len() < usize::MAX
    }

    /// The task the dialog describes, with identifier `id` (for a new
    /// task) and creation instant `at`, its due date read at the time of
    /// `clock`; `None` while the trimmed title is empty. An edited task
    /// keeps its identifier; the description is trimmed and dropped when empty.
    pub fn to_task_at(&self, id: String, at: i64, clock: Clock) -> (r: Option<Task>)
        requires
            self.wf(),
            clock.wf(),
        ensures
            trim(self.title.value@).len() == 0 <==> r is None,
            r matches Some(t) ==> self.describes(t, id, at as int, clock),
            r matches Some(t) ==> {
                &&& t.title@ == trim(self.title.value@)
                &&& t.id == match self.editing_task_id {
                    Some(e) => e,
                    None => id,
                }
                &&& describes_text(t.description, self.description.text_view())
                &&& t.due_date == match due_instant(trim(self.due_date.value@), clock) {
                    Some(x) => Some(x as i64),
                    None => None,
                }
                &&& t.priority == self.priority
                &&& t.status == TaskStatus::Pending
                &&& t.project_id == self.project_id
                &&& t.tags@ == self.tags.tags@
                &&& t.created_at == at
                &&& t.updated_at == at
                &&& t.completed_at is None
            },
    {
        let title = trimmed(&self.title.value);
        if title.len() == 0 {
            return None;
        }
        let title_s = string_of(&title);
        let task_id = match &self.editing_task_id {
            Some(e) => e.clone(),
            None => id,
        };
        let mut task = Task::new_at(title_s.as_str(), task_id, at);
        let text = self.description.text();
        let text_chars = chars_of_string(&text);
        let desc = trimmed(&text_chars);
        task.description = if desc.len() == 0 {
            None
        } else {
            Some(string_of(&desc))
        };
        let due_typed = trimmed(&self.due_date.value);
        let due_s = string_of(&due_typed);
        task.due_date = parse_due_date_at(due_s.as_str(), clock);
        task.priority = self.priority;
        task.project_id = self.project_id.clone();
        task.tags = self.tags.tags_vec();
        Some(task)
    }

    /// The task the dialog describes: a new one gets a fresh identifier;
    /// the creation instant and due dates use the current time.
    pub fn to_task(&self) -> (r: Option<Task>)
        requires
            self.wf(),
        ensures
            trim(self.title.value@).len() == 0 <==> r is None,
            r matches Some(t) ==> {
                &&& t.title@ == trim(self.title.value@)
                &&& match self.editing_task_id {
                    Some(e) => t.id == e,
                    None => uuid_v7_shaped(t.id@),
                }
                &&& t.priority == self.priority
                &&& t.status == TaskStatus::Pending
                &&& t.project_id == self.project_id
                &&& t.tags@ == self.tags.tags@
                &&& describes_text(t.description, self.description.text_view())
                &&& t.created_at == t.updated_at
                &&& t.completed_at is None
                &&& exists|c: Clock|
                    c.wf() && t.due_date == match due_instant(trim(self.due_date.value@), c) {
                        Some(x) => Some(x as i64),
                        None => None,
                    }
            },
    {
        let id = generate_id();
        let at = now();
        self.to_task_at(id, at, Clock::read())
    }
}

impl Default for AddTaskDialog {
    fn default() -> (r: Self)
        ensures
            r.wf(),
            r.title.value@.len() == 0,
            r.editing_task_id is None,
    {
        AddTaskDialog::new()
    }
}

} // verus!
