//! The dialog that creates or edits a project: its name, color and icon.
use vstd::prelude::*;
use crate::keys::{KeyCode, KeyEvent};
use crate::models::project::Project;
use crate::text::{chars_of_string, string_from, string_of, trim, trimmed};
use crate::ui::dialogs::DialogAction;
use crate::ui::input::TextInput;
use crate::utils::datetime::now;
use crate::utils::ids::{generate_id, uuid_v7_shaped};

verus! {

/// Fields of the dialog, in focus order.
#[derive(Debug, Clone, Copy, PartialEq, Eq, Structural)]
pub enum ProjectField {
    Name,
    Color,
    Icon,
    Submit,
}

impl Default for ProjectField {
    fn default() -> (r: Self)
        ensures
            r == ProjectField::Name,
    {
        ProjectField::Name
    }
}

impl ProjectField {
    /// The next field, wrapping from the last to the first.
    pub fn next(self) -> (r: Self)
        ensures
            r == self.next_spec(),
    {
        match self {
            ProjectField::Name => ProjectField::Color,
            ProjectField::Color => ProjectField::Icon,
            ProjectField::Icon => ProjectField::Submit,
            ProjectField::Submit => ProjectField::Name,
        }
    }

    /// The previous field, wrapping from the first to the last.
    pub fn prev(self) -> (r: Self)
        ensures
            r == self.prev_spec(),
    {
        match self {
            ProjectField::Name => ProjectField::Submit,
            ProjectField::Color => ProjectField::Name,
            ProjectField::Icon => ProjectField::Color,
            ProjectField::Submit => ProjectField::Icon,
        }
    }
}

/// Moving to the next field and back, or back and then on, returns to the
/// same field; four moves on come back to the start.
pub proof fn law_project_field_next_prev(f: ProjectField)
    ensures
        f.next_spec().prev_spec() == f,
        f.prev_spec().next_spec() == f,
        f.next_spec().next_spec().next_spec().next_spec() == f,
{
}

/// Number of colors offered.
pub const COLOR_COUNT: usize = 8;

/// Number of icons offered.
pub const ICON_COUNT: usize = 8;

/// The color offered at position `i`.
pub open spec fn color_choice(i: int) -> Seq<char> {
    if i == 0 {
        "#3498db"@
    } else if i == 1 {
        "#e74c3c"@
    } else if i == 2 {
        "#2ecc71"@
    } else if i == 3 {
        "#f39c12"@
    } else if i == 4 {
        "#9b59b6"@
    } else if i == 5 {
        "#1abc9c"@
    } else if i == 6 {
        "#e91e63"@
    } else {
        "#607d8b"@
    }
}

/// The icon offered at position `i`.
pub open spec fn icon_choice(i: int) -> Seq<char> {
    if i == 0 {
        "📁"@
    } else if i == 1 {
        "📋"@
    } else if i == 2 {
        "🏠"@
    } else if i == 3 {
        "💼"@
    } else if i == 4 {
        "📚"@
    } else if i == 5 {
        "🎯"@
    } else if i == 6 {
        "💡"@
    } else {
        "⭐"@
    }
}

/// The color offered at position `i` and its name.
pub fn color_option(i: usize) -> (r: (&'static str, &'static str))
    ensures
        r.0@ == color_choice(i as int),
{
    if i == 0 {
        ("#3498db", "Blue")
    } else if i == 1 {
        ("#e74c3c", "Red")
    } else if i == 2 {
        ("#2ecc71", "Green")
    } else if i == 3 {
        ("#f39c12", "Orange")
    } else if i == 4 {
        ("#9b59b6", "Purple")
    } else if i == 5 {
        ("#1abc9c", "Teal")
    } else if i == 6 {
        ("#e91e63", "Pink")
    } else {
        ("#607d8b", "Gray")
    }
}

/// The icon offered at position `i`.
pub fn icon_option(i: usize) -> (r: &'static str)
    ensures
        r@ == icon_choice(i as int),
{
    if i == 0 {
        "📁"
    } else if i == 1 {
        "📋"
    } else if i == 2 {
        "🏠"
    } else if i == 3 {
        "💼"
    } else if i == 4 {
        "📚"
    } else if i == 5 {
        "🎯"
    } else if i == 6 {
        "💡"
    } else {
        "⭐"
    }
}

/// The first position among `n` choices whose text is `s`, or 0.
pub open spec fn position_in(choice: spec_fn(int) -> Seq<char>, n: int, s: Seq<char>) -> int {
    if exists|i: int| 0 <= i < n && #[trigger] choice(i) == s {
        choose|i: int|
            0 <= i < n && #[trigger] choice(i) == s && forall|j: int| 0 <= j < i ==> #[trigger] choice(j) != s
    } else {
        0
    }
}

/// The position of color `s` among those offered, or 0.
fn find_color(s: &String) -> (r: usize)
    ensures
        r == position_in(|i: int| color_choice(i), COLOR_COUNT as int, s@),
        r < COLOR_COUNT,
{
    let mut i: usize = 0;
    while i < COLOR_COUNT
        invariant
            i <= COLOR_COUNT,
            forall|j: int| 0 <= j < i ==> #[trigger] color_choice(j) != s@,
        decreases COLOR_COUNT - i,
    {
        let c = string_from(color_option(i).0);
        if c == *s {
            proof {
                let f = |k: int| color_choice(k);
                assert(f(i as int) == s@);
                let p = position_in(f, COLOR_COUNT as int, s@);
                assert(forall|j: int| 0 <= j < i ==> #[trigger] f(j) != s@);
                if p < i {
                    assert(f(p) == s@);
                } else if p > i {
                    assert(f(i as int) != s@);
                }
            }
            return i;
        }
        i = i + 1;
    }
    proof {
        let f = |k: int| color_choice(k);
        assert(forall|j: int| 0 <= j < COLOR_COUNT ==> #[trigger] f(j) != s@);
    }
    0
}

/// The position of icon `s` among those offered, or 0.
fn find_icon(s: &String) -> (r: usize)
    ensures
        r == position_in(|i: int| icon_choice(i), ICON_COUNT as int, s@),
        r < ICON_COUNT,
{
    let mut i: usize = 0;
    while i < ICON_COUNT
        invariant
            i <= ICON_COUNT,
            forall|j: int| 0 <= j < i ==> #[trigger] icon_choice(j) != s@,
        decreases ICON_COUNT - i,
    {
        let c = string_from(icon_option(i));
        if c == *s {
            proof {
                let f = |k: int| icon_choice(k);
                assert(f(i as int) == s@);
                let p = position_in(f, ICON_COUNT as int, s@);
                assert(forall|j: int| 0 <= j < i ==> #[trigger] f(j) != s@);
                if p < i {
                    assert(f(p) == s@);
                } else if p > i {
                    assert(f(i as int) != s@);
                }
            }
            return i;
        }
        i = i + 1;
    }
    proof {
        let f = |k: int| icon_choice(k);
        assert(forall|j: int| 0 <= j < ICON_COUNT ==> #[trigger] f(j) != s@);
    }
    0
}

/// A position among `n` choices after a key: Left and `h` move back (the
/// first wraps to the last), Right and `l` move on (the last wraps to the
/// first), a digit from 1 to `n` picks that choice.
pub open spec fn choice_after_key(i: int, code: KeyCode, n: int) -> int {
    match code {
        KeyCode::Left | KeyCode::Char('h') => if i > 0 {
            i - 1
        } else {
            n - 1
        },
        KeyCode::Right | KeyCode::Char('l') => (i + 1) % n,
        KeyCode::Char(c) => if '1' <= c <= '9' && (c as u32) - ('0' as u32) <= n {
            (c as u32) - ('0' as u32) - 1
        } else {
            i
        },
        _ => i,
    }
}

/// Moves a position among `n` choices after a key (see [`choice_after_key`]).
fn move_choice(i: usize, code: KeyCode, n: usize) -> (r: usize)
    requires
        0 < n <= 9,
        i < n,
    ensures
        r == choice_after_key(i as int, code, n as int),
        r < n,
{
    match code {
        KeyCode::Left | KeyCode::Char('h') => if i > 0 {
            i - 1
        } else {
            n - 1
        },
        KeyCode::Right | KeyCode::Char('l') => (i + 1) % n,
        KeyCode::Char(c) => {
            if '1' <= c && c <= '9' {
                let d = (c as u32) - ('0' as u32);
                if d as usize <= n {
                    d as usize - 1
                } else {
                    i
                }
            } else {
                i
            }
        },
        _ => i,
    }
}

/// The dialog's state.
#[derive(Debug, Clone)]
pub struct ProjectDialog {
    /// Project name input
    pub name: TextInput,
    /// Position of the selected color
    pub selected_color: usize,
    /// Position of the selected icon
    pub selected_icon: usize,
    /// Which field has the focus
    pub focused_field: ProjectField,
    /// The project being edited, if any
    pub editing_project_id: Option<String>,
    /// Title shown on the dialog
    pub dialog_title: String,
}

impl ProjectDialog {
    /// The name input is well formed and the selections lie within the lists.
    pub open spec fn wf(&self) -> bool {
        self.name.wf() && self.selected_color < COLOR_COUNT && self.selected_icon < ICON_COUNT
    }

    /// The state of a dialog opened for a new project.
    pub open spec fn is_blank(&self) -> bool {
        &&& self.wf()
        &&& self.name.value@.len() == 0
        &&& self.name.placeholder matches Some(p) && p@ == "Project name..."@
        &&& self.selected_color == 0
        &&& self.selected_icon == 0
        &&& self.focused_field == ProjectField::Name
        &&& self.editing_project_id is None
        &&& self.dialog_title@ == "New Project"@
    }

    /// The state of a dialog opened to edit `project`.
    pub open spec fn edits(&self, project: Project) -> bool {
        &&& self.wf()
        &&& self.name.value@ == project.name@
        &&& self.selected_color == position_in(|i: int| color_choice(i), COLOR_COUNT as int, project.color@)
        &&& self.selected_icon == position_in(|i: int| icon_choice(i), ICON_COUNT as int, project.icon@)
        &&& self.focused_field == ProjectField::Name
        &&& self.editing_project_id == Some(project.id)
        &&& self.dialog_title@ == "Edit Project"@
    }

    /// A dialog for a new project.
    pub fn new() -> (r: Self)
        ensures
            r.is_blank(),
            r.wf(),
            r.name.value@.len() == 0,
            r.name.placeholder matches Some(p) && p@ == "Project name..."@,
            r.selected_color == 0,
            r.selected_icon == 0,
            r.focused_field == ProjectField::Name,
            r.editing_project_id is None,
            r.dialog_title@ == "New Project"@,
    {
        ProjectDialog {
            name: TextInput::new().with_placeholder("Project name..."),
            selected_color: 0,
            selected_icon: 0,
            focused_field: ProjectField::Name,
            editing_project_id: None,
            dialog_title: string_from("New Project"),
        }
    }

    /// A dialog that edits `project`.
    pub fn from_project(project: &Project) -> (r: Self)
        ensures
            r.edits(*project),
            r.wf(),
            r.name.value@ == project.name@,
            r.selected_color == position_in(|i: int| color_choice(i), COLOR_COUNT as int, project.color@),
            r.selected_icon == position_in(|i: int| icon_choice(i), ICON_COUNT as int, project.icon@),
            r.focused_field == ProjectField::Name,
            r.editing_project_id == Some(project.id),
            r.dialog_title@ == "Edit Project"@,
    {
        let color_idx = find_color(&project.color);
        let icon_idx = find_icon(&project.icon);
        ProjectDialog {
            name: TextInput::with_value(project.name.as_str()),
            selected_color: color_idx,
            selected_icon: icon_idx,
            focused_field: ProjectField::Name,
            editing_project_id: Some(project.id.clone()),
            dialog_title: string_from("Edit Project"),
        }
    }

    /// Whether the dialog edits an existing project.
    pub fn is_editing(&self) -> (r: bool)
        ensures
            r == self.editing_project_id is Some,
    {
        self.editing_project_id.is_some()
    }

    /// How a key changes the dialog (`pre` to `post`) and what it answers.
    pub open spec fn key_step(pre: ProjectDialog, post: ProjectDialog, key: KeyEvent, r: DialogAction) -> bool {
        &&& (post.editing_project_id == pre.editing_project_id)
        &&& (post.dialog_title == pre.dialog_title)
        &&& (match key.code {
                KeyCode::Esc => r == DialogAction::Cancel && post == pre,
                KeyCode::Enter if pre.focused_field == ProjectField::Submit
                    || key.modifiers.control => r == DialogAction::Submit && post == pre,
                KeyCode::Tab => r == DialogAction::Nothing && post.focused_field == pre.focused_field.next_spec() && post.name == pre.name
                    && post.selected_color == pre.selected_color
                    && post.selected_icon == pre.selected_icon,
                KeyCode::BackTab => r == DialogAction::Nothing && post.focused_field == pre.focused_field.prev_spec() && post.name == pre.name
                    && post.selected_color == pre.selected_color
                    && post.selected_icon == pre.selected_icon,
                _ => {
                    &&& r == DialogAction::Nothing
                    &&& post.focused_field == pre.focused_field
                    &&& post.selected_color == if pre.focused_field == ProjectField::Color {
                        choice_after_key(pre.selected_color as int, key.code, COLOR_COUNT as int)
                    } else {
                        pre.selected_color as int
                    }
                    &&& post.selected_icon == if pre.focused_field == ProjectField::Icon {
                        choice_after_key(pre.selected_icon as int, key.code, ICON_COUNT as int)
                    } else {
                        pre.selected_icon as int
                    }
                    &&& pre.focused_field != ProjectField::Name ==> post.name == pre.name
                }
            })
    }

    /// Handles a key: Esc cancels; Enter on the submit button, or with
    /// Control anywhere, submits; Tab and Shift-Tab move the focus; other
    /// keys go to the focused field.
    pub fn handle_key(&mut self, key: KeyEvent) -> (r: DialogAction)
        requires
            old(self).wf(),
            old(self).name.value@.len() < usize::MAX,
        ensures
            final(self).wf(),
            Self::key_step(*old(self), *final(self), key, r),
    {
        match key.code {
            KeyCode::Esc => DialogAction::Cancel,
            KeyCode::Enter if self.focused_field == ProjectField::Submit || key.modifiers.control => {
                DialogAction::Submit
            },
            KeyCode::Tab => {
                self.focused_field = self.focused_field.next();
                DialogAction::Nothing
            },
            KeyCode::BackTab => {
                self.focused_field = self.focused_field.prev();
                DialogAction::Nothing
            },
            _ => {
                match self.focused_field {
                    ProjectField::Name => {
                        match key.code {
                            KeyCode::Char(c) => self.name.insert(c),
                            KeyCode::Backspace => self.name.delete_backward(),
                            KeyCode::Delete => self.name.delete_forward(),
                            KeyCode::Left => self.name.move_left(),
                            KeyCode::Right => self.name.move_right(),
                            KeyCode::Home => self.name.move_home(),
                            KeyCode::End => self.name.move_end(),
                            _ => {},
                        }
                    },
                    ProjectField::Color => {
                        self.selected_color = move_choice(self.selected_color, key.code, COLOR_COUNT);
                    },
                    ProjectField::Icon => {
                        self.selected_icon = move_choice(self.selected_icon, key.code, ICON_COUNT);
                    },
                    ProjectField::Submit => {},
                }
                DialogAction::Nothing
            },
        }
    }

    /// `p` is the project the dialog describes, with identifier `id` for a
    /// new project and creation instant `at`.
    pub open spec fn describes(&self, p: Project, id: String, at: int) -> bool {
        &&& p.name@ == trim(self.name.value@)
        &&& p.color@ == color_choice(self.selected_color as int)
        &&& p.icon@ == icon_choice(self.selected_icon as int)
        &&& p.created_at == at
        &&& p.id == match self.editing_project_id {
            Some(e) => e,
            None => id,
        }
    }

    /// The project the dialog describes, with identifier `id` and creation
    /// instant `at` for a new one; `None` while the trimmed name is empty.
    /// An edited project keeps its identifier.
    pub fn to_project_at(&self, id: String, at: i64) -> (r: Option<Project>)
        requires
            self.wf(),
        ensures
            trim(self.name.value@).len() == 0 <==> r is None,
            r matches Some(p) ==> self.describes(p, id, at as int),
            r matches Some(p) ==> {
                &&& p.name@ == trim(self.name.value@)
                &&& p.color@ == color_choice(self.selected_color as int)
                &&& p.icon@ == icon_choice(self.selected_icon as int)
                &&& p.created_at == at
                &&& p.id == match self.editing_project_id {
                    Some(e) => e,
                    None => id,
                }
            },
    {
        let name = trimmed(&self.name.value);
        if name.len() == 0 {
            return None;
        }
        let (color, _) = color_option(self.selected_color);
        let icon = icon_option(self.selected_icon);
        let pid = match &self.editing_project_id {
            Some(e) => e.clone(),
            None => id,
        };
        Some(Project {
            id: pid,
            name: string_of(&name),
            color: string_from(color),
            icon: string_from(icon),
            created_at: at,
        })
    }

    /// The project the dialog describes: a new one gets a fresh identifier
    /// and the current time; `None` while the trimmed name is empty.
    pub fn to_project(&self) -> (r: Option<Project>)
        requires
            self.wf(),
        ensures
            trim(self.name.value@).len() == 0 <==> r is None,
            r matches Some(p) ==> {
                &&& p.name@ == trim(self.name.value@)
                &&& p.color@ == color_choice(self.selected_color as int)
                &&& p.icon@ == icon_choice(self.selected_icon as int)
                &&& match self.editing_project_id {
                    Some(e) => p.id == e,
                    None => uuid_v7_shaped(p.id@),
                }
            },
    {
        let id = generate_id();
        let at = now();
        self.to_project_at(id, at)
    }
}

impl ProjectField {
    /// The next field (see [`ProjectField::next`]).
    pub open spec fn next_spec(self) -> ProjectField {
        match self {
            ProjectField::Name => ProjectField::Color,
            ProjectField::Color => ProjectField::Icon,
            ProjectField::Icon => ProjectField::Submit,
            ProjectField::Submit => ProjectField::Name,
        }
    }

    /// The previous field (see [`ProjectField::prev`]).
    pub open spec fn prev_spec(self) -> ProjectField {
        match self {
            ProjectField::Name => ProjectField::Submit,
            ProjectField::Color => ProjectField::Name,
            ProjectField::Icon => ProjectField::Color,
            ProjectField::Submit => ProjectField::Icon,
        }
    }
}

impl Default for ProjectDialog {
    fn default() -> (r: Self)
        ensures
            r.wf(),
            r.name.value@.len() == 0,
            r.editing_project_id is None,
    {
        ProjectDialog::new()
    }
}

/// A color as a project shows it: a gray default, or red, green and blue.
#[derive(Debug, Clone, Copy, PartialEq, Eq, Structural)]
pub enum HexColor {
    /// The color could not be read
    Gray,
    /// Red, green and blue components
    Rgb(u8, u8, u8),
}

/// `s` without its leading `#` characters.
pub open spec fn without_hashes(s: Seq<char>) -> Seq<char>
    decreases s.len(),
{
    if s.len() > 0 && s[0] == '#' {
        without_hashes(s.skip(1))
    } else {
        s
    }
}

/// The value of hexadecimal digit `c`.
pub open spec fn hex_digit(c: char) -> Option<int> {
    if '0' <= c <= '9' {
        Some(c as int - '0' as int)
    } else if 'a' <= c <= 'f' {
        Some(c as int - 'a' as int + 10)
    } else if 'A' <= c <= 'F' {
        Some(c as int - 'A' as int + 10)
    } else {
        None
    }
}

/// A two-byte component read in base 16 as `u8::from_str_radix` reads it
/// (two digits, or `+` and a digit), 128 when it cannot be read.
pub open spec fn component(p: Seq<char>) -> int {
    if p.len() == 2 && hex_digit(p[0]) is Some && hex_digit(p[1]) is Some {
        16 * hex_digit(p[0])->0 + hex_digit(p[1])->0
    } else if p.len() == 2 && p[0] == '+' && hex_digit(p[1]) is Some {
        hex_digit(p[1])->0
    } else {
        128
    }
}

/// The color a hex string such as `#3498db` gives: the leading `#`s
/// dropped, six bytes read as three two-byte components; gray for any
/// other length.
pub open spec fn hex_color(s: Seq<char>) -> HexColor {
    let t = without_hashes(s);
    if crate::text::utf8_len(t) != 6 {
        HexColor::Gray
    } else {
        HexColor::Rgb(
            component(crate::text::byte_slice(t, 0, 2)) as u8,
            component(crate::text::byte_slice(t, 2, 4)) as u8,
            component(crate::text::byte_slice(t, 4, 6)) as u8,
        )
    }
}

/// The value of hexadecimal digit `c` (executable [`hex_digit`]).
fn hex_digit_of(c: char) -> (r: Option<u8>)
    ensures
        match r {
            Some(v) => hex_digit(c) == Some(v as int),
            None => hex_digit(c) is None,
        },
{
    if '0' <= c && c <= '9' {
        Some(((c as u32) - ('0' as u32)) as u8)
    } else if 'a' <= c && c <= 'f' {
        Some(((c as u32) - ('a' as u32) + 10) as u8)
    } else if 'A' <= c && c <= 'F' {
        Some(((c as u32) - ('A' as u32) + 10) as u8)
    } else {
        None
    }
}

/// A component (executable [`component`]).
fn component_of(p: &Vec<char>) -> (r: u8)
    ensures
        r == component(p@),
{
    if p.len() == 2 {
        match (hex_digit_of(p[0]), hex_digit_of(p[1])) {
            (Some(a), Some(b)) => {
                return 16 * a + b;
            },
            (None, Some(b)) => {
                if p[0] == '+' {
                    return b;
                }
            },
            _ => {},
        }
    }
    128
}

/// The three components of six-byte text `t` cut at its byte offsets 2 and 4.
fn rgb_of(t: &Vec<char>) -> (r: HexColor)
    requires
        crate::text::utf8_len(t@) == 6,
        crate::text::is_char_boundary(t@, 2),
        crate::text::is_char_boundary(t@, 4),
    ensures
        r == HexColor::Rgb(
            component(crate::text::byte_slice(t@, 0, 2)) as u8,
            component(crate::text::byte_slice(t@, 2, 4)) as u8,
            component(crate::text::byte_slice(t@, 4, 6)) as u8,
        ),
{
    let (i2, _) = crate::text::prefix_within_bytes(t, 2);
    let (i4, _) = crate::text::prefix_within_bytes(t, 4);
    proof {
        crate::text::lemma_prefix_bytes_unique(t@, 2, i2 as int);
        crate::text::lemma_prefix_bytes_unique(t@, 4, i4 as int);
        assert(t@.take(0) =~= Seq::<char>::empty());
        crate::text::lemma_prefix_bytes_unique(t@, 0, 0);
        assert(t@.take(t@.len() as int) =~= t@);
        crate::text::lemma_prefix_bytes_unique(t@, 6, t@.len() as int);
        if i4 < i2 {
            crate::text::lemma_utf8_len_take_mono(t@, i4 as int, i2 as int);
        }
    }
    let p0 = crate::text::sub_chars(t, 0, i2);
    let p1 = crate::text::sub_chars(t, i2, i4);
    let p2 = crate::text::sub_chars(t, i4, t.len());
    assert(p0@ =~= crate::text::byte_slice(t@, 0, 2));
    assert(p1@ =~= crate::text::byte_slice(t@, 2, 4));
    assert(p2@ =~= crate::text::byte_slice(t@, 4, 6));
    HexColor::Rgb(component_of(&p0), component_of(&p1), component_of(&p2))
}

/// Whether a hex color can be read without cutting a character: the
/// text, its leading `#`s dropped, is not six bytes long, or its byte
/// offsets 2 and 4 fall between characters.
pub open spec fn hex_color_readable(s: Seq<char>) -> bool {
    let t = without_hashes(s);
    crate::text::utf8_len(t) == 6 ==> crate::text::is_char_boundary(t, 2)
        && crate::text::is_char_boundary(t, 4)
}

/// Reads a hex color such as `#3498db` (see [`hex_color`]).
pub fn parse_hex_color(hex: &str) -> (r: HexColor)
    requires
        hex_color_readable(hex@),
    ensures
        r == hex_color(hex@),
{
    let v = crate::text::chars_of(hex);
    let _n = crate::text::str_byte_len(hex);
    let mut k: usize = 0;
    assert(v@.skip(0) =~= v@);
    while k < v.len() && v[k] == '#'
        invariant
            k <= v@.len(),
            without_hashes(v@.skip(k as int)) == without_hashes(v@),
        decreases v@.len() - k,
    {
        assert(v@.skip(k as int).skip(1) =~= v@.skip(k + 1));
        k = k + 1;
    }
    let t = crate::text::sub_chars(&v, k, v.len());
    assert(t@ =~= v@.skip(k as int));
    assert(without_hashes(t@) == t@);
    proof {
        assert(v@ =~= v@.take(k as int) + t@);
        crate::text::lemma_utf8_len_append(v@.take(k as int), t@);
    }
    if crate::text::utf8_len_of(&t) != 6 {
        return HexColor::Gray;
    }
    rgb_of(&t)
}


/// Reads a hex color as [`parse_hex_color`] does when it can be read without
/// cutting a character, and gives `None` otherwise.
pub fn parse_hex_color_checked(hex: &str) -> (r: Option<HexColor>)
    ensures
        r is Some <==> hex_color_readable(hex@),
        r matches Some(c) ==> c == hex_color(hex@),
{
    let v = crate::text::chars_of(hex);
    let _n = crate::text::str_byte_len(hex);
    let mut k: usize = 0;
    assert(v@.skip(0) =~= v@);
    while k < v.len() && v[k] == '#'
        invariant
            k <= v@.len(),
            without_hashes(v@.skip(k as int)) == without_hashes(v@),
        decreases v@.len() - k,
    {
        assert(v@.skip(k as int).skip(1) =~= v@.skip(k + 1));
        k = k + 1;
    }
    let t = crate::text::sub_chars(&v, k, v.len());
    assert(t@ =~= v@.skip(k as int));
    assert(without_hashes(t@) == t@);
    proof {
        assert(v@ =~= v@.take(k as int) + t@);
        crate::text::lemma_utf8_len_append(v@.take(k as int), t@);
    }
    if crate::text::utf8_len_of(&t) == 6 && !(crate::text::is_boundary(&t, 2)
        && crate::text::is_boundary(&t, 4)) {
        return None;
    }
    Some(parse_hex_color(hex))
}

} // verus!
