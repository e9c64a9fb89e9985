//! Single-line text input with a cursor.
use vstd::prelude::*;
use crate::text::{is_ws, is_whitespace, chars_of, string_of, string_of_range, string_from};

verus! {

/// Position reached from `p` by moving left over white space.
pub open spec fn skip_ws_back(s: Seq<char>, p: int) -> int
    decreases p,
{
    if 0 < p <= s.len() && is_ws(s[p - 1]) {
        skip_ws_back(s, p - 1)
    } else {
        p
    }
}

/// Position reached from `p` by moving left over non-white-space characters.
pub open spec fn skip_word_back(s: Seq<char>, p: int) -> int
    decreases p,
{
    if 0 < p <= s.len() && !is_ws(s[p - 1]) {
        skip_word_back(s, p - 1)
    } else {
        p
    }
}

/// Start of the word before position `p`: white space, then the word, is skipped.
pub open spec fn word_left(s: Seq<char>, p: int) -> int {
    skip_word_back(s, skip_ws_back(s, p))
}

/// Position reached from `p` by moving right over non-white-space characters.
pub open spec fn skip_word_fwd(s: Seq<char>, p: int) -> int
    decreases s.len() - p,
{
    if 0 <= p < s.len() && !is_ws(s[p]) {
        skip_word_fwd(s, p + 1)
    } else {
        p
    }
}

/// Position reached from `p` by moving right over white space.
pub open spec fn skip_ws_fwd(s: Seq<char>, p: int) -> int
    decreases s.len() - p,
{
    if 0 <= p < s.len() && is_ws(s[p]) {
        skip_ws_fwd(s, p + 1)
    } else {
        p
    }
}

/// Start of the next word after position `p`: the current word, then white space, is skipped.
pub open spec fn word_right(s: Seq<char>, p: int) -> int {
    skip_ws_fwd(s, skip_word_fwd(s, p))
}

pub proof fn lemma_skip_back_bounds(s: Seq<char>, p: int)
    requires
        0 <= p <= s.len(),
    ensures
        0 <= skip_ws_back(s, p) <= p,
        0 <= skip_word_back(s, p) <= p,
        0 <= word_left(s, p) <= p,
    decreases p,
{
    if p > 0 {
        lemma_skip_back_bounds(s, p - 1);
    }
    let q = skip_ws_back(s, p);
    if 0 <= q <= p {
        lemma_skip_word_back_bounds(s, q);
    }
}

proof fn lemma_skip_word_back_bounds(s: Seq<char>, p: int)
    requires
        0 <= p <= s.len(),
    ensures
        0 <= skip_word_back(s, p) <= p,
    decreases p,
{
    if p > 0 {
        lemma_skip_word_back_bounds(s, p - 1);
    }
}

pub proof fn lemma_skip_fwd_bounds(s: Seq<char>, p: int)
    requires
        0 <= p <= s.len(),
    ensures
        p <= skip_word_fwd(s, p) <= s.len(),
        p <= skip_ws_fwd(s, p) <= s.len(),
        p <= word_right(s, p) <= s.len(),
    decreases s.len() - p,
{
    if p < s.len() {
        lemma_skip_fwd_bounds(s, p + 1);
    }
    let q = skip_word_fwd(s, p);
    if p <= q <= s.len() {
        lemma_skip_ws_fwd_bounds(s, q);
    }
}

proof fn lemma_skip_ws_fwd_bounds(s: Seq<char>, p: int)
    requires
        0 <= p <= s.len(),
    ensures
        p <= skip_ws_fwd(s, p) <= s.len(),
    decreases s.len() - p,
{
    if p < s.len() {
        lemma_skip_ws_fwd_bounds(s, p + 1);
    }
}

/// Executable [`word_left`].
pub fn find_word_left(chars: &Vec<char>, cursor: usize) -> (r: usize)
    requires
        cursor <= chars.len(),
    ensures
        r == word_left(chars@, cursor as int),
        r <= cursor,
{
    proof {
        lemma_skip_back_bounds(chars@, cursor as int);
    }
    let mut pos = cursor;
    while pos > 0 && is_whitespace(chars[pos - 1])
        invariant
            pos <= cursor <= chars.len(),
            skip_ws_back(chars@, pos as int) == skip_ws_back(chars@, cursor as int),
        decreases pos,
    {
        pos = pos - 1;
    }
    let ghost mid = pos;
    while pos > 0 && !is_whitespace(chars[pos - 1])
        invariant
            pos <= mid <= chars.len(),
            mid == skip_ws_back(chars@, cursor as int),
            skip_word_back(chars@, pos as int) == skip_word_back(chars@, mid as int),
        decreases pos,
    {
        pos = pos - 1;
    }
    pos
}

/// Executable [`word_right`].
pub fn find_word_right(chars: &Vec<char>, cursor: usize) -> (r: usize)
    requires
        cursor <= chars.len(),
    ensures
        r == word_right(chars@, cursor as int),
        cursor <= r <= chars.len(),
{
    proof {
        lemma_skip_fwd_bounds(chars@, cursor as int);
    }
    let len = chars.len();
    let mut pos = cursor;
    while pos < len && !is_whitespace(chars[pos])
        invariant
            len == chars.len(),
            cursor <= pos <= len,
            skip_word_fwd(chars@, pos as int) == skip_word_fwd(chars@, cursor as int),
        decreases len - pos,
    {
        pos = pos + 1;
    }
    let ghost mid = pos;
    while pos < len && is_whitespace(chars[pos])
        invariant
            len == chars.len(),
            mid <= pos <= len,
            mid == skip_word_fwd(chars@, cursor as int),
            skip_ws_fwd(chars@, pos as int) == skip_ws_fwd(chars@, mid as int),
        decreases len - pos,
    {
        pos = pos + 1;
    }
    pos
}

/// Removes `v[from..to]`, keeping the rest in order.
pub fn remove_range(v: &Vec<char>, from: usize, to: usize) -> (r: Vec<char>)
    requires
        from <= to <= v.len(),
    ensures
        r@ == v@.take(from as int) + v@.skip(to as int),
{
    let mut r: Vec<char> = Vec::new();
    let mut i: usize = 0;
    while i < from
        invariant
            from <= to <= v.len(),
            i <= from,
            r@ == v@.take(i as int),
        decreases from - i,
    {
        r.push(v[i]);
        assert(v@.take(i + 1) == v@.take(i as int).push(v@[i as int]));
        i = i + 1;
    }
    let mut j = to;
    while j < v.len()
        invariant
            from <= to <= j <= v.len(),
            r@ == v@.take(from as int) + v@.subrange(to as int, j as int),
        decreases v.len() - j,
    {
        r.push(v[j]);
        assert(v@.subrange(to as int, j + 1) == v@.subrange(to as int, j as int).push(v@[j as int]));
        j = j + 1;
    }
    assert(v@.subrange(to as int, v@.len() as int) == v@.skip(to as int));
    r
}

/// A single-line text input. Text is held as characters; `cursor` is a
/// character position between 0 and the length of the text.
#[derive(Debug, Clone)]
pub struct TextInput {
    pub value: Vec<char>,
    pub cursor: usize,
    pub placeholder: Option<String>,
}

impl TextInput {
    /// The cursor lies within the text.
    pub open spec fn wf(&self) -> bool {
        self.cursor <= self.value@.len()
    }

    /// Creates an empty input with the cursor at 0.
    pub fn new() -> (r: Self)
        ensures
            r.value@ == Seq::<char>::empty(),
            r.cursor == 0,
            r.placeholder is None,
            r.wf(),
    {
        TextInput { value: Vec::new(), cursor: 0, placeholder: None }
    }

    /// Creates an input holding `value`, with the cursor at its end.
    pub fn with_value(value: &str) -> (r: Self)
        ensures
            r.value@ == value@,
            r.cursor == value@.len(),
            r.placeholder is None,
            r.wf(),
    {
        let v = chars_of(value);
        let n = v.len();
        TextInput { value: v, cursor: n, placeholder: None }
    }

    /// Sets the placeholder shown while the input is empty.
    pub fn with_placeholder(self, placeholder: &str) -> (r: Self)
        ensures
            r.value == self.value,
            r.cursor == self.cursor,
            r.placeholder matches Some(p) && p@ == placeholder@,
    {
        TextInput { value: self.value, cursor: self.cursor, placeholder: Some(string_from(placeholder)) }
    }

    /// The current text.
    pub fn value(&self) -> (r: String)
        ensures
            r@ == self.value@,
    {
        string_of(&self.value)
    }

    /// The cursor position (in characters).
    pub fn cursor(&self) -> (r: usize)
        ensures
            r == self.cursor,
    {
        self.cursor
    }

    /// Replaces the text and moves the cursor to its end.
    pub fn set_value(&mut self, value: &str)
        ensures
            final(self).value@ == value@,
            final(self).cursor == value@.len(),
            final(self).placeholder == old(self).placeholder,
            final(self).wf(),
    {
        self.value = chars_of(value);
        self.cursor = self.value.len();
    }

    /// Clears the text and moves the cursor to 0.
    pub fn clear(&mut self)
        ensures
            final(self).value@ == Seq::<char>::empty(),
            final(self).cursor == 0,
            final(self).placeholder == old(self).placeholder,
            final(self).wf(),
    {
        self.value = Vec::new();
        self.cursor = 0;
    }

    /// Inserts `c` at the cursor and moves the cursor past it.
    pub fn insert(&mut self, c: char)
        requires
            old(self).wf(),
            old(self).value@.len() < usize::MAX,
        ensures
            final(self).value@ == old(self).value@.take(old(self).cursor as int).push(c) + old(
                self,
            ).value@.skip(old(self).cursor as int),
            final(self).cursor == old(self).cursor + 1,
            final(self).placeholder == old(self).placeholder,
            final(self).wf(),
    {
        let ghost before = self.value@;
        self.value.insert(self.cursor, c);
        assert(self.value@ =~= before.take(self.cursor as int).push(c) + before.skip(
            self.cursor as int,
        ));
        self.cursor = self.cursor + 1;
    }

    /// Deletes the character before the cursor, if any.
    pub fn delete_backward(&mut self)
        requires
            old(self).wf(),
        ensures
            old(self).cursor > 0 ==> final(self).value@ == old(self).value@.remove(
                old(self).cursor - 1,
            ) && final(self).cursor == old(self).cursor - 1,
            old(self).cursor == 0 ==> final(self).value == old(self).value && final(self).cursor
                == 0,
            final(self).placeholder == old(self).placeholder,
            final(self).wf(),
    {
        if self.cursor > 0 {
            self.cursor = self.cursor - 1;
            self.value.remove(self.cursor);
        }
    }

    /// Deletes the character at the cursor, if any.
    pub fn delete_forward(&mut self)
        requires
            old(self).wf(),
        ensures
            old(self).cursor < old(self).value@.len() ==> final(self).value@ == old(
                self,
            ).value@.remove(old(self).cursor as int),
            old(self).cursor == old(self).value@.len() ==> final(self).value == old(self).value,
            final(self).cursor == old(self).cursor,
            final(self).placeholder == old(self).placeholder,
            final(self).wf(),
    {
        if self.cursor < self.value.len() {
            self.value.remove(self.cursor);
        }
    }

    /// Moves the cursor one character left (stays at 0).
    pub fn move_left(&mut self)
        requires
            old(self).wf(),
        ensures
            final(self).cursor == if old(self).cursor > 0 { old(self).cursor - 1 } else { 0 },
            final(self).value == old(self).value,
            final(self).placeholder == old(self).placeholder,
            final(self).wf(),
    {
        if self.cursor > 0 {
            self.cursor = self.cursor - 1;
        }
    }

    /// Moves the cursor one character right (stays at the end).
    pub fn move_right(&mut self)
        requires
            old(self).wf(),
        ensures
            final(self).cursor == if old(self).cursor < old(self).value@.len() {
                old(self).cursor + 1
            } else {
                old(self).cursor as int
            },
            final(self).value == old(self).value,
            final(self).placeholder == old(self).placeholder,
            final(self).wf(),
    {
        if self.cursor < self.value.len() {
            self.cursor = self.cursor + 1;
        }
    }

    /// Moves the cursor to the start.
    pub fn move_home(&mut self)
        requires
            old(self).wf(),
        ensures
            final(self).cursor == 0,
            final(self).value == old(self).value,
            final(self).placeholder == old(self).placeholder,
            final(self).wf(),
    {
        self.cursor = 0;
    }

    /// Moves the cursor to the end.
    pub fn move_end(&mut self)
        requires
            old(self).wf(),
        ensures
            final(self).cursor == old(self).value@.len(),
            final(self).value == old(self).value,
            final(self).placeholder == old(self).placeholder,
            final(self).wf(),
    {
        self.cursor = self.value.len();
    }

    /// Moves the cursor to the start of the previous word.
    pub fn move_word_left(&mut self)
        requires
            old(self).wf(),
        ensures
            final(self).cursor == word_left(old(self).value@, old(self).cursor as int),
            final(self).value == old(self).value,
            final(self).placeholder == old(self).placeholder,
            final(self).wf(),
    {
        self.cursor = find_word_left(&self.value, self.cursor);
    }

    /// Moves the cursor to the start of the next word.
    pub fn move_word_right(&mut self)
        requires
            old(self).wf(),
        ensures
            final(self).cursor == word_right(old(self).value@, old(self).cursor as int),
            final(self).value == old(self).value,
            final(self).placeholder == old(self).placeholder,
            final(self).wf(),
    {
        self.cursor = find_word_right(&self.value, self.cursor);
    }

    /// Deletes from the start of the previous word up to the cursor.
    pub fn delete_word_backward(&mut self)
        requires
            old(self).wf(),
        ensures
            ({
                let p = word_left(old(self).value@, old(self).cursor as int);
                &&& final(self).value@ == old(self).value@.take(p) + old(self).value@.skip(
                    old(self).cursor as int,
                )
                &&& final(self).cursor == p
            }),
            final(self).placeholder == old(self).placeholder,
            final(self).wf(),
    {
        let pos = find_word_left(&self.value, self.cursor);
        let nv = remove_range(&self.value, pos, self.cursor);
        self.value = nv;
        self.cursor = pos;
    }

    /// The part of the text shown in a field `width` characters wide, and
    /// the cursor's column in it. Scrolls so that the cursor stays visible.
    pub fn calculate_visible_text(&self, width: usize) -> (r: (String, usize))
        requires
            self.wf(),
            width > 0,
        ensures
            ({
                let len = self.value@.len();
                let margin = width / 4;
                let start: int = if len <= width {
                    0
                } else if self.cursor < width - margin {
                    0
                } else if self.cursor >= width - margin - 1 {
                    self.cursor - (width - margin - 1)
                } else {
                    0
                };
                let end: int = if len <= width { len as int } else if start + width < len {
                    start + width
                } else {
                    len as int
                };
                &&& r.0@ == self.value@.subrange(start, end)
                &&& r.1 == self.cursor - start
            }),
            r.0@.len() <= width,
            r.1 <= width,
            r.1 <= r.0@.len(),
            self.value@.len() <= width ==> r.0@ == self.value@ && r.1 == self.cursor,
    {
        let len = self.value.len();
        if len <= width {
            assert(self.value@.subrange(0, len as int) == self.value@);
            return (string_of(&self.value), self.cursor);
        }
        let margin = width / 4;
        let start = if self.cursor < width - margin {
            0
        } else if self.cursor >= width - margin - 1 {
            self.cursor - (width - margin - 1)
        } else {
            0
        };
        let end = if start < len - width { start + width } else { len };
        (string_of_range(&self.value, start, end), self.cursor - start)
    }
}

/// An edit of a text input.
#[derive(Debug, Clone, Copy, PartialEq, Eq, Structural)]
pub enum InputEdit {
    Keep,
    Insert(char),
    DeleteBackward,
    DeleteForward,
    Left,
    Right,
    Home,
    End,
    WordLeft,
    WordRight,
    DeleteWordBackward,
}

/// The input after edit `e`, as the editing functions state it.
pub open spec fn input_edit_post(old: TextInput, new: TextInput, e: InputEdit) -> bool {
    let v = old.value@;
    let c = old.cursor as int;
    &&& new.wf()
    &&& new.placeholder == old.placeholder
    &&& match e {
        InputEdit::Keep => new.value == old.value && new.cursor == old.cursor,
        InputEdit::Insert(ch) => new.value@ == v.take(c).push(ch) + v.skip(c) && new.cursor == c + 1,
        InputEdit::DeleteBackward => if c > 0 {
            new.value@ == v.remove(c - 1) && new.cursor == c - 1
        } else {
            new.value == old.value && new.cursor == 0
        },
        InputEdit::DeleteForward => new.cursor == c && if c < v.len() {
            new.value@ == v.remove(c)
        } else {
            new.value == old.value
        },
        InputEdit::Left => new.value == old.value && new.cursor == if c > 0 { c - 1 } else { 0 },
        InputEdit::Right => new.value == old.value && new.cursor == if c < v.len() { c + 1 } else { c },
        InputEdit::Home => new.value == old.value && new.cursor == 0,
        InputEdit::End => new.value == old.value && new.cursor == v.len(),
        InputEdit::WordLeft => new.value == old.value && new.cursor == word_left(v, c),
        InputEdit::WordRight => new.value == old.value && new.cursor == word_right(v, c),
        InputEdit::DeleteWordBackward => new.value@ == v.take(word_left(v, c)) + v.skip(c)
            && new.cursor == word_left(v, c),
    }
}

impl TextInput {
    /// Applies an edit.
    pub fn apply_edit(&mut self, e: InputEdit)
        requires
            old(self).wf(),
            old(self).value@.len() < usize::MAX,
        ensures
            input_edit_post(*old(self), *final(self), e),
    {
        match e {
            InputEdit::Keep => {},
            InputEdit::Insert(ch) => self.insert(ch),
            InputEdit::DeleteBackward => self.delete_backward(),
            InputEdit::DeleteForward => self.delete_forward(),
            InputEdit::Left => self.move_left(),
            InputEdit::Right => self.move_right(),
            InputEdit::Home => self.move_home(),
            InputEdit::End => self.move_end(),
            InputEdit::WordLeft => self.move_word_left(),
            InputEdit::WordRight => self.move_word_right(),
            InputEdit::DeleteWordBackward => self.delete_word_backward(),
        }
    }
}

/// A text input prepared for display: focus state and an optional label.
pub struct TextInputWidget<'a> {
    pub input: &'a TextInput,
    pub focused: bool,
    pub label: Option<&'a str>,
}

impl<'a> TextInputWidget<'a> {
    /// An unfocused, unlabelled widget for `input`.
    pub fn new(input: &'a TextInput) -> (r: Self)
        ensures
            r.input == input,
            !r.focused,
            r.label is None,
    {
        TextInputWidget { input, focused: false, label: None }
    }

    /// Sets the focus state.
    pub fn focused(self, focused: bool) -> (r: Self)
        ensures
            r.input == self.input,
            r.focused == focused,
            r.label == self.label,
    {
        TextInputWidget { input: self.input, focused, label: self.label }
    }

    /// Sets the label shown in the border.
    pub fn label(self, label: &'a str) -> (r: Self)
        ensures
            r.input == self.input,
            r.focused == self.focused,
            r.label == Some(label),
    {
        TextInputWidget { input: self.input, focused: self.focused, label: Some(label) }
    }
}

} // verus!
