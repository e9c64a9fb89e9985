//! Tag input with autocomplete: a text field for the next tag, the tags
//! chosen so far, and suggestions drawn from the tags that already exist.
use vstd::prelude::*;
use crate::keys::{KeyCode, KeyEvent};
use crate::storage::Tag;
use crate::text::{
    trim, eq_ascii_ci, contains_seq, views_of, lowercase, chars_of, chars_of_string, string_of,
    string_from, trimmed, eq_ignore_ascii_case, contains_chars, to_lowercase,
    lemma_trim_idempotent,
};
use crate::ui::input::TextInput;

verus! {

/// Most suggestions offered at once.
pub const MAX_SUGGESTIONS: usize = 5;

/// Some tag of `tags` equals `t` up to ASCII case.
pub open spec fn has_tag_ci(tags: Seq<Seq<char>>, t: Seq<char>) -> bool {
    exists|i: int| 0 <= i < tags.len() && eq_ascii_ci(#[trigger] tags[i], t)
}

/// No two tags of `tags` are equal up to ASCII case.
pub open spec fn distinct_ci(tags: Seq<Seq<char>>) -> bool {
    forall|i: int, j: int|
        0 <= i < tags.len() && 0 <= j < tags.len() && i != j ==> !eq_ascii_ci(
            #[trigger] tags[i],
            #[trigger] tags[j],
        )
}

/// Every tag is non-empty and has no white space at either end.
pub open spec fn all_trimmed(tags: Seq<Seq<char>>) -> bool {
    forall|i: int| 0 <= i < tags.len() ==> #[trigger] tags[i].len() > 0 && trim(tags[i]) == tags[i]
}

/// The tags after adding `t`: its trimmed form is appended unless it is
/// empty or already present up to ASCII case.
pub open spec fn with_tag_added(tags: Seq<Seq<char>>, t: Seq<char>) -> Seq<Seq<char>> {
    let t2 = trim(t);
    if t2.len() > 0 && !has_tag_ci(tags, t2) {
        tags.push(t2)
    } else {
        tags
    }
}

/// The names of some tags.
pub open spec fn tag_names(all: Seq<Tag>) -> Seq<Seq<char>> {
    all.map_values(|t: Tag| t.name@)
}

/// A tag name is suggested for a (lower-cased) query when its lower-case form
/// contains the query and it is not chosen already.
pub open spec fn suggestible(name: Seq<char>, query: Seq<char>, chosen: Seq<Seq<char>>) -> bool {
    contains_seq(lowercase(name), query) && !has_tag_ci(chosen, name)
}

/// The first `MAX_SUGGESTIONS` elements of `s` (all of them if fewer).
pub open spec fn first_few(s: Seq<Seq<char>>) -> Seq<Seq<char>> {
    if s.len() <= MAX_SUGGESTIONS {
        s
    } else {
        s.take(MAX_SUGGESTIONS as int)
    }
}

/// The suggestions for the text `input` typed so far, given all tag names and the chosen tags.
pub open spec fn suggestions_for(all: Seq<Seq<char>>, input: Seq<char>, chosen: Seq<Seq<char>>) -> Seq<
    Seq<char>,
> {
    let q = lowercase(input);
    if q.len() == 0 {
        Seq::empty()
    } else {
        first_few(all.filter(|n: Seq<char>| suggestible(n, q, chosen)))
    }
}

proof fn lemma_first_few_push(s: Seq<Seq<char>>, x: Seq<char>)
    ensures
        first_few(s.push(x)) == if s.len() < MAX_SUGGESTIONS {
            first_few(s).push(x)
        } else {
            first_few(s)
        },
{
    if s.len() >= MAX_SUGGESTIONS {
        assert(s.push(x).take(MAX_SUGGESTIONS as int) =~= s.take(MAX_SUGGESTIONS as int));
    }
}

/// A multi-value input for tags.
#[derive(Debug, Clone)]
pub struct TagInput {
    /// The text input for typing new tags
    pub input: TextInput,
    /// Currently selected tags
    pub tags: Vec<String>,
    /// Autocomplete suggestions based on current input
    pub suggestions: Vec<String>,
    /// Index of selected suggestion (if any)
    pub selected_suggestion: Option<usize>,
    /// Placeholder text shown when empty
    pub placeholder: String,
}

/// Placeholder shown while no tag and no text is entered.
pub fn default_placeholder() -> (r: String)
    ensures
        r@ == "Type tag, press Enter to add"@,
{
    string_from("Type tag, press Enter to add")
}

/// The index of the suggestion above `sel` among `n`, wrapping to the last.
pub open spec fn sel_up(sel: Option<usize>, n: int) -> int {
    match sel {
        Some(i) => if i == 0 { n - 1 } else { i - 1 },
        None => 0,
    }
}

/// The index of the suggestion below `sel` among `n`, wrapping to the first.
pub open spec fn sel_down(sel: Option<usize>, n: int) -> int {
    match sel {
        Some(i) => (i + 1) % n,
        None => 0,
    }
}

/// The tag input after a key, and whether the key was used: `,` or Enter
/// adds the typed tag, Backspace on empty text removes the last tag, Tab
/// takes the selected suggestion, Up and Down move the selection, other keys
/// edit the text and refresh the suggestions.
pub open spec fn tag_key_post(old: TagInput, new: TagInput, key: KeyEvent, all: Seq<Tag>, r: bool) -> bool {
    match key.code {
        KeyCode::Char(',') | KeyCode::Enter => {
            &&& r
            &&& if trim(old.input.value@).len() > 0 {
                &&& new.tag_view() == with_tag_added(
                    old.tag_view(),
                    trim(old.input.value@),
                )
                &&& new.input.value@.len() == 0
                &&& new.suggestions@.len() == 0
                &&& new.selected_suggestion is None
            } else {
                new == old
            }
        },
        KeyCode::Backspace => {
            &&& r
            &&& if old.input.value@.len() == 0 {
                &&& new.tags@ == if old.tags@.len() > 0 {
                    old.tags@.drop_last()
                } else {
                    old.tags@
                }
                &&& new.input == old.input
                &&& new.suggestions == old.suggestions
                &&& new.selected_suggestion == old.selected_suggestion
            } else {
                &&& new.input.value@ == if old.input.cursor > 0 {
                    old.input.value@.remove(old.input.cursor - 1)
                } else {
                    old.input.value@
                }
                &&& new.input.cursor == if old.input.cursor > 0 {
                    old.input.cursor - 1
                } else {
                    0
                }
                &&& new.tags == old.tags
                &&& new.suggested(all)
            }
        },
        KeyCode::Tab => match old.selected_view() {
            Some(s) => {
                &&& r
                &&& new.tag_view() == with_tag_added(old.tag_view(), s)
                &&& new.input.value@.len() == 0
                &&& new.suggestions@.len() == 0
                &&& new.selected_suggestion is None
            },
            None => !r && new == old,
        },
        KeyCode::Up => if old.suggestions@.len() > 0 {
            &&& r
            &&& new.selected_suggestion == Some(
                sel_up(old.selected_suggestion, old.suggestions@.len() as int)
                    as usize,
            )
            &&& new.input == old.input
            &&& new.tags == old.tags
            &&& new.suggestions == old.suggestions
        } else {
            !r && new == old
        },
        KeyCode::Down => if old.suggestions@.len() > 0 {
            &&& r
            &&& new.selected_suggestion == Some(
                sel_down(old.selected_suggestion, old.suggestions@.len() as int)
                    as usize,
            )
            &&& new.input == old.input
            &&& new.tags == old.tags
            &&& new.suggestions == old.suggestions
        } else {
            !r && new == old
        },
        KeyCode::Char(c) => {
            &&& r
            &&& new.input.value@ == old.input.value@.take(
                old.input.cursor as int,
            ).push(c) + old.input.value@.skip(old.input.cursor as int)
            &&& new.input.cursor == old.input.cursor + 1
            &&& new.tags == old.tags
            &&& new.suggested(all)
        },
        KeyCode::Delete => {
            &&& r
            &&& new.input.value@ == if old.input.cursor < old.input.value@.len() {
                old.input.value@.remove(old.input.cursor as int)
            } else {
                old.input.value@
            }
            &&& new.input.cursor == old.input.cursor
            &&& new.tags == old.tags
            &&& new.suggested(all)
        },
        KeyCode::Left | KeyCode::Right | KeyCode::Home | KeyCode::End => {
            &&& r
            &&& new.input.value == old.input.value
            &&& new.input.cursor == match key.code {
                KeyCode::Left => if old.input.cursor > 0 {
                    old.input.cursor - 1
                } else {
                    0
                },
                KeyCode::Right => if old.input.cursor < old.input.value@.len() {
                    old.input.cursor + 1
                } else {
                    old.input.cursor as int
                },
                KeyCode::Home => 0,
                _ => old.input.value@.len() as int,
            }
            &&& new.tags == old.tags
            &&& new.suggestions == old.suggestions
            &&& new.selected_suggestion == old.selected_suggestion
        },
        _ => !r && new == old,
    }
}

impl TagInput {
    /// The text input is well formed and a selected suggestion exists.
    pub open spec fn wf(&self) -> bool {
        &&& self.input.wf()
        &&& (self.selected_suggestion matches Some(i) ==> i < self.suggestions@.len())
    }

    /// The chosen tags, as character sequences.
    pub open spec fn tag_view(&self) -> Seq<Seq<char>> {
        views_of(self.tags@)
    }

    /// The current suggestions, as character sequences.
    pub open spec fn suggestion_view(&self) -> Seq<Seq<char>> {
        views_of(self.suggestions@)
    }

    /// The suggestion under the selection, if any.
    pub open spec fn selected_view(&self) -> Option<Seq<char>> {
        match self.selected_suggestion {
            Some(i) => if i < self.suggestions@.len() {
                Some(self.suggestions@[i as int]@)
            } else {
                None
            },
            None => None,
        }
    }

    /// The state after the suggestions were recomputed for the current text.
    pub open spec fn suggested(&self, all: Seq<Tag>) -> bool {
        &&& self.suggestion_view() == suggestions_for(
            tag_names(all),
            self.input.value@,
            self.tag_view(),
        )
        &&& self.selected_suggestion == if self.suggestions@.len() == 0 {
            None::<usize>
        } else {
            Some(0usize)
        }
    }

    /// Creates a new empty tag input.
    pub fn new() -> (r: Self)
        ensures
            r.wf(),
            r.input.value@ == Seq::<char>::empty(),
            r.tag_view() == Seq::<Seq<char>>::empty(),
            r.suggestions@.len() == 0,
            r.selected_suggestion is None,
            r.placeholder@ == "Type tag, press Enter to add"@,
    {
        let r = TagInput {
            input: TextInput::new(),
            tags: Vec::new(),
            suggestions: Vec::new(),
            selected_suggestion: None,
            placeholder: default_placeholder(),
        };
        assert(r.tag_view() =~= Seq::<Seq<char>>::empty());
        r
    }

    /// Creates a tag input with initial tags.
    pub fn with_tags(tags: Vec<String>) -> (r: Self)
        ensures
            r.wf(),
            r.input.value@ == Seq::<char>::empty(),
            r.tags@ == tags@,
            r.suggestions@.len() == 0,
            r.selected_suggestion is None,
            r.placeholder@ == "Type tag, press Enter to add"@,
    {
        TagInput {
            input: TextInput::new(),
            tags,
            suggestions: Vec::new(),
            selected_suggestion: None,
            placeholder: default_placeholder(),
        }
    }

    /// Returns the current list of tags.
    pub fn tags(&self) -> (r: &[String])
        ensures
            r@ == self.tags@,
    {
        self.tags.as_slice()
    }

    /// Returns the tags as a copied vector.
    pub fn tags_vec(&self) -> (r: Vec<String>)
        ensures
            r@ == self.tags@,
    {
        let mut r: Vec<String> = Vec::new();
        let mut i: usize = 0;
        while i < self.tags.len()
            invariant
                i <= self.tags@.len(),
                r@ == self.tags@.take(i as int),
            decreases self.tags@.len() - i,
        {
            r.push(self.tags[i].clone());
            assert(self.tags@.take(i + 1) == self.tags@.take(i as int).push(self.tags@[i as int]));
            i = i + 1;
        }
        assert(self.tags@.take(self.tags@.len() as int) == self.tags@);
        r
    }

    /// Whether some chosen tag equals `t` up to ASCII case.
    fn has_tag(&self, t: &Vec<char>) -> (r: bool)
        ensures
            r == has_tag_ci(self.tag_view(), t@),
    {
        let mut i: usize = 0;
        while i < self.tags.len()
            invariant
                i <= self.tags@.len(),
                forall|j: int| 0 <= j < i ==> !eq_ascii_ci(#[trigger] self.tag_view()[j], t@),
            decreases self.tags@.len() - i,
        {
            let c = chars_of_string(&self.tags[i]);
            if eq_ignore_ascii_case(&c, t) {
                assert(eq_ascii_ci(self.tag_view()[i as int], t@));
                return true;
            }
            i = i + 1;
        }
        false
    }

    /// Adds a tag (trimmed) unless it is empty or already present up to ASCII case.
    pub fn add_tag(&mut self, tag: String)
        ensures
            final(self).tag_view() == with_tag_added(old(self).tag_view(), tag@),
            distinct_ci(old(self).tag_view()) ==> distinct_ci(final(self).tag_view()),
            all_trimmed(old(self).tag_view()) ==> all_trimmed(final(self).tag_view()),
            final(self).input == old(self).input,
            final(self).suggestions == old(self).suggestions,
            final(self).selected_suggestion == old(self).selected_suggestion,
            final(self).placeholder == old(self).placeholder,
    {
        let chars = chars_of_string(&tag);
        let t = trimmed(&chars);
        if t.len() > 0 && !self.has_tag(&t) {
            let ghost before = self.tag_view();
            self.tags.push(string_of(&t));
            assert(self.tag_view() =~= before.push(t@));
            proof {
                lemma_eq_ascii_ci_symmetric();
                lemma_trim_idempotent(tag@);
            }
        }
    }

    /// Removes the last tag.
    pub fn remove_last_tag(&mut self)
        ensures
            final(self).tags@ == if old(self).tags@.len() > 0 {
                old(self).tags@.drop_last()
            } else {
                old(self).tags@
            },
            final(self).input == old(self).input,
            final(self).suggestions == old(self).suggestions,
            final(self).selected_suggestion == old(self).selected_suggestion,
            final(self).placeholder == old(self).placeholder,
    {
        self.tags.pop();
    }

    /// Removes every tag equal to `tag`.
    pub fn remove_tag(&mut self, tag: &str)
        ensures
            final(self).tag_view() == old(self).tag_view().filter(|t: Seq<char>| t != tag@),
            final(self).input == old(self).input,
            final(self).suggestions == old(self).suggestions,
            final(self).selected_suggestion == old(self).selected_suggestion,
            final(self).placeholder == old(self).placeholder,
    {
        let target = string_from(tag);
        let ghost pred = |t: Seq<char>| t != tag@;
        let ghost all = self.tag_view();
        let mut kept: Vec<String> = Vec::new();
        let mut i: usize = 0;
        while i < self.tags.len()
            invariant
                i <= self.tags@.len(),
                all == views_of(self.tags@),
                target@ == tag@,
                pred == (|t: Seq<char>| t != tag@),
                views_of(kept@) == all.take(i as int).filter(pred),
            decreases self.tags@.len() - i,
        {
            let ghost before = kept@;
            if self.tags[i] != target {
                kept.push(self.tags[i].clone());
                assert(views_of(kept@) =~= views_of(before).push(all[i as int]));
            }
            proof {
                assert(all.take(i + 1) =~= all.take(i as int).push(all[i as int]));
                all.take(i as int).lemma_filter_push(all[i as int], pred);
            }
            i = i + 1;
        }
        assert(all.take(self.tags@.len() as int) =~= all);
        self.tags = kept;
    }

    /// Returns the current input value.
    pub fn input_value(&self) -> (r: String)
        ensures
            r@ == self.input.value@,
    {
        self.input.value()
    }

    /// Returns the currently selected suggestion, if any.
    pub fn selected_suggestion(&self) -> (r: Option<&String>)
        ensures
            match r {
                Some(s) => self.selected_view() == Some(s@),
                None => self.selected_view() is None,
            },
    {
        match self.selected_suggestion {
            Some(i) => if i < self.suggestions.len() {
                Some(&self.suggestions[i])
            } else {
                None
            },
            None => None,
        }
    }

    /// Recomputes the suggestions for the current text: up to five existing
    /// tag names whose lower-case form contains the lower-cased text and that
    /// are not chosen yet, in their order; the first is selected.
    pub fn update_suggestions(&mut self, all_tags: &[Tag])
        requires
            old(self).wf(),
        ensures
            final(self).wf(),
            final(self).suggested(all_tags@),
            final(self).input == old(self).input,
            final(self).tags == old(self).tags,
            final(self).placeholder == old(self).placeholder,
    {
        let value = self.input.value();
        let query_s = to_lowercase(value.as_str());
        let query = chars_of_string(&query_s);
        if query.len() == 0 {
            self.suggestions = Vec::new();
            self.selected_suggestion = None;
            assert(self.suggestion_view() =~= Seq::<Seq<char>>::empty());
            return;
        }
        let ghost names = tag_names(all_tags@);
        let ghost chosen = self.tag_view();
        let ghost pred = |n: Seq<char>| suggestible(n, query@, chosen);
        let mut found: Vec<String> = Vec::new();
        let mut i: usize = 0;
        while i < all_tags.len()
            invariant
                i <= all_tags@.len(),
                names == tag_names(all_tags@),
                chosen == self.tag_view(),
                pred == (|n: Seq<char>| suggestible(n, query@, chosen)),
                views_of(found@) == first_few(names.take(i as int).filter(pred)),
            decreases all_tags@.len() - i,
        {
            let name = &all_tags[i].name;
            let lower_s = to_lowercase(name.as_str());
            let lower = chars_of_string(&lower_s);
            let name_chars = chars_of_string(name);
            let ok = contains_chars(&lower, &query) && !self.has_tag(&name_chars);
            assert(names[i as int] == name@);
            assert(ok == pred(names[i as int]));
            proof {
                assert(names.take(i + 1) =~= names.take(i as int).push(names[i as int]));
                names.take(i as int).lemma_filter_push(names[i as int], pred);
                lemma_first_few_push(names.take(i as int).filter(pred), names[i as int]);
            }
            if ok && found.len() < MAX_SUGGESTIONS {
                let ghost before = found@;
                found.push(name.clone());
                assert(views_of(found@) =~= views_of(before).push(name@));
            } else if ok {
                assert(views_of(found@).len() == MAX_SUGGESTIONS);
            }
            i = i + 1;
        }
        assert(names.take(all_tags@.len() as int) =~= names);
        self.selected_suggestion = if found.len() == 0 {
            None
        } else {
            Some(0)
        };
        self.suggestions = found;
    }

    /// Clears the text and the suggestions.
    fn reset_entry(&mut self)
        ensures
            final(self).input.value@ == Seq::<char>::empty(),
            final(self).input.cursor == 0,
            final(self).input.placeholder == old(self).input.placeholder,
            final(self).suggestions@.len() == 0,
            final(self).selected_suggestion is None,
            final(self).tags == old(self).tags,
            final(self).placeholder == old(self).placeholder,
    {
        self.input.clear();
        self.suggestions = Vec::new();
        self.selected_suggestion = None;
    }

    /// Handles a key: `,` or Enter adds the typed tag, Backspace on empty
    /// text removes the last tag, Tab takes the selected suggestion, Up and
    /// Down move the selection, other keys edit the text. Returns whether the
    /// key was used.
    pub fn handle_key(&mut self, key: KeyEvent, all_tags: &[Tag]) -> (r: bool)
        requires
            old(self).wf(),
            old(self).input.value@.len() < usize::MAX,
        ensures
            final(self).wf(),
            final(self).placeholder == old(self).placeholder,
            final(self).input.placeholder == old(self).input.placeholder,
            tag_key_post(*old(self), *final(self), key, all_tags@, r),
    {
        match key.code {
            KeyCode::Char(',') | KeyCode::Enter => {
                let v = self.input.value.clone();
                let t = trimmed(&v);
                if t.len() > 0 {
                    self.add_tag(string_of(&t));
                    self.reset_entry();
                }
                true
            },
            KeyCode::Backspace => {
                if self.input.value.len() == 0 {
                    self.remove_last_tag();
                } else {
                    self.input.delete_backward();
                    self.update_suggestions(all_tags);
                }
                true
            },
            KeyCode::Tab => {
                let picked = match self.selected_suggestion() {
                    Some(s) => Some(s.clone()),
                    None => None,
                };
                match picked {
                    Some(tag) => {
                        self.add_tag(tag);
                        self.reset_entry();
                        true
                    },
                    None => false,
                }
            },
            KeyCode::Up => {
                if self.suggestions.len() > 0 {
                    let n = self.suggestions.len();
                    self.selected_suggestion = Some(
                        match self.selected_suggestion {
                            Some(i) => if i == 0 {
                                n - 1
                            } else {
                                i - 1
                            },
                            None => 0,
                        },
                    );
                    true
                } else {
                    false
                }
            },
            KeyCode::Down => {
                if self.suggestions.len() > 0 {
                    let n = self.suggestions.len();
                    self.selected_suggestion = Some(
                        match self.selected_suggestion {
                            Some(i) => (i + 1) % n,
                            None => 0,
                        },
                    );
                    true
                } else {
                    false
                }
            },
            KeyCode::Char(c) => {
                self.input.insert(c);
                self.update_suggestions(all_tags);
                true
            },
            KeyCode::Delete => {
                self.input.delete_forward();
                self.update_suggestions(all_tags);
                true
            },
            KeyCode::Left => {
                self.input.move_left();
                true
            },
            KeyCode::Right => {
                self.input.move_right();
                true
            },
            KeyCode::Home => {
                self.input.move_home();
                true
            },
            KeyCode::End => {
                self.input.move_end();
                true
            },
            _ => false,
        }
    }
}

/// ASCII-case-insensitive equality is symmetric.
pub proof fn lemma_eq_ascii_ci_symmetric()
    ensures
        forall|a: Seq<char>, b: Seq<char>| #[trigger] eq_ascii_ci(a, b) ==> eq_ascii_ci(b, a),
{
}

/// A renderable view of a [`TagInput`].
pub struct TagInputWidget<'a> {
    pub input: &'a TagInput,
    pub focused: bool,
    pub label: Option<&'a str>,
}

impl<'a> TagInputWidget<'a> {
    /// Creates a new tag input widget, unfocused and without a label.
    pub fn new(input: &'a TagInput) -> (r: Self)
        ensures
            r.input == input,
            !r.focused,
            r.label is None,
    {
        TagInputWidget { input, focused: false, label: None }
    }

    /// Sets whether the input is focused.
    pub fn focused(self, focused: bool) -> (r: Self)
        ensures
            r.input == self.input,
            r.focused == focused,
            r.label == self.label,
    {
        TagInputWidget { input: self.input, focused, label: self.label }
    }

    /// Sets the label shown in the border.
    pub fn label(self, label: &'a str) -> (r: Self)
        ensures
            r.input == self.input,
            r.focused == self.focused,
            r.label == Some(label),
    {
        TagInputWidget { input: self.input, focused: self.focused, label: Some(label) }
    }
}

} // verus!
