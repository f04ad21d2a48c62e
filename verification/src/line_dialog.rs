//! The dialog that edits one line: a value field, the drop-down list of
//! keys and a raw line field, with Tab moving between them. The text fields
//! have a cursor, which starts at the beginning of the text: typed characters
//! go in at the cursor, Backspace and Delete remove the character before and
//! under it, and the arrow keys, Home and End move it.
use vstd::prelude::*;
use crate::keys::{GenericKeys, ParsedLineInfo};
use crate::keys_combo::{combo_step, first_index_of, option_keys, ComboKey, KeysComboBox};
use crate::lines_editor::{accepts_value_char, build_line, field_index, trimmed, EditDecision, Field, LineError};
use crate::text::{decimal_string, decimal_string_of, parse_i64_spec, string_from_chars};

verus! {

/// A key pressed in the dialog.
#[derive(Debug, Clone, Copy, PartialEq, Eq, Structural)]
pub enum DialogKey {
    Esc,
    Enter,
    Tab,
    BackTab,
    Backspace,
    Delete,
    Left,
    Right,
    Home,
    End,
    Up,
    Down,
    Char(char),
    Other,
}

/// The text and cursor of a text field after a key: a character goes in at
/// the cursor and the cursor moves past it; Backspace removes the character
/// before the cursor and Delete the one under it; Left and Right move the
/// cursor by one within the text, Home and End to its ends; other keys
/// leave the field as it is.
pub open spec fn field_step(text: Seq<char>, cursor: int, key: DialogKey) -> (Seq<char>, int) {
    match key {
        DialogKey::Char(c) => (text.insert(cursor, c), cursor + 1),
        DialogKey::Backspace => if cursor == 0 {
            (text, cursor)
        } else {
            (text.remove(cursor - 1), cursor - 1)
        },
        DialogKey::Delete => if cursor < text.len() {
            (text.remove(cursor), cursor)
        } else {
            (text, cursor)
        },
        DialogKey::Left => if cursor == 0 {
            (text, cursor)
        } else {
            (text, cursor - 1)
        },
        DialogKey::Right => if cursor < text.len() {
            (text, cursor + 1)
        } else {
            (text, cursor)
        },
        DialogKey::Home => (text, 0),
        DialogKey::End => (text, text.len() as int),
        _ => (text, cursor),
    }
}

/// The value field after a key: as any text field, except that it only
/// takes digits and signs as typed characters.
pub open spec fn value_field_step(text: Seq<char>, cursor: int, key: DialogKey) -> (Seq<char>, int) {
    match key {
        DialogKey::Char(c) => if ('0' <= c && c <= '9') || c == '+' || c == '-' {
            field_step(text, cursor, key)
        } else {
            (text, cursor)
        },
        _ => field_step(text, cursor, key),
    }
}

/// Typing a character and then Backspace gives the field back as it was.
pub proof fn lemma_backspace_undoes_typing(text: Seq<char>, cursor: int, c: char)
    requires
        0 <= cursor <= text.len(),
    ensures
        ({
            let (t, k) = field_step(text, cursor, DialogKey::Char(c));
            field_step(t, k, DialogKey::Backspace) == (text, cursor)
        }),
{
    let t = text.insert(cursor, c);
    assert(t.remove(cursor) =~= text);
}

/// A one-line text field with a cursor.
pub struct TextField {
    chars: Vec<char>,
    cursor: usize,
}

impl TextField {
    #[verifier::type_invariant]
    spec fn cursor_in_text(self) -> bool {
        self.cursor <= self.chars@.len()
    }

    /// The text of the field.
    pub closed spec fn text(self) -> Seq<char> {
        self.chars@
    }

    /// The cursor: the number of characters before it.
    pub closed spec fn cursor(self) -> int {
        self.cursor as int
    }

    /// A field holding `chars`, with the cursor at the beginning.
    pub fn new(chars: Vec<char>) -> (r: TextField)
        ensures
            r.text() == chars@,
            r.cursor() == 0,
    {
        TextField { chars, cursor: 0 }
    }

    /// The text of the field.
    pub fn content(&self) -> (r: String)
        ensures
            r@ == self.text(),
    {
        string_from_chars(self.chars.as_slice())
    }

    /// The cursor, which lies within the text.
    pub fn cursor_position(&self) -> (r: usize)
        ensures
            r == self.cursor(),
            r <= self.text().len(),
    {
        proof {
            use_type_invariant(self);
        }
        self.cursor
    }

    /// Applies a key to the field.
    pub fn step(&mut self, key: DialogKey)
        ensures
            (final(self).text(), final(self).cursor()) == field_step(old(self).text(), old(self).cursor(), key),
            final(self).cursor() <= final(self).text().len(),
    {
        proof {
            use_type_invariant(&*self);
        }
        let c = self.cursor;
        self.cursor = 0;
        let mut chars: Vec<char> = Vec::new();
        std::mem::swap(&mut chars, &mut self.chars);
        let n = chars.len();
        let next: usize = match key {
            DialogKey::Char(ch) => {
                chars.insert(c, ch);
                let grown = chars.len();
                assert(c < grown);
                c + 1
            },
            DialogKey::Backspace => if c == 0 {
                c
            } else {
                chars.remove(c - 1);
                c - 1
            },
            DialogKey::Delete => {
                if c < n {
                    chars.remove(c);
                }
                c
            },
            DialogKey::Left => if c == 0 {
                c
            } else {
                c - 1
            },
            DialogKey::Right => if c < n {
                c + 1
            } else {
                c
            },
            DialogKey::Home => 0,
            DialogKey::End => n,
            _ => c,
        };
        self.chars = chars;
        self.cursor = next;
    }
}

/// The dialog that edits one line.
pub struct LineEditDialog<Keys: GenericKeys> {
    value: TextField,
    key: KeysComboBox<Keys>,
    raw: TextField,
    active: Field,
    is_insert: bool,
}

/// The key of the drop-down list that a dialog key stands for.
pub open spec fn combo_key(key: DialogKey) -> ComboKey {
    match key {
        DialogKey::Esc => ComboKey::Esc,
        DialogKey::Enter => ComboKey::Enter,
        DialogKey::Backspace => ComboKey::Backspace,
        DialogKey::Up => ComboKey::Up,
        DialogKey::Down => ComboKey::Down,
        DialogKey::Char(c) => ComboKey::Char(c),
        _ => ComboKey::Other,
    }
}

fn to_combo_key(key: DialogKey) -> (r: ComboKey)
    ensures
        r == combo_key(key),
{
    match key {
        DialogKey::Esc => ComboKey::Esc,
        DialogKey::Enter => ComboKey::Enter,
        DialogKey::Backspace => ComboKey::Backspace,
        DialogKey::Up => ComboKey::Up,
        DialogKey::Down => ComboKey::Down,
        DialogKey::Char(c) => ComboKey::Char(c),
        _ => ComboKey::Other,
    }
}

impl<Keys: GenericKeys> LineEditDialog<Keys> {
    /// The value field.
    pub closed spec fn value_field(self) -> TextField {
        self.value
    }

    /// The raw line field.
    pub closed spec fn raw_field(self) -> TextField {
        self.raw
    }

    /// The text of the value field.
    pub open spec fn value_text(self) -> Seq<char> {
        self.value_field().text()
    }

    /// The text of the raw line field.
    pub open spec fn raw_text(self) -> Seq<char> {
        self.raw_field().text()
    }

    /// The drop-down list of keys.
    pub closed spec fn key_box(self) -> KeysComboBox<Keys> {
        self.key
    }

    /// The field that takes the keys.
    pub closed spec fn active_field(self) -> Field {
        self.active
    }

    /// Whether the dialog makes a new line rather than editing one.
    pub closed spec fn inserting(self) -> bool {
        self.is_insert
    }

    /// A dialog for a new line: value `0`, the first key, no raw line.
    pub fn new_insert(options: Vec<(Keys, String)>) -> (r: Self)
        requires
            options@.len() > 0,
        ensures
            r.value_text() == seq!['0'],
            r.value_field().cursor() == 0,
            r.raw_text() == Seq::<char>::empty(),
            r.raw_field().cursor() == 0,
            r.key_box().item() == options@[0].0,
            r.key_box().options() == options@,
            r.key_box().shown() == option_keys(options@),
            r.key_box().input() == Seq::<char>::empty(),
            r.key_box().highlighted() == Some(0usize),
            !r.key_box().open(),
            r.active_field() == Field::Key,
            r.inserting(),
    {
        LineEditDialog {
            value: TextField::new(vec!['0']),
            key: KeysComboBox::new(options),
            raw: TextField::new(Vec::new()),
            active: Field::Key,
            is_insert: true,
        }
    }

    /// A dialog on an existing line: its value in roubles, its key, its raw
    /// line.
    pub fn new_edit(options: Vec<(Keys, String)>, line: ParsedLineInfo<Keys>) -> (r: Self)
        requires
            exists|i: int| 0 <= i < options@.len() && (#[trigger] options@[i]).0 == line.key,
        ensures
            r.value_text() == decimal_string(line.value@),
            r.value_field().cursor() == 0,
            r.raw_text() == line.original_line@,
            r.raw_field().cursor() == 0,
            r.key_box().item() == line.key,
            r.key_box().options() == options@,
            r.key_box().shown() == option_keys(options@),
            r.key_box().input() == Seq::<char>::empty(),
            r.key_box().highlighted() == Some(first_index_of(option_keys(options@), line.key) as usize),
            !r.key_box().open(),
            r.active_field() == Field::Key,
            !r.inserting(),
    {
        let value = decimal_string_of(line.value.in_roubles());
        let raw = crate::text::chars_of(line.original_line.as_str());
        LineEditDialog {
            value: TextField::new(value),
            key: KeysComboBox::new_with_selection(options, line.key),
            raw: TextField::new(raw),
            active: Field::Key,
            is_insert: false,
        }
    }

    /// Whether the dialog makes a new line.
    pub fn is_insert(&self) -> (r: bool)
        ensures
            r == self.inserting(),
    {
        self.is_insert
    }

    /// The field that takes the keys.
    pub fn active(&self) -> (r: Field)
        ensures
            r == self.active_field(),
    {
        self.active
    }

    /// The drop-down list of keys.
    pub fn key(&self) -> (r: &KeysComboBox<Keys>)
        ensures
            *r == self.key_box(),
    {
        &self.key
    }

    /// The text of the value field.
    pub fn value(&self) -> (r: String)
        ensures
            r@ == self.value_text(),
    {
        self.value.content()
    }

    /// The cursor of the value field.
    pub fn value_cursor(&self) -> (r: usize)
        ensures
            r == self.value_field().cursor(),
            r <= self.value_text().len(),
    {
        self.value.cursor_position()
    }

    /// The text of the raw line field.
    pub fn raw(&self) -> (r: String)
        ensures
            r@ == self.raw_text(),
    {
        self.raw.content()
    }

    /// The cursor of the raw line field.
    pub fn raw_cursor(&self) -> (r: usize)
        ensures
            r == self.raw_field().cursor(),
            r <= self.raw_text().len(),
    {
        self.raw.cursor_position()
    }

    /// The line that the fields make, or why they make none.
    pub fn build_line(&self) -> (r: Result<ParsedLineInfo<Keys>, LineError>)
        ensures
            match parse_i64_spec(trimmed(self.value_text())) {
                None => r == Err::<ParsedLineInfo<Keys>, LineError>(LineError::BadValue),
                Some(v) => r matches Ok(line) && line.key == self.key_box().item() && line.value@ == v
                    && line.original_line@ == trimmed(self.raw_text()),
            },
    {
        let value = self.value.content();
        let raw = self.raw.content();
        build_line(value.as_str(), self.key.selected_item(), raw.as_str())
    }

    /// Reacts to a key. Esc cancels. Enter first closes an open list of
    /// keys; otherwise it commits the line when the fields make one, and
    /// keeps the dialog open when they do not. Tab and BackTab move between
    /// the fields. Other keys go to the active field; the value field only
    /// takes digits and signs.
    pub fn handle_key(&mut self, key: DialogKey) -> (r: EditDecision<Keys>)
        ensures
            final(self).inserting() == old(self).inserting(),
            match key {
                DialogKey::Esc => r is Cancel,
                DialogKey::Enter => if old(self).active_field() == Field::Key && old(self).key_box().open() {
                    r is Continue && combo_step(old(self).key_box(), ComboKey::Enter, final(self).key_box())
                        && final(self).value_field() == old(self).value_field() && final(self).raw_field() == old(
                        self,
                    ).raw_field() && final(self).active_field() == old(self).active_field()
                } else {
                    *final(self) == *old(self) && match parse_i64_spec(trimmed(old(self).value_text())) {
                        None => r is Continue,
                        Some(v) => r matches EditDecision::CommitOk(line) && line.key == old(self).key_box().item()
                            && line.value@ == v && line.original_line@ == trimmed(old(self).raw_text()),
                    }
                },
                DialogKey::Tab => r is Continue && field_index(final(self).active_field()) == (field_index(
                    old(self).active_field(),
                ) + 1) % 3 && final(self).value_field() == old(self).value_field() && final(self).raw_field() == old(
                    self,
                ).raw_field() && final(self).key_box() == old(self).key_box(),
                DialogKey::BackTab => r is Continue && field_index(final(self).active_field()) == (field_index(
                    old(self).active_field(),
                ) + 2) % 3 && final(self).value_field() == old(self).value_field() && final(self).raw_field() == old(
                    self,
                ).raw_field() && final(self).key_box() == old(self).key_box(),
                _ => r is Continue && final(self).active_field() == old(self).active_field() && match old(
                    self,
                ).active_field() {
                    Field::Value => final(self).raw_field() == old(self).raw_field() && final(self).key_box() == old(
                        self,
                    ).key_box() && (final(self).value_text(), final(self).value_field().cursor()) == value_field_step(
                        old(self).value_text(),
                        old(self).value_field().cursor(),
                        key,
                    ),
                    Field::Raw => final(self).value_field() == old(self).value_field() && final(self).key_box() == old(
                        self,
                    ).key_box() && (final(self).raw_text(), final(self).raw_field().cursor()) == field_step(
                        old(self).raw_text(),
                        old(self).raw_field().cursor(),
                        key,
                    ),
                    Field::Key => final(self).value_field() == old(self).value_field() && final(self).raw_field() == old(
                        self,
                    ).raw_field() && combo_step(old(self).key_box(), combo_key(key), final(self).key_box()),
                },
            },
    {
        match key {
            DialogKey::Esc => EditDecision::Cancel,
            DialogKey::Enter => {
                if self.active == Field::Key && self.key.is_open() {
                    self.key.handle_key(ComboKey::Enter);
                    EditDecision::Continue
                } else {
                    match self.build_line() {
                        Ok(line) => EditDecision::CommitOk(line),
                        Err(_) => EditDecision::Continue,
                    }
                }
            },
            DialogKey::Tab => {
                self.active = self.active.next();
                EditDecision::Continue
            },
            DialogKey::BackTab => {
                self.active = self.active.prev();
                EditDecision::Continue
            },
            _ => {
                match self.active {
                    Field::Value => {
                        let takes = match key {
                            DialogKey::Char(c) => accepts_value_char(c),
                            _ => true,
                        };
                        if takes {
                            self.value.step(key);
                        }
                    },
                    Field::Key => {
                        self.key.handle_key(to_combo_key(key));
                    },
                    Field::Raw => {
                        self.raw.step(key);
                    },
                }
                EditDecision::Continue
            },
        }
    }
}

} // verus!
