//! The state of the interactive editor of classified lines: which line is
//! selected, what each key does to the lines, and how the line dialog turns
//! its fields into a line. Drawing and reading keys are left to the program
//! around the library.
use vstd::prelude::*;
use crate::keys::{GenericKeys, ParsedLineInfo};
use crate::lines_classifier::is_unicode_whitespace;
use crate::money::Money;
use crate::text::{chars_of, parse_i64, parse_i64_spec, string_from_chars, trim_bounds, trim_where};

verus! {

/// How an editing session ends.
#[derive(Debug, Clone, Copy, PartialEq, Eq, Structural)]
pub enum EditResult {
    SaveAndClose,
    CloseWithoutSaving,
}

/// What the line dialog decided after a key.
#[derive(Debug)]
pub enum EditDecision<Keys: GenericKeys> {
    Continue,
    Cancel,
    CommitOk(ParsedLineInfo<Keys>),
}

/// A field of the line dialog.
#[derive(Debug, Clone, Copy, PartialEq, Eq, Structural)]
pub enum Field {
    Key,
    Value,
    Raw,
}

/// The fields of the line dialog, in order.
pub open spec fn field_order() -> Seq<Field> {
    seq![Field::Key, Field::Value, Field::Raw]
}

/// The position of a field in the dialog.
pub open spec fn field_index(f: Field) -> int {
    match f {
        Field::Key => 0,
        Field::Value => 1,
        Field::Raw => 2,
    }
}

/// The label of a field.
pub open spec fn field_label(f: Field) -> Seq<char> {
    match f {
        Field::Value => "Value (roubles)"@,
        Field::Key => "Key"@,
        Field::Raw => "Raw line"@,
    }
}

impl Field {
    /// The label of the field.
    pub fn label(self) -> (r: &'static str)
        ensures
            r@ == field_label(self),
    {
        match self {
            Field::Value => "Value (roubles)",
            Field::Key => "Key",
            Field::Raw => "Raw line",
        }
    }

    /// All fields, in order.
    pub fn all() -> (r: Vec<Field>)
        ensures
            r@ == field_order(),
    {
        vec![Field::Key, Field::Value, Field::Raw]
    }

    /// The length of the longest label, in characters.
    pub fn max_label_len() -> (r: usize)
        ensures
            forall|f: Field| field_label(f).len() <= r,
            exists|f: Field| field_label(f).len() == r,
    {
        let fields = Field::all();
        let mut result: usize = 0;
        let mut i: usize = 0;
        while i < fields.len()
            invariant
                i <= fields@.len(),
                fields@ == field_order(),
                forall|j: int| 0 <= j < i ==> field_label(#[trigger] fields@[j]).len() <= result,
                result == 0 || exists|j: int| 0 <= j < i && field_label(#[trigger] fields@[j]).len() == result,
            decreases fields@.len() - i,
        {
            let len = chars_of(fields[i].label()).len();
            if len > result {
                result = len;
            }
            i = i + 1;
        }
        proof {
            reveal_strlit("Key");
            assert(field_label(Field::Key).len() == 3);
            assert forall|f: Field| field_label(f).len() <= result by {
                assert(fields@[field_index(f)] == f);
            }
            let j = choose|j: int| 0 <= j < i && field_label(#[trigger] fields@[j]).len() == result;
            assert(field_label(fields@[j]).len() == result);
        }
        result
    }

    /// The next field, after the last the first.
    pub fn next(self) -> (r: Field)
        ensures
            field_index(r) == (field_index(self) + 1) % 3,
    {
        match self {
            Field::Key => Field::Value,
            Field::Value => Field::Raw,
            Field::Raw => Field::Key,
        }
    }

    /// The previous field, before the first the last.
    pub fn prev(self) -> (r: Field)
        ensures
            field_index(r) == (field_index(self) + 2) % 3,
    {
        match self {
            Field::Key => Field::Raw,
            Field::Value => Field::Key,
            Field::Raw => Field::Value,
        }
    }
}

/// Whether the value field takes a typed character: digits and signs only.
pub fn accepts_value_char(c: char) -> (r: bool)
    ensures
        r == (('0' <= c && c <= '9') || c == '+' || c == '-'),
{
    ('0' <= c && c <= '9') || c == '+' || c == '-'
}

pub(crate) fn whitespace_test(c: char) -> (r: bool)
    ensures
        r == is_unicode_whitespace(c),
{
    ('\u{9}' <= c && c <= '\u{D}') || c == ' ' || c == '\u{85}' || c == '\u{A0}' || c == '\u{1680}' || (
    '\u{2000}' <= c && c <= '\u{200A}') || c == '\u{2028}' || c == '\u{2029}' || c == '\u{202F}' || c
        == '\u{205F}' || c == '\u{3000}'
}

/// `s` without leading and trailing whitespace, as `str::trim` gives it.
pub open spec fn trimmed(s: Seq<char>) -> Seq<char> {
    trim_where(s, |c: char| is_unicode_whitespace(c))
}

/// The text of a field without leading and trailing whitespace.
pub fn trim_text(s: &str) -> (r: String)
    ensures
        r@ == trimmed(s@),
{
    let chars = chars_of(s);
    let (a, b) = trim_bounds(chars.as_slice(), Ghost(|c: char| is_unicode_whitespace(c)), whitespace_test);
    string_from_chars(&chars[a..b])
}

/// Why the dialog's fields do not make a line.
#[derive(Debug, Clone, Copy, PartialEq, Eq, Structural)]
pub enum LineError {
    /// The value field is not a whole number of roubles in the `i64` range.
    BadValue,
}

/// Makes a line of the dialog's fields: the trimmed value field read as
/// roubles, the chosen key, and the trimmed raw line.
pub fn build_line<Keys: GenericKeys>(value_text: &str, key: Keys, raw_text: &str) -> (r: Result<ParsedLineInfo<Keys>, LineError>)
    ensures
        match parse_i64_spec(trimmed(value_text@)) {
            None => r == Err::<ParsedLineInfo<Keys>, LineError>(LineError::BadValue),
            Some(v) => r matches Ok(line) && line.key == key && line.value@ == v && line.original_line@ == trimmed(
                raw_text@,
            ),
        },
{
    let value = trim_text(value_text);
    let chars = chars_of(value.as_str());
    match parse_i64(chars.as_slice()) {
        None => Err(LineError::BadValue),
        Some(roubles) => Ok(ParsedLineInfo { key, value: Money::from_roubles(roubles), original_line: trim_text(raw_text) }),
    }
}

// ---------------------------------------------------------------- the lines

/// A key pressed while moving through the lines.
#[derive(Debug, Clone, Copy, PartialEq, Eq, Structural)]
pub enum NavigationKey {
    /// `q` or Esc.
    Quit,
    Enter,
    Up,
    Down,
    /// `i`: insert a line before the selected one.
    Insert,
    /// `e`: edit the selected line.
    Edit,
    /// `d`: delete the selected line.
    Delete,
    Other,
}

/// What the editor does after a key pressed while moving through the lines.
#[derive(Debug, Clone, Copy, PartialEq, Eq, Structural)]
pub enum NavigationAction {
    /// The session ends.
    Finish(EditResult),
    /// Open the dialog for a new line.
    OpenInsertDialog,
    /// Open the dialog on the line at this position.
    OpenEditDialog(usize),
    /// The selected line was deleted.
    LineDeleted,
    /// Nothing to do beyond drawing again.
    Ignore,
}

/// The lines being edited and the selected position.
pub struct LinesEditor<Keys: GenericKeys> {
    parsed_lines: Vec<ParsedLineInfo<Keys>>,
    selected_index: usize,
}

/// The selected line: the selected position, kept within the lines.
pub open spec fn selected_of(len: int, index: int) -> Option<int> {
    if len == 0 {
        None
    } else if index < len - 1 {
        Some(index)
    } else {
        Some(len - 1)
    }
}

impl<Keys: GenericKeys> LinesEditor<Keys> {
    #[verifier::type_invariant]
    spec fn index_in_range(self) -> bool {
        self.selected_index == 0 || self.selected_index < self.parsed_lines@.len()
    }

    /// The lines.
    pub closed spec fn lines(self) -> Seq<ParsedLineInfo<Keys>> {
        self.parsed_lines@
    }

    /// The selected position, before it is kept within the lines.
    pub closed spec fn index(self) -> int {
        self.selected_index as int
    }

    /// Whether the selected position lies within the lines (or is the first
    /// position, when there are none).
    pub open spec fn selection_in_range(self) -> bool {
        self.index() == 0 || self.index() < self.lines().len()
    }

    /// Starts editing `parsed_lines`, with the first line selected.
    pub fn new(parsed_lines: Vec<ParsedLineInfo<Keys>>) -> (r: LinesEditor<Keys>)
        ensures
            r.lines() == parsed_lines@,
            r.index() == 0,
            r.selection_in_range(),
    {
        LinesEditor { parsed_lines, selected_index: 0 }
    }

    /// The lines as they are now.
    pub fn result_lines(&self) -> (r: &Vec<ParsedLineInfo<Keys>>)
        ensures
            r@ == self.lines(),
    {
        &self.parsed_lines
    }

    /// Ends the session and gives the lines.
    pub fn into_lines(self) -> (r: Vec<ParsedLineInfo<Keys>>)
        ensures
            r@ == self.lines(),
    {
        self.parsed_lines
    }

    /// The position of the selected line; `None` when there are no lines.
    pub fn selected(&self) -> (r: Option<usize>)
        ensures
            match selected_of(self.lines().len() as int, self.index()) {
                None => r is None,
                Some(i) => r == Some(i as usize),
            },
            r matches Some(i) ==> i < self.lines().len(),
    {
        let n = self.parsed_lines.len();
        if n == 0 {
            None
        } else if self.selected_index < n - 1 {
            Some(self.selected_index)
        } else {
            Some(n - 1)
        }
    }

    /// Reacts to a key. Up and Down move the selection round the lines;
    /// Delete removes the selected line and keeps the selection within the
    /// lines that are left.
    pub fn handle_navigation_key(&mut self, key: NavigationKey) -> (r: NavigationAction)
        ensures
            final(self).selection_in_range(),
            ({
                let n = old(self).lines().len() as int;
                let sel = selected_of(n, old(self).index());
                match key {
                    NavigationKey::Quit => r == NavigationAction::Finish(EditResult::CloseWithoutSaving)
                        && *final(self) == *old(self),
                    NavigationKey::Enter => r == NavigationAction::Finish(EditResult::SaveAndClose)
                        && *final(self) == *old(self),
                    NavigationKey::Up => r == NavigationAction::Ignore && final(self).lines() == old(self).lines()
                        && final(self).index() == (if n == 0 {
                        old(self).index()
                    } else if old(self).index() == 0 {
                        n - 1
                    } else {
                        old(self).index() - 1
                    }),
                    NavigationKey::Down => r == NavigationAction::Ignore && final(self).lines() == old(self).lines()
                        && final(self).index() == (if n == 0 {
                        old(self).index()
                    } else if old(self).index() + 1 >= n {
                        0
                    } else {
                        old(self).index() + 1
                    }),
                    NavigationKey::Insert => r == NavigationAction::OpenInsertDialog && *final(self) == *old(self),
                    NavigationKey::Edit => *final(self) == *old(self) && match sel {
                        Some(i) => r == NavigationAction::OpenEditDialog(i as usize),
                        None => r == NavigationAction::Ignore,
                    },
                    NavigationKey::Delete => match sel {
                        None => r == NavigationAction::Ignore && *final(self) == *old(self),
                        Some(i) => r == NavigationAction::LineDeleted && final(self).lines() == old(self).lines().remove(i)
                            && final(self).index() == (if n == 1 { 0 } else if i < n - 2 { i } else { n - 2 }),
                    },
                    NavigationKey::Other => r == NavigationAction::Ignore && *final(self) == *old(self),
                }
            }),
    {
        proof {
            use_type_invariant(&*self);
        }
        match key {
            NavigationKey::Quit => NavigationAction::Finish(EditResult::CloseWithoutSaving),
            NavigationKey::Enter => NavigationAction::Finish(EditResult::SaveAndClose),
            NavigationKey::Up => {
                let n = self.parsed_lines.len();
                if n > 0 {
                    self.selected_index = if self.selected_index == 0 {
                        n - 1
                    } else {
                        self.selected_index - 1
                    };
                }
                NavigationAction::Ignore
            },
            NavigationKey::Down => {
                let n = self.parsed_lines.len();
                if n > 0 {
                    self.selected_index = if self.selected_index + 1 >= n {
                        0
                    } else {
                        self.selected_index + 1
                    };
                }
                NavigationAction::Ignore
            },
            NavigationKey::Insert => NavigationAction::OpenInsertDialog,
            NavigationKey::Edit => match self.selected() {
                Some(i) => NavigationAction::OpenEditDialog(i),
                None => NavigationAction::Ignore,
            },
            NavigationKey::Delete => match self.selected() {
                None => NavigationAction::Ignore,
                Some(i) => {
                    self.selected_index = 0;
                    let mut lines: Vec<ParsedLineInfo<Keys>> = Vec::new();
                    std::mem::swap(&mut lines, &mut self.parsed_lines);
                    lines.remove(i);
                    let len = lines.len();
                    let idx = if len == 0 {
                        0
                    } else if i < len - 1 {
                        i
                    } else {
                        len - 1
                    };
                    self.parsed_lines = lines;
                    self.selected_index = idx;
                    NavigationAction::LineDeleted
                },
            },
            NavigationKey::Other => NavigationAction::Ignore,
        }
    }

    /// Puts a line from the dialog into the lines: a new line goes before
    /// the selected one (at the end when there are no lines); an edited line
    /// replaces the selected one.
    pub fn commit(&mut self, line: ParsedLineInfo<Keys>, is_insert: bool)
        requires
            !is_insert ==> old(self).lines().len() > 0,
        ensures
            final(self).index() == old(self).index(),
            final(self).selection_in_range(),
            is_insert ==> final(self).lines() == old(self).lines().insert(
                match selected_of(old(self).lines().len() as int, old(self).index()) {
                    Some(i) => i,
                    None => old(self).lines().len() as int,
                },
                line,
            ),
            !is_insert ==> final(self).lines() == old(self).lines().update(
                selected_of(old(self).lines().len() as int, old(self).index())->Some_0,
                line,
            ),
    {
        proof {
            use_type_invariant(&*self);
        }
        let saved = self.selected_index;
        self.selected_index = 0;
        let mut lines: Vec<ParsedLineInfo<Keys>> = Vec::new();
        std::mem::swap(&mut lines, &mut self.parsed_lines);
        let n = lines.len();
        let sel: Option<usize> = if n == 0 {
            None
        } else if saved < n - 1 {
            Some(saved)
        } else {
            Some(n - 1)
        };
        if is_insert {
            let idx = match sel {
                Some(i) => i,
                None => n,
            };
            lines.insert(idx, line);
        } else {
            let i = match sel {
                Some(i) => i,
                None => 0,
            };
            lines.set(i, line);
        }
        self.parsed_lines = lines;
        self.selected_index = saved;
    }
}


impl<Keys: GenericKeys> LinesEditor<Keys> {
    /// The number of lines.
    pub fn len(&self) -> (r: usize)
        ensures
            r == self.lines().len(),
    {
        self.parsed_lines.len()
    }

    /// The line at `n`.
    pub fn line(&self, n: usize) -> (r: &ParsedLineInfo<Keys>)
        requires
            n < self.lines().len(),
        ensures
            *r == self.lines()[n as int],
    {
        &self.parsed_lines[n]
    }

    /// Inserts `line` before the line at `n` (at the end when `n` is the
    /// number of lines). Refused when `n` is past the end.
    pub fn insert_line(&mut self, n: usize, line: ParsedLineInfo<Keys>) -> (r: bool)
        ensures
            r == (n <= old(self).lines().len()),
            r ==> final(self).lines() == old(self).lines().insert(n as int, line),
            !r ==> final(self).lines() == old(self).lines(),
            final(self).index() == old(self).index(),
            final(self).selection_in_range(),
    {
        proof {
            use_type_invariant(&*self);
        }
        if n > self.parsed_lines.len() {
            return false;
        }
        let saved = self.selected_index;
        self.selected_index = 0;
        let mut lines: Vec<ParsedLineInfo<Keys>> = Vec::new();
        std::mem::swap(&mut lines, &mut self.parsed_lines);
        lines.insert(n, line);
        self.parsed_lines = lines;
        self.selected_index = saved;
        true
    }

    /// Replaces the line at `n`. Refused when there is no line at `n`.
    pub fn replace_line(&mut self, n: usize, line: ParsedLineInfo<Keys>) -> (r: bool)
        ensures
            r == (n < old(self).lines().len()),
            r ==> final(self).lines() == old(self).lines().update(n as int, line),
            !r ==> final(self).lines() == old(self).lines(),
            final(self).index() == old(self).index(),
            final(self).selection_in_range(),
    {
        proof {
            use_type_invariant(&*self);
        }
        if n >= self.parsed_lines.len() {
            return false;
        }
        let saved = self.selected_index;
        self.selected_index = 0;
        let mut lines: Vec<ParsedLineInfo<Keys>> = Vec::new();
        std::mem::swap(&mut lines, &mut self.parsed_lines);
        lines.set(n, line);
        self.parsed_lines = lines;
        self.selected_index = saved;
        true
    }

    /// Deletes the line at `n`, keeping the selection within the lines that
    /// are left. Refused when there is no line at `n`.
    pub fn remove_line(&mut self, n: usize) -> (r: bool)
        ensures
            r == (n < old(self).lines().len()),
            r ==> final(self).lines() == old(self).lines().remove(n as int),
            r ==> final(self).index() == (if old(self).lines().len() == 1 {
                0
            } else if old(self).index() < old(self).lines().len() - 1 {
                old(self).index()
            } else {
                old(self).lines().len() - 2
            }),
            !r ==> *final(self) == *old(self),
            final(self).selection_in_range(),
    {
        proof {
            use_type_invariant(&*self);
        }
        if n >= self.parsed_lines.len() {
            return false;
        }
        let saved = self.selected_index;
        self.selected_index = 0;
        let mut lines: Vec<ParsedLineInfo<Keys>> = Vec::new();
        std::mem::swap(&mut lines, &mut self.parsed_lines);
        lines.remove(n);
        let len = lines.len();
        self.parsed_lines = lines;
        self.selected_index = if len == 0 {
            0
        } else if saved < len {
            saved
        } else {
            len - 1
        };
        true
    }
}

} // verus!
