//! The commands of the line-by-line editor that runs in a terminal: what a
//! typed command asks for, and what it does to the lines.
use vstd::prelude::*;
use crate::keys::{GenericKeys, ParsedLineInfo};
use crate::lines_classifier::is_unicode_whitespace;
use crate::lines_editor::whitespace_test;
use crate::money::Money;
use crate::text::{all_ascii_digits, chars_of, digit_value, digits_value, is_ascii_digit, parse_i64, parse_i64_spec};

verus! {

// ---------------------------------------------------------------- words

/// The words of `s` from `i` on, the current word having started at
/// `start`: the maximal runs of characters that are not whitespace, in
/// order. This is what `str::split_whitespace` gives.
pub open spec fn words_from(s: Seq<char>, start: int, i: int) -> Seq<Seq<char>>
    decreases s.len() - i,
{
    if i >= s.len() {
        if start < s.len() {
            seq![s.subrange(start, s.len() as int)]
        } else {
            Seq::empty()
        }
    } else if is_unicode_whitespace(s[i]) {
        (if start < i {
            seq![s.subrange(start, i)]
        } else {
            Seq::<Seq<char>>::empty()
        }) + words_from(s, i + 1, i + 1)
    } else {
        words_from(s, start, i + 1)
    }
}

/// The words of `s`.
pub open spec fn words(s: Seq<char>) -> Seq<Seq<char>> {
    words_from(s, 0, 0)
}

/// Splits `s` into its words.
pub fn split_words(s: &str) -> (r: Vec<Vec<char>>)
    ensures
        r@.len() == words(s@).len(),
        forall|k: int| 0 <= k < r@.len() ==> (#[trigger] r@[k])@ == words(s@)[k],
{
    let chars = chars_of(s);
    let n: usize = chars.len();
    let mut out: Vec<Vec<char>> = Vec::new();
    let mut start: usize = 0;
    let mut i: usize = 0;
    while i < n
        invariant
            start <= i <= n,
            n == chars@.len(),
            chars@ == s@,
            Seq::new(out@.len(), |k: int| out@[k]@) + words_from(chars@, start as int, i as int) == words(s@),
        decreases n - i,
    {
        if whitespace_test(chars[i]) {
            let ghost before = Seq::new(out@.len(), |k: int| out@[k]@);
            if start < i {
                let mut w: Vec<char> = Vec::new();
                let mut j: usize = start;
                while j < i
                    invariant
                        start <= j <= i,
                        i < n,
                        n == chars@.len(),
                        w@ == chars@.subrange(start as int, j as int),
                    decreases i - j,
                {
                    w.push(chars[j]);
                    j = j + 1;
                    assert(w@ =~= chars@.subrange(start as int, j as int));
                }
                out.push(w);
                assert(Seq::new(out@.len(), |k: int| out@[k]@) =~= before + seq![chars@.subrange(start as int, i as int)]);
            } else {
                assert(Seq::new(out@.len(), |k: int| out@[k]@) =~= before + Seq::<Seq<char>>::empty());
            }
            start = i + 1;
        }
        i = i + 1;
    }
    let ghost before = Seq::new(out@.len(), |k: int| out@[k]@);
    if start < n {
        let mut w: Vec<char> = Vec::new();
        let mut j: usize = start;
        while j < n
            invariant
                start <= j <= n,
                n == chars@.len(),
                w@ == chars@.subrange(start as int, j as int),
            decreases n - j,
        {
            w.push(chars[j]);
            j = j + 1;
            assert(w@ =~= chars@.subrange(start as int, j as int));
        }
        out.push(w);
        assert(Seq::new(out@.len(), |k: int| out@[k]@) =~= before + seq![chars@.subrange(start as int, n as int)]);
    } else {
        assert(Seq::new(out@.len(), |k: int| out@[k]@) =~= before + Seq::<Seq<char>>::empty());
    }
    let ghost all = Seq::new(out@.len(), |k: int| out@[k]@);
    assert forall|k: int| 0 <= k < out@.len() implies (#[trigger] out@[k])@ == words(s@)[k] by {
        assert(all[k] == out@[k]@);
    }
    out
}

// ---------------------------------------------------------------- numbers

/// What `usize::from_str` gives: an optional `+`, then one or more ASCII
/// digits, within the `usize` range.
pub open spec fn parse_usize_spec(s: Seq<char>) -> Option<usize> {
    let body = if s.len() > 0 && s[0] == '+' {
        s.drop_first()
    } else {
        s
    };
    if body.len() == 0 || !all_ascii_digits(body) || digits_value(body) > usize::MAX {
        None
    } else {
        Some(digits_value(body) as usize)
    }
}

proof fn lemma_digits_value_nonneg(s: Seq<char>)
    requires
        all_ascii_digits(s),
    ensures
        digits_value(s) >= 0,
    decreases s.len(),
{
    if s.len() > 0 {
        lemma_digits_value_nonneg(s.drop_last());
    }
}

/// A longer run of digits is worth at least as much.
proof fn lemma_digits_value_grows(s: Seq<char>, k: int)
    requires
        all_ascii_digits(s),
        0 <= k <= s.len(),
    ensures
        digits_value(s.take(k)) <= digits_value(s),
    decreases s.len() - k,
{
    if k < s.len() {
        lemma_digits_value_grows(s, k + 1);
        assert(s.take(k + 1).drop_last() =~= s.take(k));
        lemma_digits_value_nonneg(s.take(k));
    } else {
        assert(s.take(k) =~= s);
    }
}

/// Parses `s` as `usize::from_str` does.
pub fn parse_usize(s: &[char]) -> (r: Option<usize>)
    ensures
        r == parse_usize_spec(s@),
{
    let n: usize = s.len();
    let start: usize = if n > 0 && s[0] == '+' {
        1
    } else {
        0
    };
    let ghost body = if n > 0 && s@[0] == '+' {
        s@.drop_first()
    } else {
        s@
    };
    assert(body =~= s@.skip(start as int));
    if start == n {
        return None;
    }
    let mut k: usize = start;
    let mut value: usize = 0;
    while k < n
        invariant
            start <= k <= n,
            n == s@.len(),
            body == s@.skip(start as int),
            body == (if s@.len() > 0 && s@[0] == '+' {
                s@.drop_first()
            } else {
                s@
            }),
            all_ascii_digits(body.take(k - start)),
            value == digits_value(body.take(k - start)),
        decreases n - k,
    {
        let c = s[k];
        if !('0' <= c && c <= '9') {
            proof {
                assert(body[k - start] == c);
                assert(!is_ascii_digit(body[k - start]));
            }
            return None;
        }
        let d: usize = (c as u32 - '0' as u32) as usize;
        let ghost next = body.take(k - start + 1);
        assert(next.drop_last() =~= body.take(k - start));
        assert(next.last() == c);
        assert(d == digit_value(c));
        assert(all_ascii_digits(next)) by {
            assert forall|j: int| 0 <= j < next.len() implies is_ascii_digit(#[trigger] next[j]) by {
                if j < next.len() - 1 {
                    assert(next[j] == body.take(k - start)[j]);
                }
            }
        }
        let times_ten = match value.checked_mul(10) {
            Some(v) => v,
            None => {
                proof {
                    lemma_digits_value_nonneg(next.drop_last());
                    assert(digits_value(next) > usize::MAX);
                    lemma_too_large(body, k - start + 1);
                }
                return None;
            },
        };
        let v = match times_ten.checked_add(d) {
            Some(v) => v,
            None => {
                proof {
                    assert(digits_value(next) > usize::MAX);
                    lemma_too_large(body, k - start + 1);
                }
                return None;
            },
        };
        value = v;
        k = k + 1;
        assert(all_ascii_digits(body.take(k - start)));
    }
    assert(body.take(k - start) =~= body);
    Some(value)
}

/// Once a prefix of digits is worth more than `usize::MAX`, the text does
/// not parse.
proof fn lemma_too_large(body: Seq<char>, k: int)
    requires
        0 < k <= body.len(),
        all_ascii_digits(body.take(k)),
        digits_value(body.take(k)) > usize::MAX,
    ensures
        body.len() == 0 || !all_ascii_digits(body) || digits_value(body) > usize::MAX,
{
    if all_ascii_digits(body) {
        lemma_digits_value_grows(body, k);
    }
}

// ---------------------------------------------------------------- commands

/// A command typed at the editor's prompt.
#[derive(Debug, Clone, Copy, PartialEq, Eq, Structural)]
pub enum EditorCommand {
    /// An empty line: editing is done.
    Finish,
    /// `p`: print the lines.
    Print,
    /// `i <number>`: add a line before the given one.
    Insert(usize),
    /// `e <number>`: edit a line.
    Edit(usize),
    /// `d <number>`: delete a line.
    Delete(usize),
    /// Anything else.
    Wrong,
}

/// The number that a command gives: exactly one word after the command.
pub open spec fn single_number(w: Seq<Seq<char>>) -> Option<usize> {
    if w.len() != 2 {
        None
    } else {
        parse_usize_spec(w[1])
    }
}

/// The command that a typed line gives.
pub open spec fn command_of(cmd: Seq<char>) -> EditorCommand {
    let w = words(cmd);
    if cmd.len() == 0 {
        EditorCommand::Finish
    } else if w.len() == 0 {
        EditorCommand::Wrong
    } else if w[0] == seq!['i'] {
        match single_number(w) {
            Some(n) => EditorCommand::Insert(n),
            None => EditorCommand::Wrong,
        }
    } else if w[0] == seq!['e'] {
        match single_number(w) {
            Some(n) => EditorCommand::Edit(n),
            None => EditorCommand::Wrong,
        }
    } else if w[0] == seq!['d'] {
        match single_number(w) {
            Some(n) => EditorCommand::Delete(n),
            None => EditorCommand::Wrong,
        }
    } else if w[0] == seq!['p'] {
        EditorCommand::Print
    } else {
        EditorCommand::Wrong
    }
}

fn is_letter_word(w: &Vec<char>, c: char) -> (r: bool)
    ensures
        r == (w@ == seq![c]),
{
    if w.len() == 1 && w[0] == c {
        assert(w@ =~= seq![c]);
        true
    } else {
        proof {
            if w@ == seq![c] {
                assert(w@.len() == 1 && w@[0] == c);
            }
        }
        false
    }
}

/// Reads a typed command.
pub fn parse_editor_command(cmd: &str) -> (r: EditorCommand)
    ensures
        r == command_of(cmd@),
{
    let w = split_words(cmd);
    let ghost ws = words(cmd@);
    if chars_of(cmd).len() == 0 {
        return EditorCommand::Finish;
    }
    if w.len() == 0 {
        return EditorCommand::Wrong;
    }
    let number: Option<usize> = if w.len() == 2 {
        parse_usize(w[1].as_slice())
    } else {
        None
    };
    assert(number == single_number(ws));
    if is_letter_word(&w[0], 'i') {
        match number {
            Some(n) => EditorCommand::Insert(n),
            None => EditorCommand::Wrong,
        }
    } else if is_letter_word(&w[0], 'e') {
        match number {
            Some(n) => EditorCommand::Edit(n),
            None => EditorCommand::Wrong,
        }
    } else if is_letter_word(&w[0], 'd') {
        match number {
            Some(n) => EditorCommand::Delete(n),
            None => EditorCommand::Wrong,
        }
    } else if is_letter_word(&w[0], 'p') {
        EditorCommand::Print
    } else {
        EditorCommand::Wrong
    }
}

/// A command typed while editing one line.
#[derive(Debug, Clone, Copy, PartialEq, Eq, Structural)]
pub enum LineCommand {
    /// An empty line: the line is done.
    Finish,
    /// `v`: enter a new value.
    Value,
    /// `k`: enter a new key.
    Key,
    /// Anything else.
    Wrong,
}

/// Reads a command typed while editing one line.
pub fn parse_line_command(cmd: &str) -> (r: LineCommand)
    ensures
        r == (if cmd@.len() == 0 {
            LineCommand::Finish
        } else if cmd@ == seq!['v'] {
            LineCommand::Value
        } else if cmd@ == seq!['k'] {
            LineCommand::Key
        } else {
            LineCommand::Wrong
        }),
{
    let chars = chars_of(cmd);
    if chars.len() == 0 {
        LineCommand::Finish
    } else if is_letter_word(&chars, 'v') {
        LineCommand::Value
    } else if is_letter_word(&chars, 'k') {
        LineCommand::Key
    } else {
        LineCommand::Wrong
    }
}

/// Reads a value typed in roubles, as `i64::from_str` does.
pub fn parse_roubles(s: &str) -> (r: Option<Money>)
    ensures
        match parse_i64_spec(s@) {
            None => r is None,
            Some(v) => r matches Some(m) && m@ == v,
        },
{
    let chars = chars_of(s);
    match parse_i64(chars.as_slice()) {
        Some(v) => Some(Money::from_roubles(v)),
        None => None,
    }
}

/// The line that an insertion starts from: the default key, zero, and no
/// recognised text.
pub fn blank_line<Keys: GenericKeys>() -> (r: ParsedLineInfo<Keys>)
    ensures
        is_default_key_line(r),
{
    ParsedLineInfo { key: Keys::default_key(), value: Money::zero(), original_line: String::new() }
}

/// Whether a line is blank: the default key, zero, and no text.
pub open spec fn is_default_key_line<Keys: GenericKeys>(l: ParsedLineInfo<Keys>) -> bool {
    &&& crate::keys::is_default_key(l.key)
    &&& l.value@ == 0
    &&& l.original_line@ == Seq::<char>::empty()
}

} // verus!
