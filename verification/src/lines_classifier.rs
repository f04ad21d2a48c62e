//! Turning recognised report lines into classified lines: a line is split
//! into columns, its title is looked up among known titles, and the amount
//! of the current period is read.
use vstd::prelude::*;
use crate::keys::{is_default_key, GenericKeys, ParsedLineInfo};
use crate::keys_dict::KeysDict;
use crate::money::{fits_i64, lemma_money_range, unit_roubles, Money, MoneyMultiplier};
use crate::report_error::ParseError;
use crate::text::{
    chars_of, lowercase_of, parse_i64, parse_i64_spec, string_from_chars, to_lowercase, trim_bounds,
    trim_where,
};

verus! {

broadcast use lemma_money_range;

// ---------------------------------------------------------------- columns

/// The columns of a line: the pieces of `s` between occurrences of two
/// spaces, taken leftmost first, with empty pieces dropped. This is what
/// `s.split("  ")` gives once the empty pieces are filtered out. `start` is
/// where the current piece began and `i` where the scan has got to.
pub open spec fn columns_from(s: Seq<char>, start: int, i: int) -> Seq<Seq<char>>
    decreases s.len() - i,
{
    if i + 1 >= s.len() {
        if start < s.len() {
            seq![s.subrange(start, s.len() as int)]
        } else {
            Seq::empty()
        }
    } else if s[i] == ' ' && s[i + 1] == ' ' {
        (if i > start {
            seq![s.subrange(start, i)]
        } else {
            Seq::<Seq<char>>::empty()
        }) + columns_from(s, i + 2, i + 2)
    } else {
        columns_from(s, start, i + 1)
    }
}

/// The columns of a line.
pub open spec fn line_columns(s: Seq<char>) -> Seq<Seq<char>> {
    columns_from(s, 0, 0)
}

/// The pieces of `s` that a list of ranges picks out.
pub open spec fn ranges_text(s: Seq<char>, rs: Seq<(usize, usize)>) -> Seq<Seq<char>> {
    Seq::new(rs.len(), |k: int| s.subrange(rs[k].0 as int, rs[k].1 as int))
}

/// The ranges of the columns of `s`.
fn column_ranges(s: &[char]) -> (r: Vec<(usize, usize)>)
    ensures
        forall|k: int| 0 <= k < r@.len() ==> (#[trigger] r@[k]).0 <= r@[k].1 <= s@.len(),
        ranges_text(s@, r@) == line_columns(s@),
{
    let n: usize = s.len();
    let mut ranges: Vec<(usize, usize)> = Vec::new();
    let mut start: usize = 0;
    let mut i: usize = 0;
    while i < n && i + 1 < n
        invariant
            start <= i <= n,
            n == s@.len(),
            forall|k: int| 0 <= k < ranges@.len() ==> (#[trigger] ranges@[k]).0 <= ranges@[k].1 <= n,
            ranges_text(s@, ranges@) + columns_from(s@, start as int, i as int) == line_columns(s@),
        decreases n - i,
    {
        if s[i] == ' ' && s[i + 1] == ' ' {
            let ghost before = ranges@;
            if i > start {
                ranges.push((start, i));
                assert(ranges_text(s@, ranges@) =~= ranges_text(s@, before) + seq![
                    s@.subrange(start as int, i as int),
                ]);
            }
            start = i + 2;
            i = i + 2;
        } else {
            i = i + 1;
        }
    }
    let ghost before = ranges@;
    if start < n {
        ranges.push((start, n));
        assert(ranges_text(s@, ranges@) =~= ranges_text(s@, before) + seq![
            s@.subrange(start as int, n as int),
        ]);
    } else {
        assert(ranges_text(s@, ranges@) =~= ranges_text(s@, before) + Seq::<Seq<char>>::empty());
    }
    ranges
}

/// Splits a line into its columns.
pub fn split_line_to_tokens(line: &str) -> (r: Vec<String>)
    ensures
        r@.len() == line_columns(line@).len(),
        forall|k: int| 0 <= k < r@.len() ==> (#[trigger] r@[k])@ == line_columns(line@)[k],
{
    let chars = chars_of(line);
    let ranges = column_ranges(chars.as_slice());
    let mut tokens: Vec<String> = Vec::new();
    let mut k: usize = 0;
    while k < ranges.len()
        invariant
            k <= ranges@.len(),
            chars@ == line@,
            forall|j: int| 0 <= j < ranges@.len() ==> (#[trigger] ranges@[j]).0 <= ranges@[j].1 <= chars@.len(),
            ranges_text(chars@, ranges@) == line_columns(line@),
            tokens@.len() == k,
            forall|j: int| 0 <= j < k ==> (#[trigger] tokens@[j])@ == line_columns(line@)[j],
        decreases ranges@.len() - k,
    {
        let (a, b) = ranges[k];
        let piece = string_from_chars(&chars[a..b]);
        assert(piece@ == ranges_text(chars@, ranges@)[k as int]);
        tokens.push(piece);
        k = k + 1;
    }
    tokens
}

// ---------------------------------------------------------------- pages

/// The lines of a recognised page from `i` on, the current line having
/// started at `start`: the pieces between newline characters, empty pieces
/// kept, as `str::split('\n')` gives them.
pub open spec fn page_lines_from(s: Seq<char>, start: int, i: int) -> Seq<Seq<char>>
    decreases s.len() - i,
{
    if i >= s.len() {
        seq![s.subrange(start, s.len() as int)]
    } else if s[i] == '\n' {
        seq![s.subrange(start, i)] + page_lines_from(s, i + 1, i + 1)
    } else {
        page_lines_from(s, start, i + 1)
    }
}

/// The lines of a recognised page.
pub open spec fn page_lines(s: Seq<char>) -> Seq<Seq<char>> {
    page_lines_from(s, 0, 0)
}

/// Splits the recognised text of a page into its lines.
pub fn split_page_text(text: &str) -> (r: Vec<String>)
    ensures
        r@.len() == page_lines(text@).len(),
        forall|k: int| 0 <= k < r@.len() ==> (#[trigger] r@[k])@ == page_lines(text@)[k],
{
    let chars = chars_of(text);
    let n: usize = chars.len();
    let mut out: Vec<String> = Vec::new();
    let mut start: usize = 0;
    let mut i: usize = 0;
    while i < n
        invariant
            start <= i <= n,
            n == chars@.len(),
            chars@ == text@,
            Seq::new(out@.len(), |k: int| out@[k]@) + page_lines_from(chars@, start as int, i as int) == page_lines(
                text@,
            ),
        decreases n - i,
    {
        if chars[i] == '\n' {
            let ghost before = Seq::new(out@.len(), |k: int| out@[k]@);
            let piece = string_from_chars(&chars[start..i]);
            out.push(piece);
            assert(Seq::new(out@.len(), |k: int| out@[k]@) =~= before + seq![chars@.subrange(start as int, i as int)]);
            start = i + 1;
        }
        i = i + 1;
    }
    let ghost before = Seq::new(out@.len(), |k: int| out@[k]@);
    let piece = string_from_chars(&chars[start..n]);
    out.push(piece);
    assert(Seq::new(out@.len(), |k: int| out@[k]@) =~= before + seq![chars@.subrange(start as int, n as int)]);
    let ghost all = Seq::new(out@.len(), |k: int| out@[k]@);
    assert forall|k: int| 0 <= k < out@.len() implies (#[trigger] out@[k])@ == page_lines(text@)[k] by {
        assert(all[k] == out@[k]@);
    }
    out
}

// ---------------------------------------------------------------- titles

/// A lowercase Russian letter, `а..=я`.
pub open spec fn is_russian_letter(c: char) -> bool {
    '\u{430}' <= c && c <= '\u{44F}'
}

/// Russian letters stay, anything else becomes a space.
pub open spec fn title_char(c: char) -> char {
    if is_russian_letter(c) {
        c
    } else {
        ' '
    }
}

pub open spec fn is_space(c: char) -> bool {
    c == ' '
}

/// The title of a lowercased first column: its Russian letters, with every
/// other character turned into a space and the spaces at both ends removed.
/// This strips what the recognition left around the words.
pub open spec fn title_of_lowercase(l: Seq<char>) -> Seq<char> {
    trim_where(l.map_values(|c: char| title_char(c)), |c: char| is_space(c))
}

/// A title as classifiers are handed it: lowercase Russian letters and
/// spaces, with no space at either end.
pub open spec fn is_title(s: Seq<char>) -> bool {
    &&& forall|i: int| 0 <= i < s.len() ==> is_russian_letter(#[trigger] s[i]) || is_space(s[i])
    &&& s.len() > 0 ==> !is_space(s[0]) && !is_space(s.last())
}

/// The title of a first column.
pub open spec fn line_title(column: Seq<char>) -> Seq<char> {
    title_of_lowercase(lowercase_of(column))
}

fn space_test(c: char) -> (r: bool)
    ensures
        r == is_space(c),
{
    c == ' '
}

/// The title of an already lowercased first column.
pub fn token_from_lowercase(lower: &str) -> (r: String)
    ensures
        r@ == title_of_lowercase(lower@),
        is_title(r@),
{
    let chars = chars_of(lower);
    let mut masked: Vec<char> = Vec::new();
    let mut i: usize = 0;
    while i < chars.len()
        invariant
            i <= chars@.len(),
            chars@ == lower@,
            masked@ == chars@.take(i as int).map_values(|c: char| title_char(c)),
        decreases chars@.len() - i,
    {
        let c = chars[i];
        let m = if '\u{430}' <= c && c <= '\u{44F}' {
            c
        } else {
            ' '
        };
        masked.push(m);
        i = i + 1;
        assert(masked@ =~= chars@.take(i as int).map_values(|c: char| title_char(c)));
    }
    assert(chars@.take(i as int) =~= chars@);
    let (a, b) = trim_bounds(masked.as_slice(), Ghost(|c: char| is_space(c)), space_test);
    let r = string_from_chars(&masked[a..b]);
    proof {
        assert forall|j: int| 0 <= j < masked@.len() implies is_russian_letter(#[trigger] masked@[j]) || is_space(
            masked@[j],
        ) by {
            assert(masked@[j] == title_char(chars@[j]));
        }
        assert(r@ =~= masked@.subrange(a as int, b as int));
        assert forall|k: int| 0 <= k < r@.len() implies is_russian_letter(#[trigger] r@[k]) || is_space(r@[k]) by {
            assert(r@[k] == masked@[a + k]);
        }
    }
    r
}

/// The title of the first column of a line split into columns.
pub fn get_line_token(tokens: &[String]) -> (r: String)
    requires
        tokens@.len() > 0,
    ensures
        r@ == line_title(tokens@[0]@),
        is_title(r@),
{
    let lower = to_lowercase(tokens[0].as_str());
    token_from_lowercase(lower.as_str())
}

// ---------------------------------------------------------------- amounts

/// `char::is_whitespace`: the Unicode `White_Space` property.
pub open spec fn is_unicode_whitespace(c: char) -> bool {
    ||| '\u{9}' <= c && c <= '\u{D}'
    ||| c == ' '
    ||| c == '\u{85}'
    ||| c == '\u{A0}'
    ||| c == '\u{1680}'
    ||| '\u{2000}' <= c && c <= '\u{200A}'
    ||| c == '\u{2028}'
    ||| c == '\u{2029}'
    ||| c == '\u{202F}'
    ||| c == '\u{205F}'
    ||| c == '\u{3000}'
}

/// Characters of an amount that are read; whitespace and dots (which the
/// recognition scatters into numbers) are dropped.
pub open spec fn is_amount_char(c: char) -> bool {
    !is_unicode_whitespace(c) && c != '.'
}

/// The characters of `s` that are read as an amount.
pub open spec fn amount_chars(s: Seq<char>) -> Seq<char>
    decreases s.len(),
{
    if s.len() == 0 {
        Seq::empty()
    } else if is_amount_char(s.last()) {
        amount_chars(s.drop_last()).push(s.last())
    } else {
        amount_chars(s.drop_last())
    }
}

pub open spec fn is_paren(c: char) -> bool {
    c == '(' || c == ')'
}

/// The number of units that an amount column gives: `-` alone is zero, a
/// number in parentheses is negative, anything else is read as an `i64`.
/// `None` when the column is not an amount.
pub open spec fn amount_units(s: Seq<char>) -> Option<int> {
    let f = amount_chars(s);
    if f.len() == 0 {
        None
    } else if f == seq!['-'] {
        Some(0)
    } else if f[0] == '(' && f.last() == ')' {
        match parse_i64_spec(trim_where(f, |c: char| is_paren(c))) {
            Some(v) => Some(-(v as int)),
            None => None,
        }
    } else {
        match parse_i64_spec(f) {
            Some(v) => Some(v as int),
            None => None,
        }
    }
}

/// Why a column is not an amount.
#[derive(Debug, Clone, Copy, PartialEq, Eq, Structural)]
pub enum MoneyParseError {
    /// The column does not spell an amount.
    NotAnAmount,
    /// The amount in roubles lies outside the `i64` range.
    Overflow,
}

/// The amount in roubles that a column gives in the given unit.
pub open spec fn amount_roubles(s: Seq<char>, m: MoneyMultiplier) -> Result<int, MoneyParseError> {
    match amount_units(s) {
        None => Err(MoneyParseError::NotAnAmount),
        Some(v) => if fits_i64(v * unit_roubles(m)) {
            Ok(v * unit_roubles(m))
        } else {
            Err(MoneyParseError::Overflow)
        },
    }
}

fn amount_char_test(c: char) -> (r: bool)
    ensures
        r == is_amount_char(c),
{
    let ws = ('\u{9}' <= c && c <= '\u{D}') || c == ' ' || c == '\u{85}' || c == '\u{A0}' || c
        == '\u{1680}' || ('\u{2000}' <= c && c <= '\u{200A}') || c == '\u{2028}' || c == '\u{2029}'
        || c == '\u{202F}' || c == '\u{205F}' || c == '\u{3000}';
    !ws && c != '.'
}

fn paren_test(c: char) -> (r: bool)
    ensures
        r == is_paren(c),
{
    c == '(' || c == ')'
}

/// Reads an amount column in the given unit.
pub fn parse_amount(s: &[char], m: MoneyMultiplier) -> (r: Result<Money, MoneyParseError>)
    ensures
        match r {
            Ok(v) => amount_roubles(s@, m) == Ok::<int, MoneyParseError>(v@),
            Err(e) => amount_roubles(s@, m) == Err::<int, MoneyParseError>(e),
        },
{
    let mut f: Vec<char> = Vec::new();
    let mut i: usize = 0;
    while i < s.len()
        invariant
            i <= s@.len(),
            f@ == amount_chars(s@.take(i as int)),
        decreases s@.len() - i,
    {
        let c = s[i];
        assert(s@.take(i + 1).drop_last() =~= s@.take(i as int));
        if amount_char_test(c) {
            f.push(c);
        }
        i = i + 1;
    }
    assert(s@.take(i as int) =~= s@);
    let n: usize = f.len();
    if n == 0 {
        return Err(MoneyParseError::NotAnAmount);
    }
    let units: i64 = if n == 1 && f[0] == '-' {
        assert(f@ =~= seq!['-']);
        0
    } else if f[0] == '(' && f[n - 1] == ')' {
        assert(f@ != seq!['-']);
        let (a, b) = trim_bounds(f.as_slice(), Ghost(|c: char| is_paren(c)), paren_test);
        match parse_i64(&f[a..b]) {
            Some(v) => {
                if v == i64::MIN {
                    proof {
                        assert(-(v as int) * unit_roubles(m) > i64::MAX);
                    }
                    return Err(MoneyParseError::Overflow);
                }
                -v
            },
            None => {
                return Err(MoneyParseError::NotAnAmount);
            },
        }
    } else {
        assert(n == 1 ==> f@ != seq!['-']) by {
            if n == 1 && f@ == seq!['-'] {
                assert(f@[0] == '-');
            }
        }
        match parse_i64(f.as_slice()) {
            Some(v) => v,
            None => {
                return Err(MoneyParseError::NotAnAmount);
            },
        }
    };
    assert(amount_units(s@) == Some(units as int));
    let unit: i64 = match m {
        MoneyMultiplier::Thousands => 1000,
        MoneyMultiplier::Millions => 1000000,
    };
    match units.checked_mul(unit) {
        Some(v) => match m {
            MoneyMultiplier::Thousands => Ok(Money::from_thousands(units)),
            MoneyMultiplier::Millions => Ok(Money::from_millions(units)),
        },
        None => Err(MoneyParseError::Overflow),
    }
}

// ---------------------------------------------------------------- classifiers

/// Something that tells the key of a line from the line's title.
pub trait KeyClassifier<Keys> {
    /// The key of a title, if it is known.
    spec fn classifies(&self, title: Seq<char>) -> Option<Keys>;

    /// The key of `line_token`, a title as [`get_line_token`] makes it.
    fn try_classify_key(&self, line_token: &str) -> (r: Option<Keys>)
        requires
            is_title(line_token@),
        ensures
            r == self.classifies(line_token@);
}

/// A classifier that looks titles up in a dictionary.
pub struct MapKeyClasifier<Keys> {
    string_to_key: KeysDict<Keys>,
}

impl<Keys> View for MapKeyClasifier<Keys> {
    type V = Map<Seq<char>, Keys>;

    closed spec fn view(&self) -> Map<Seq<char>, Keys> {
        self.string_to_key@
    }
}

impl<Keys: Copy> MapKeyClasifier<Keys> {
    pub fn new(string_to_key: KeysDict<Keys>) -> (r: MapKeyClasifier<Keys>)
        ensures
            r@ == string_to_key@,
    {
        MapKeyClasifier { string_to_key }
    }
}

impl<Keys: Copy> KeyClassifier<Keys> for MapKeyClasifier<Keys> {
    open spec fn classifies(&self, title: Seq<char>) -> Option<Keys> {
        if self@.contains_key(title) {
            Some(self@[title])
        } else {
            None
        }
    }

    fn try_classify_key(&self, line_token: &str) -> (r: Option<Keys>) {
        self.string_to_key.get(line_token)
    }
}

// ---------------------------------------------------------------- lines

/// What becomes of one recognised line: `None` when it is skipped (it does
/// not have three or four columns, or its amount column is not an amount);
/// otherwise the key that the classifier gives its title (if any) and its
/// amount in roubles, or `MoneyParseError::Overflow` when the amount does
/// not fit. The amount of the current period is the last column but one.
pub open spec fn classify_line<Keys, C: KeyClassifier<Keys>>(
    classifier: &C,
    m: MoneyMultiplier,
    line: Seq<char>,
) -> Option<Result<(Option<Keys>, int), MoneyParseError>> {
    let cols = line_columns(line);
    if cols.len() != 3 && cols.len() != 4 {
        None
    } else {
        match amount_roubles(cols[cols.len() - 2], m) {
            Err(MoneyParseError::NotAnAmount) => None,
            Err(MoneyParseError::Overflow) => Some(Err(MoneyParseError::Overflow)),
            Ok(v) => Some(Ok((classifier.classifies(line_title(cols[0])), v))),
        }
    }
}

/// The classified lines of a page, in order, as (key found, amount, line);
/// `Err` when some amount does not fit.
pub open spec fn classify_page<Keys, C: KeyClassifier<Keys>>(
    classifier: &C,
    m: MoneyMultiplier,
    lines: Seq<String>,
) -> Result<Seq<(Option<Keys>, int, Seq<char>)>, MoneyParseError>
    decreases lines.len(),
{
    if lines.len() == 0 {
        Ok(Seq::empty())
    } else {
        match classify_page(classifier, m, lines.drop_last()) {
            Err(e) => Err(e),
            Ok(acc) => match classify_line(classifier, m, lines.last()@) {
                None => Ok(acc),
                Some(Err(e)) => Err(e),
                Some(Ok((k, v))) => Ok(acc.push((k, v, lines.last()@))),
            },
        }
    }
}

/// Whether a classified line is what the page specification gives: the key
/// found, or the default key when none was found; the amount; the line.
pub open spec fn line_matches<Keys: GenericKeys>(
    got: ParsedLineInfo<Keys>,
    expected: (Option<Keys>, int, Seq<char>),
) -> bool {
    &&& match expected.0 {
        Some(k) => got.key == k,
        None => is_default_key(got.key),
    }
    &&& got.value@ == expected.1
    &&& got.original_line@ == expected.2
}

/// Classifies the lines of a recognised page.
pub struct LinesClassifier<'a, Keys, C: KeyClassifier<Keys>> {
    money_multiplier: MoneyMultiplier,
    keys_classifier: &'a C,
    keys: core::marker::PhantomData<Keys>,
}

impl<'a, Keys: GenericKeys, C: KeyClassifier<Keys>> LinesClassifier<'a, Keys, C> {
    /// The unit of the amounts.
    pub closed spec fn multiplier(&self) -> MoneyMultiplier {
        self.money_multiplier
    }

    /// The classifier of titles.
    pub closed spec fn classifier(&self) -> &'a C {
        self.keys_classifier
    }

    pub fn new(money_multiplier: MoneyMultiplier, keys_classifier: &'a C) -> (r: Self)
        ensures
            r.multiplier() == money_multiplier,
            r.classifier() == keys_classifier,
    {
        LinesClassifier { money_multiplier, keys_classifier, keys: core::marker::PhantomData }
    }

    /// Reads an amount column in the unit of this classifier.
    pub fn parse_money(&self, line: &str) -> (r: Result<Money, MoneyParseError>)
        ensures
            match r {
                Ok(v) => amount_roubles(line@, self.multiplier()) == Ok::<int, MoneyParseError>(v@),
                Err(e) => amount_roubles(line@, self.multiplier()) == Err::<int, MoneyParseError>(e),
            },
    {
        let chars = chars_of(line);
        parse_amount(chars.as_slice(), self.money_multiplier)
    }

    fn classify_one(&self, line: &String) -> (r: Option<Result<ParsedLineInfo<Keys>, MoneyParseError>>)
        ensures
            match classify_line(self.classifier(), self.multiplier(), line@) {
                None => r is None,
                Some(Err(e)) => r == Some(Err::<ParsedLineInfo<Keys>, MoneyParseError>(e)),
                Some(Ok((k, v))) => r matches Some(Ok(p)) && line_matches(p, (k, v, line@)),
            },
    {
        let chars = chars_of(line.as_str());
        let ranges = column_ranges(chars.as_slice());
        let n: usize = ranges.len();
        if n != 3 && n != 4 {
            return None;
        }
        assert(ranges_text(chars@, ranges@)[0] == line_columns(line@)[0]);
        assert(ranges_text(chars@, ranges@)[n - 2] == line_columns(line@)[n - 2]);
        let (a0, b0) = ranges[0];
        let first = string_from_chars(&chars[a0..b0]);
        let lower = to_lowercase(first.as_str());
        let token = token_from_lowercase(lower.as_str());
        let found = self.keys_classifier.try_classify_key(token.as_str());
        let key = match found {
            Some(k) => k,
            None => Keys::default_key(),
        };
        let (a, b) = ranges[n - 2];
        match parse_amount(&chars[a..b], self.money_multiplier) {
            Ok(value) => Some(Ok(ParsedLineInfo { key, value, original_line: line.clone() })),
            Err(MoneyParseError::NotAnAmount) => None,
            Err(MoneyParseError::Overflow) => Some(Err(MoneyParseError::Overflow)),
        }
    }

    /// Classifies the lines of a page, in order. Lines that do not have three
    /// or four columns, or whose amount column is not an amount, are
    /// skipped. Fails with `ParseError::Overflow` when an amount does not fit.
    pub fn classify_lines(&self, page_lines: &[String]) -> (r: Result<Vec<ParsedLineInfo<Keys>>, ParseError<Keys>>)
        ensures
            match classify_page(self.classifier(), self.multiplier(), page_lines@) {
                Err(_) => r == Err::<Vec<ParsedLineInfo<Keys>>, ParseError<Keys>>(ParseError::Overflow),
                Ok(expected) => r matches Ok(v) && v@.len() == expected.len() && forall|i: int|
                    0 <= i < expected.len() ==> line_matches(#[trigger] v@[i], expected[i]),
            },
    {
        let mut result: Vec<ParsedLineInfo<Keys>> = Vec::new();
        let mut i: usize = 0;
        while i < page_lines.len()
            invariant
                i <= page_lines@.len(),
                classify_page(self.classifier(), self.multiplier(), page_lines@.take(i as int)) matches Ok(
                    expected,
                ) && result@.len() == expected.len() && forall|j: int|
                    0 <= j < expected.len() ==> line_matches(#[trigger] result@[j], expected[j]),
            decreases page_lines@.len() - i,
        {
            let ghost prefix = page_lines@.take(i + 1);
            assert(prefix.drop_last() =~= page_lines@.take(i as int));
            assert(prefix.last() == page_lines@[i as int]);
            match self.classify_one(&page_lines[i]) {
                None => {},
                Some(Err(_)) => {
                    proof {
                        lemma_classify_page_err_extends(
                            self.classifier(),
                            self.multiplier(),
                            page_lines@,
                            i as int + 1,
                        );
                    }
                    return Err(ParseError::Overflow);
                },
                Some(Ok(p)) => {
                    result.push(p);
                },
            }
            i = i + 1;
        }
        assert(page_lines@.take(i as int) =~= page_lines@);
        Ok(result)
    }
}

/// Once a prefix of a page fails, the whole page fails.
proof fn lemma_classify_page_err_extends<Keys, C: KeyClassifier<Keys>>(
    c: &C,
    m: MoneyMultiplier,
    lines: Seq<String>,
    k: int,
)
    requires
        0 <= k <= lines.len(),
        classify_page(c, m, lines.take(k)) is Err,
    ensures
        classify_page(c, m, lines) is Err,
    decreases lines.len() - k,
{
    if k < lines.len() {
        assert(lines.take(k + 1).drop_last() =~= lines.take(k));
        lemma_classify_page_err_extends(c, m, lines, k + 1);
    } else {
        assert(lines.take(k) =~= lines);
    }
}

} // verus!
