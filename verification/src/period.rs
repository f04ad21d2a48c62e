//! Reporting periods: a year and which part of it a report covers.
use vstd::prelude::*;
use crate::text::{
    chars_of, decimal_digits, decimal_string, decimal_string_of, lemma_decimal_digits_all_digits,
    lemma_parse_decimal_string, is_ascii_digit, parse_i32_spec, parse_i64, string_from_chars,
};

verus! {

/// Which part of a year a report covers. The second half is never reported
/// on its own: it is what the full year adds to the first half.
#[derive(PartialOrd, PartialEq, Eq, Ord, Copy, Clone, Debug, Hash, Structural)]
pub enum PeriodType {
    FirstHalf,
    SecondHalf,
    Full,
}

/// A reporting period: a year and a part of it.
#[derive(PartialOrd, PartialEq, Eq, Ord, Copy, Clone, Debug, Hash, Structural)]
pub struct Period {
    year: i32,
    period_type: PeriodType,
}

/// Why a text is not a period.
#[derive(Debug, Clone, Copy, PartialEq, Eq, Structural)]
pub enum PeriodParseError {
    /// The leading digits do not spell a year in the `i32` range.
    InvalidYear,
    /// The text has no year followed by `H1`, `H2` or `FULL`.
    NotParsable,
}

impl View for Period {
    type V = (i32, PeriodType);

    closed spec fn view(&self) -> (i32, PeriodType) {
        (self.year, self.period_type)
    }
}

/// Two periods with the same year and part are the same period.
pub proof fn lemma_period_ext(a: Period, b: Period)
    requires
        a@ == b@,
    ensures
        a == b,
{
}

pub open spec fn is_half_type(t: PeriodType) -> bool {
    t == PeriodType::FirstHalf || t == PeriodType::SecondHalf
}

/// The position of a part of the year in the order of periods.
pub open spec fn type_rank(t: PeriodType) -> int {
    match t {
        PeriodType::FirstHalf => 0,
        PeriodType::SecondHalf => 1,
        PeriodType::Full => 2,
    }
}

/// The order of periods: by year, then first half, second half, full year.
pub open spec fn period_before(a: (i32, PeriodType), b: (i32, PeriodType)) -> bool {
    a.0 < b.0 || (a.0 == b.0 && type_rank(a.1) < type_rank(b.1))
}

/// The text that names a part of the year.
pub open spec fn type_suffix(t: PeriodType) -> Seq<char> {
    match t {
        PeriodType::FirstHalf => seq!['H', '1'],
        PeriodType::SecondHalf => seq!['H', '2'],
        PeriodType::Full => seq!['F', 'U', 'L', 'L'],
    }
}

/// The short name of a period, such as `2023H1` or `2024FULL`.
pub open spec fn period_text(p: (i32, PeriodType)) -> Seq<char> {
    decimal_string(p.0 as int) + type_suffix(p.1)
}

/// The index of the first character of `s` at or after `i` that is not an ASCII digit.
pub open spec fn first_non_digit_from(s: Seq<char>, i: int) -> Option<int>
    decreases s.len() - i,
{
    if i < 0 || i >= s.len() {
        None
    } else if !is_ascii_digit(s[i]) {
        Some(i)
    } else {
        first_non_digit_from(s, i + 1)
    }
}

/// The part of the year that a suffix names.
pub open spec fn type_of_suffix(t: Seq<char>) -> Option<PeriodType> {
    if t == type_suffix(PeriodType::FirstHalf) {
        Some(PeriodType::FirstHalf)
    } else if t == type_suffix(PeriodType::SecondHalf) {
        Some(PeriodType::SecondHalf)
    } else if t == type_suffix(PeriodType::Full) {
        Some(PeriodType::Full)
    } else {
        None
    }
}

/// The period that a short name names: the leading ASCII digits are the year,
/// the rest must be `H1`, `H2` or `FULL`.
pub open spec fn period_of_text(s: Seq<char>) -> Result<(i32, PeriodType), PeriodParseError> {
    match first_non_digit_from(s, 0) {
        None => Err(PeriodParseError::NotParsable),
        Some(k) => match parse_i32_spec(s.take(k)) {
            None => Err(PeriodParseError::InvalidYear),
            Some(y) => match type_of_suffix(s.skip(k)) {
                Some(t) => Ok((y, t)),
                None => Err(PeriodParseError::NotParsable),
            },
        },
    }
}

/// The halves that a period stands for when periods are made uniform: a half
/// stands for itself, a full year for both of its halves.
pub open spec fn covers(p: (i32, PeriodType), v: (i32, PeriodType)) -> bool {
    if is_half_type(p.1) {
        v == p
    } else {
        v.0 == p.0 && is_half_type(v.1)
    }
}

pub open spec fn uniform_parts(s: Seq<Period>) -> Set<(i32, PeriodType)> {
    Set::new(|v: (i32, PeriodType)| exists|i: int| 0 <= i < s.len() && covers(s[i]@, v))
}

pub open spec fn period_views(s: Seq<Period>) -> Set<(i32, PeriodType)> {
    Set::new(|v: (i32, PeriodType)| exists|i: int| 0 <= i < s.len() && s[i]@ == v)
}

pub open spec fn strictly_ascending(s: Seq<Period>) -> bool {
    forall|i: int, j: int| 0 <= i < j < s.len() ==> period_before(#[trigger] s[i]@, #[trigger] s[j]@)
}

pub open spec fn all_full(s: Seq<Period>) -> bool {
    forall|i: int| 0 <= i < s.len() ==> (#[trigger] s[i]@).1 == PeriodType::Full
}

pub open spec fn all_halves(s: Seq<Period>) -> bool {
    forall|i: int| 0 <= i < s.len() ==> is_half_type((#[trigger] s[i]@).1)
}

/// The order of periods is total and strict: of two different periods one
/// comes first, never both, and no period comes before itself.
pub proof fn lemma_before_total(a: (i32, PeriodType), b: (i32, PeriodType))
    ensures
        a == b || period_before(a, b) || period_before(b, a),
        !(period_before(a, b) && period_before(b, a)),
        !period_before(a, a),
{
}

/// The order of periods is transitive.
pub proof fn lemma_before_transitive(a: (i32, PeriodType), b: (i32, PeriodType), c: (i32, PeriodType))
    requires
        period_before(a, b),
        period_before(b, c),
    ensures
        period_before(a, c),
{
}

proof fn lemma_first_non_digit(s: Seq<char>, i: int, k: int)
    requires
        0 <= i <= k < s.len(),
        forall|j: int| i <= j < k ==> is_ascii_digit(#[trigger] s[j]),
        !is_ascii_digit(s[k]),
    ensures
        first_non_digit_from(s, i) == Some(k),
    decreases k - i,
{
    if i < k {
        lemma_first_non_digit(s, i + 1, k);
    }
}

/// Reading back the short name of a period with a non-negative year gives the
/// period. (A negative year is written with a leading `-`, which the reader
/// does not take as part of the year.)
pub proof fn lemma_period_text_roundtrip(p: (i32, PeriodType))
    requires
        p.0 >= 0,
    ensures
        period_of_text(period_text(p)) == Ok::<(i32, PeriodType), PeriodParseError>(p),
{
    let d = decimal_digits(p.0 as nat);
    let s = period_text(p);
    lemma_decimal_digits_all_digits(p.0 as nat);
    lemma_parse_decimal_string(p.0 as int);
    assert(s =~= d + type_suffix(p.1));
    let k = d.len() as int;
    assert forall|j: int| 0 <= j < k implies is_ascii_digit(#[trigger] s[j]) by {
        assert(s[j] == d[j]);
    }
    lemma_first_non_digit(s, 0, k);
    assert(s.take(k) =~= d);
    assert(s.skip(k) =~= type_suffix(p.1));
}

impl Period {
    pub fn first_half(year: i32) -> (r: Period)
        ensures
            r@ == (year, PeriodType::FirstHalf),
    {
        Period { year, period_type: PeriodType::FirstHalf }
    }

    pub fn second_half(year: i32) -> (r: Period)
        ensures
            r@ == (year, PeriodType::SecondHalf),
    {
        Period { year, period_type: PeriodType::SecondHalf }
    }

    pub fn full(year: i32) -> (r: Period)
        ensures
            r@ == (year, PeriodType::Full),
    {
        Period { year, period_type: PeriodType::Full }
    }

    fn is_half(&self) -> (r: bool)
        ensures
            r == is_half_type(self@.1),
    {
        self.period_type == PeriodType::FirstHalf || self.period_type == PeriodType::SecondHalf
    }

    /// Whether `self` comes before `other` in the order of periods.
    pub fn precedes(&self, other: &Period) -> (r: bool)
        ensures
            r == period_before(self@, other@),
    {
        self.year < other.year || (self.year == other.year && Self::rank(self.period_type)
            < Self::rank(other.period_type))
    }

    fn rank(t: PeriodType) -> (r: u8)
        ensures
            r == type_rank(t),
    {
        match t {
            PeriodType::FirstHalf => 0,
            PeriodType::SecondHalf => 1,
            PeriodType::Full => 2,
        }
    }

    /// The short name of the period, such as `2023H1`.
    pub fn short_string(&self) -> (r: String)
        ensures
            r@ == period_text(self@),
    {
        let mut result = decimal_string_of(self.year as i64);
        match self.period_type {
            PeriodType::FirstHalf => {
                result.push('H');
                result.push('1');
            },
            PeriodType::SecondHalf => {
                result.push('H');
                result.push('2');
            },
            PeriodType::Full => {
                result.push('F');
                result.push('U');
                result.push('L');
                result.push('L');
            },
        }
        assert(result@ =~= period_text(self@));
        string_from_chars(result.as_slice())
    }

    /// Reads a short name back: a year in ASCII digits followed by `H1`, `H2` or `FULL`.
    pub fn from_short_string(s: &str) -> (r: Result<Period, PeriodParseError>)
        ensures
            match r {
                Ok(p) => period_of_text(s@) == Ok::<(i32, PeriodType), PeriodParseError>(p@),
                Err(e) => period_of_text(s@) == Err::<(i32, PeriodType), PeriodParseError>(e),
            },
    {
        let chars = chars_of(s);
        let n: usize = chars.len();
        let mut k: usize = 0;
        while k < n && '0' <= chars[k] && chars[k] <= '9'
            invariant
                k <= n,
                n == chars@.len(),
                chars@ == s@,
                first_non_digit_from(s@, 0) == first_non_digit_from(s@, k as int),
            decreases n - k,
        {
            k = k + 1;
        }
        if k == n {
            assert(first_non_digit_from(s@, k as int).is_none());
            return Err(PeriodParseError::NotParsable);
        }
        assert(first_non_digit_from(s@, 0) == Some(k as int));
        let year_chars = &chars[0..k];
        assert(year_chars@ =~= s@.take(k as int));
        let year = match parse_i64(year_chars) {
            Some(v) => {
                if v < i32::MIN as i64 || v > i32::MAX as i64 {
                    assert(parse_i32_spec(s@.take(k as int)).is_none());
                    return Err(PeriodParseError::InvalidYear);
                }
                v as i32
            },
            None => {
                assert(parse_i32_spec(s@.take(k as int)).is_none());
                return Err(PeriodParseError::InvalidYear);
            },
        };
        assert(parse_i32_spec(s@.take(k as int)) == Some(year));
        let suffix = &chars[k..n];
        assert(suffix@ =~= s@.skip(k as int));
        let m: usize = suffix.len();
        if m == 2 && suffix[0] == 'H' && suffix[1] == '1' {
            assert(suffix@ =~= type_suffix(PeriodType::FirstHalf));
            Ok(Period::first_half(year))
        } else if m == 2 && suffix[0] == 'H' && suffix[1] == '2' {
            assert(suffix@ =~= type_suffix(PeriodType::SecondHalf));
            Ok(Period::second_half(year))
        } else if m == 4 && suffix[0] == 'F' && suffix[1] == 'U' && suffix[2] == 'L' && suffix[3]
            == 'L' {
            assert(suffix@ =~= type_suffix(PeriodType::Full));
            Ok(Period::full(year))
        } else {
            assert(type_of_suffix(suffix@).is_none()) by {
                if suffix@ == type_suffix(PeriodType::FirstHalf) {
                    assert(suffix@[0] == 'H' && suffix@[1] == '1');
                }
                if suffix@ == type_suffix(PeriodType::SecondHalf) {
                    assert(suffix@[0] == 'H' && suffix@[1] == '2');
                }
                if suffix@ == type_suffix(PeriodType::Full) {
                    assert(suffix@[0] == 'F' && suffix@[3] == 'L');
                }
            }
            Err(PeriodParseError::NotParsable)
        }
    }

    /// Puts `p` into the strictly ascending `v`, unless it is already there.
    pub(crate) fn insert_ascending(v: &mut Vec<Period>, p: Period)
        requires
            strictly_ascending(old(v)@),
        ensures
            strictly_ascending(final(v)@),
            period_views(final(v)@) == period_views(old(v)@).insert(p@),
    {
        let n: usize = v.len();
        let mut j: usize = 0;
        while j < n && v[j].precedes(&p)
            invariant
                j <= n,
                n == v@.len(),
                forall|i: int| 0 <= i < j ==> period_before(#[trigger] v@[i]@, p@),
            decreases n - j,
        {
            j = j + 1;
        }
        let ghost old_v = v@;
        if j < n && v[j] == p {
            assert(period_views(v@) =~= period_views(old_v).insert(p@));
            return;
        }
        proof {
            if j < n {
                lemma_before_total(v@[j as int]@, p@);
                if v@[j as int]@ == p@ {
                    lemma_period_ext(v@[j as int], p);
                }
            }
        }
        v.insert(j, p);
        assert(strictly_ascending(v@)) by {
            assert forall|a: int, b: int| 0 <= a < b < v@.len() implies period_before(
                #[trigger] v@[a]@,
                #[trigger] v@[b]@,
            ) by {
                if a < j && b == j {
                } else if a == j && b > j {
                    assert(v@[b] == old_v[b - 1]);
                    if b - 1 > j {
                        assert(period_before(old_v[j as int]@, old_v[b - 1]@));
                        lemma_before_transitive(p@, old_v[j as int]@, old_v[b - 1]@);
                    }
                } else if a < j && b > j {
                    assert(v@[b] == old_v[b - 1]);
                    assert(period_before(old_v[a]@, old_v[b - 1]@));
                } else if a > j {
                    assert(v@[a] == old_v[a - 1]);
                    assert(v@[b] == old_v[b - 1]);
                    assert(period_before(old_v[a - 1]@, old_v[b - 1]@));
                } else {
                    assert(v@[a] == old_v[a]);
                    assert(v@[b] == old_v[b]);
                }
            }
        }
        assert(period_views(v@) =~= period_views(old_v).insert(p@)) by {
            assert forall|x: (i32, PeriodType)| period_views(old_v).insert(p@).contains(x) implies
                period_views(v@).contains(x) by {
                if x == p@ {
                    assert(v@[j as int]@ == x);
                } else {
                    let i = choose|i: int| 0 <= i < old_v.len() && old_v[i]@ == x;
                    if i < j {
                        assert(v@[i]@ == x);
                    } else {
                        assert(v@[i + 1]@ == x);
                    }
                }
            }
            assert forall|x: (i32, PeriodType)| period_views(v@).contains(x) implies
                period_views(old_v).insert(p@).contains(x) by {
                let i = choose|i: int| 0 <= i < v@.len() && v@[i]@ == x;
                if i < j {
                    assert(old_v[i]@ == x);
                } else if i > j {
                    assert(old_v[i - 1]@ == x);
                }
            }
        }
    }

    /// Makes a list of periods uniform in length. A list of full years only,
    /// or of halves only, is returned as it is. Otherwise every full year is
    /// split into its two halves, and the halves come back in ascending order,
    /// each once.
    pub fn build_uniform(periods: Vec<Period>) -> (r: Vec<Period>)
        ensures
            (all_full(periods@) || all_halves(periods@)) ==> r@ == periods@,
            !(all_full(periods@) || all_halves(periods@)) ==> strictly_ascending(r@)
                && period_views(r@) == uniform_parts(periods@),
    {
        let n: usize = periods.len();
        let mut has_only_full = true;
        let mut i: usize = 0;
        while i < n
            invariant
                i <= n,
                n == periods@.len(),
                has_only_full == (forall|k: int| 0 <= k < i ==> (#[trigger] periods@[k]@).1
                    == PeriodType::Full),
            decreases n - i,
        {
            let full = match periods[i].period_type {
                PeriodType::Full => true,
                _ => false,
            };
            assert(full == ((periods@[i as int]@).1 == PeriodType::Full));
            if !full {
                has_only_full = false;
            }
            i = i + 1;
        }
        if has_only_full {
            return periods;
        }
        let mut has_only_halves = true;
        i = 0;
        while i < n
            invariant
                i <= n,
                n == periods@.len(),
                has_only_halves == (forall|k: int| 0 <= k < i ==> is_half_type(
                    (#[trigger] periods@[k]@).1,
                )),
            decreases n - i,
        {
            if !periods[i].is_half() {
                has_only_halves = false;
            }
            i = i + 1;
        }
        if has_only_halves {
            return periods;
        }
        let mut result: Vec<Period> = Vec::new();
        i = 0;
        while i < n
            invariant
                i <= n,
                n == periods@.len(),
                strictly_ascending(result@),
                period_views(result@) == uniform_parts(periods@.take(i as int)),
            decreases n - i,
        {
            let period = periods[i];
            let ghost before = result@;
            if period.is_half() {
                Self::insert_ascending(&mut result, period);
            } else {
                Self::insert_ascending(&mut result, Period::first_half(period.year));
                Self::insert_ascending(&mut result, Period::second_half(period.year));
            }
            assert(period_views(result@) =~= uniform_parts(periods@.take(i + 1))) by {
                let t = periods@.take(i + 1);
                assert forall|x: (i32, PeriodType)| uniform_parts(t).contains(x) implies period_views(
                    result@,
                ).contains(x) by {
                    let k = choose|k: int| 0 <= k < t.len() && covers(t[k]@, x);
                    if k < i {
                        assert(periods@.take(i as int)[k] == t[k]);
                        assert(uniform_parts(periods@.take(i as int)).contains(x));
                    }
                }
                assert forall|x: (i32, PeriodType)| period_views(result@).contains(x) implies uniform_parts(
                    t,
                ).contains(x) by {
                    if period_views(before).contains(x) {
                        assert(uniform_parts(periods@.take(i as int)).contains(x));
                        let k = choose|k: int| 0 <= k < i && covers(periods@.take(i as int)[k]@, x);
                        assert(t[k] == periods@.take(i as int)[k]);
                    } else {
                        assert(covers(t[i as int]@, x));
                    }
                }
            }
            i = i + 1;
        }
        assert(periods@.take(n as int) =~= periods@);
        result
    }

    /// The reported periods that a period is computed from: a half-year or a
    /// full year is itself; the second half is the full year minus the first half.
    pub fn make_parts_for_substraction(self) -> (r: (Period, Option<Period>))
        ensures
            self@.1 == PeriodType::SecondHalf ==> r.0@ == (self@.0, PeriodType::Full) && r.1 is Some
                && r.1->0@ == (self@.0, PeriodType::FirstHalf),
            self@.1 != PeriodType::SecondHalf ==> r.0 == self && r.1 is None,
    {
        match self.period_type {
            PeriodType::FirstHalf => (self, None),
            PeriodType::Full => (self, None),
            PeriodType::SecondHalf => {
                let full = Period { year: self.year, period_type: PeriodType::Full };
                let substracted = Period { year: self.year, period_type: PeriodType::FirstHalf };
                (full, Some(substracted))
            },
        }
    }
}

/// What `Period::build_uniform` gives is uniform: full years only, or halves
/// only.
pub proof fn lemma_uniform_result_is_uniform(periods: Seq<Period>, r: Seq<Period>)
    requires
        (all_full(periods) || all_halves(periods)) ==> r == periods,
        !(all_full(periods) || all_halves(periods)) ==> strictly_ascending(r) && period_views(r) == uniform_parts(
            periods,
        ),
    ensures
        all_full(r) || all_halves(r),
{
    if !(all_full(periods) || all_halves(periods)) {
        assert forall|i: int| 0 <= i < r.len() implies is_half_type((#[trigger] r[i]@).1) by {
            assert(period_views(r).contains(r[i]@));
            assert(uniform_parts(periods).contains(r[i]@));
            let j = choose|j: int| 0 <= j < periods.len() && covers(periods[j]@, r[i]@);
        }
    }
}

} // verus!
