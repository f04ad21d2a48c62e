//! Character-level helpers shared by the parsers and printers: decimal
//! integers, whitespace, and conversions between strings and character vectors.
use vstd::prelude::*;

verus! {

broadcast use vstd::string::group_string_axioms;

/// `'0'..='9'`.
pub open spec fn is_ascii_digit(c: char) -> bool {
    '0' <= c && c <= '9'
}

/// The value of an ASCII digit.
pub open spec fn digit_value(c: char) -> int {
    (c as int) - ('0' as int)
}

/// The ASCII digit of a value below ten.
pub open spec fn digit_char(d: int) -> char {
    (d + ('0' as int)) as char
}

pub open spec fn all_ascii_digits(s: Seq<char>) -> bool {
    forall|i: int| 0 <= i < s.len() ==> is_ascii_digit(#[trigger] s[i])
}

/// The number that a string of decimal digits spells, most significant first.
pub open spec fn digits_value(s: Seq<char>) -> int
    decreases s.len(),
{
    if s.len() == 0 {
        0
    } else {
        digits_value(s.drop_last()) * 10 + digit_value(s.last())
    }
}

/// The sign and the digits of a decimal integer with an optional leading `+` or `-`.
pub open spec fn sign_and_body(s: Seq<char>) -> (bool, Seq<char>) {
    if s.len() > 0 && s[0] == '-' {
        (true, s.drop_first())
    } else if s.len() > 0 && s[0] == '+' {
        (false, s.drop_first())
    } else {
        (false, s)
    }
}

/// The integer that `s` spells as an optional sign followed by one or more
/// ASCII digits, with no other characters; `None` when `s` has another shape.
pub open spec fn parse_integer(s: Seq<char>) -> Option<int> {
    let (neg, body) = sign_and_body(s);
    if body.len() == 0 || !all_ascii_digits(body) {
        None
    } else if neg {
        Some(-digits_value(body))
    } else {
        Some(digits_value(body))
    }
}

/// What `i64::from_str` gives for `s`: the integer it spells, if it spells
/// one within the `i64` range.
pub open spec fn parse_i64_spec(s: Seq<char>) -> Option<i64> {
    match parse_integer(s) {
        Some(v) => if i64::MIN <= v <= i64::MAX {
            Some(v as i64)
        } else {
            None
        },
        None => None,
    }
}

/// What `i32::from_str` gives for `s`.
pub open spec fn parse_i32_spec(s: Seq<char>) -> Option<i32> {
    match parse_integer(s) {
        Some(v) => if i32::MIN <= v <= i32::MAX {
            Some(v as i32)
        } else {
            None
        },
        None => None,
    }
}

/// The decimal digits of `n`, most significant first, without leading zeros.
pub open spec fn decimal_digits(n: nat) -> Seq<char>
    decreases n,
{
    if n < 10 {
        seq![digit_char(n as int)]
    } else {
        decimal_digits(n / 10).push(digit_char((n % 10) as int))
    }
}

/// The decimal notation of `v`, with a leading `-` when it is negative.
pub open spec fn decimal_string(v: int) -> Seq<char> {
    if v < 0 {
        seq!['-'] + decimal_digits((-v) as nat)
    } else {
        decimal_digits(v as nat)
    }
}

proof fn lemma_digits_value_nonneg(s: Seq<char>)
    requires
        all_ascii_digits(s),
    ensures
        digits_value(s) >= 0,
    decreases s.len(),
{
    if s.len() > 0 {
        assert(is_ascii_digit(s[s.len() - 1]));
        lemma_digits_value_nonneg(s.drop_last());
    }
}

/// A longer run of digits never spells a smaller number.
proof fn lemma_digits_value_monotone(s: Seq<char>, i: int, j: int)
    requires
        0 <= i <= j <= s.len(),
        all_ascii_digits(s),
    ensures
        digits_value(s.take(i)) <= digits_value(s.take(j)),
    decreases j - i,
{
    if i < j {
        lemma_digits_value_monotone(s, i, j - 1);
        assert(s.take(j).drop_last() =~= s.take(j - 1));
        assert(is_ascii_digit(s[j - 1]));
        assert(all_ascii_digits(s.take(j - 1)));
        lemma_digits_value_nonneg(s.take(j - 1));
    }
}

pub proof fn lemma_decimal_digits_all_digits(n: nat)
    ensures
        all_ascii_digits(decimal_digits(n)),
        decimal_digits(n).len() > 0,
        digits_value(decimal_digits(n)) == n,
    decreases n,
{
    lemma_digit_char_value((n % 10) as int);
    if n >= 10 {
        lemma_decimal_digits_all_digits(n / 10);
        let d = decimal_digits(n);
        assert(d.drop_last() =~= decimal_digits(n / 10));
        assert(d.last() == digit_char((n % 10) as int));
        assert(digits_value(d) == digits_value(decimal_digits(n / 10)) * 10 + digit_value(d.last()));
        assert((n / 10) * 10 + n % 10 == n);
    } else {
        assert(n % 10 == n);
        let d = decimal_digits(n);
        assert(d.drop_last() =~= Seq::<char>::empty());
        assert(digits_value(d) == digits_value(d.drop_last()) * 10 + digit_value(d.last()));
    }
}

proof fn lemma_digit_char_value(d: int)
    requires
        0 <= d < 10,
    ensures
        is_ascii_digit(digit_char(d)),
        digit_value(digit_char(d)) == d,
{
}

/// Appending one digit multiplies the value by ten and adds the digit.
proof fn lemma_digits_value_step(body: Seq<char>, k: int)
    requires
        0 <= k < body.len(),
    ensures
        digits_value(body.take(k + 1)) == digits_value(body.take(k)) * 10 + digit_value(body[k]),
{
    assert(body.take(k + 1).drop_last() =~= body.take(k));
}

/// Reading back the decimal notation of an integer gives the integer.
pub proof fn lemma_parse_decimal_string(v: int)
    ensures
        parse_integer(decimal_string(v)) == Some(v),
{
    let n: nat = if v < 0 { (-v) as nat } else { v as nat };
    lemma_decimal_digits_all_digits(n);
    let d = decimal_digits(n);
    assert(is_ascii_digit(d[0]));
    if v < 0 {
        assert((seq!['-'] + d).drop_first() =~= d);
    }
}

/// The characters of `s`, in order.
pub fn chars_of(s: &str) -> (r: Vec<char>)
    ensures
        r@ == s@,
{
    let mut v: Vec<char> = Vec::new();
    for c in it: s.chars()
        invariant
            it.seq() == s@,
            v@ == it.seq().take(it.index() as int),
    {
        v.push(c);
    }
    v
}

/// The string made of the characters of `v`, in order. Collects them with
/// std's `FromIterator<char>` for `String`, which appends each character.
#[verifier::external_body]
pub(crate) fn string_from_chars(v: &[char]) -> (s: String)
    ensures
        s@ == v@,
{
    v.iter().collect()
}

/// Parses `s` as `i64::from_str` does.
pub fn parse_i64(s: &[char]) -> (r: Option<i64>)
    ensures
        r == parse_i64_spec(s@),
{
    let n: usize = s.len();
    if n == 0 {
        return None;
    }
    let mut neg = false;
    let mut start: usize = 0;
    if s[0] == '-' {
        neg = true;
        start = 1;
    } else if s[0] == '+' {
        start = 1;
    }
    let ghost body = s@.subrange(start as int, n as int);
    assert(sign_and_body(s@) == (neg, body)) by {
        if start == 1 {
            assert(body =~= s@.drop_first());
        } else {
            assert(body =~= s@);
        }
    }
    if start == n {
        return None;
    }
    let limit: u64 = 0x8000_0000_0000_0000;
    let mut acc: u64 = 0;
    let mut i: usize = start;
    while i < n
        invariant
            start <= i <= n,
            n == s@.len(),
            body == s@.subrange(start as int, n as int),
            sign_and_body(s@) == (neg, body),
            all_ascii_digits(body.take(i - start)),
            acc == digits_value(body.take(i - start)),
            acc <= limit,
            limit == 0x8000_0000_0000_0000u64,
        decreases n - i,
    {
        let c = s[i];
        if !('0' <= c && c <= '9') {
            assert(body[i - start] == c);
            return None;
        }
        let d: u64 = (c as u32 - '0' as u32) as u64;
        assert(body[i - start] == c);
        proof {
            lemma_digits_value_step(body, i - start);
        }
        assert(d == digit_value(c));
        let next: u128 = (acc as u128) * 10 + (d as u128);
        if next > limit as u128 {
            proof {
                assert(digits_value(body.take(i - start + 1)) > limit);
                if all_ascii_digits(body) {
                    lemma_digits_value_monotone(body, i - start + 1, body.len() as int);
                    assert(body.take(body.len() as int) =~= body);
                    assert(digits_value(body) > limit);
                    assert(body.len() > 0);
                    if neg {
                        assert(parse_integer(s@) == Some(-digits_value(body)));
                    } else {
                        assert(parse_integer(s@) == Some(digits_value(body)));
                    }
                } else {
                    assert(parse_integer(s@).is_none());
                }
            }
            return None;
        }
        acc = next as u64;
        i = i + 1;
        assert(all_ascii_digits(body.take(i - start))) by {
            assert forall|j: int| 0 <= j < i - start implies is_ascii_digit(#[trigger] body.take(i - start)[j]) by {
                if j < i - start - 1 {
                    assert(body.take(i - start)[j] == body.take(i - start - 1)[j]);
                }
            }
        }
    }
    assert(body.take(n - start) =~= body);
    if neg {
        if acc == limit {
            Some(i64::MIN)
        } else {
            Some(-(acc as i64))
        }
    } else {
        if acc > i64::MAX as u64 {
            None
        } else {
            Some(acc as i64)
        }
    }
}

/// The decimal digits of `n`.
pub fn decimal_digits_of(n: u64) -> (r: Vec<char>)
    ensures
        r@ == decimal_digits(n as nat),
    decreases n,
{
    if n < 10 {
        let c = ((n as u8) + 48u8) as char;
        vec![c]
    } else {
        let mut v = decimal_digits_of(n / 10);
        let c = (((n % 10) as u8) + 48u8) as char;
        v.push(c);
        v
    }
}

/// The decimal notation of `v`, as `i64::to_string` writes it.
pub fn decimal_string_of(v: i64) -> (r: Vec<char>)
    ensures
        r@ == decimal_string(v as int),
{
    if v < 0 {
        let m: u64 = if v == i64::MIN {
            0x8000_0000_0000_0000u64
        } else {
            (-v) as u64
        };
        let digits = decimal_digits_of(m);
        let mut r = vec!['-'];
        let mut i: usize = 0;
        while i < digits.len()
            invariant
                0 <= i <= digits.len(),
                r@ == seq!['-'] + digits@.take(i as int),
            decreases digits.len() - i,
        {
            r.push(digits[i]);
            assert(digits@.take(i + 1) =~= digits@.take(i as int).push(digits@[i as int]));
            i = i + 1;
        }
        assert(digits@.take(digits.len() as int) =~= digits@);
        r
    } else {
        decimal_digits_of(v as u64)
    }
}

/// What `str::to_lowercase` gives for a string: its lowercase form under the
/// Unicode character database.
pub uninterp spec fn lowercase_of(s: Seq<char>) -> Seq<char>;

/// Calls `str::to_lowercase`. The contract only names the result: it is
/// `lowercase_of` the argument, so the same text always lowercases to the
/// same text; what the lowercase mapping does to each character is not
/// stated.
#[verifier::external_body]
pub(crate) fn to_lowercase(s: &str) -> (r: String)
    ensures
        r@ == lowercase_of(s@),
{
    s.to_lowercase()
}

/// `s` without the leading characters that satisfy `p`.
pub open spec fn trim_start_where(s: Seq<char>, p: spec_fn(char) -> bool) -> Seq<char>
    decreases s.len(),
{
    if s.len() > 0 && p(s[0]) {
        trim_start_where(s.drop_first(), p)
    } else {
        s
    }
}

/// `s` without the trailing characters that satisfy `p`.
pub open spec fn trim_end_where(s: Seq<char>, p: spec_fn(char) -> bool) -> Seq<char>
    decreases s.len(),
{
    if s.len() > 0 && p(s.last()) {
        trim_end_where(s.drop_last(), p)
    } else {
        s
    }
}

/// `s` without the leading and trailing characters that satisfy `p`.
pub open spec fn trim_where(s: Seq<char>, p: spec_fn(char) -> bool) -> Seq<char> {
    trim_end_where(trim_start_where(s, p), p)
}

pub proof fn lemma_trim_start_where(s: Seq<char>, p: spec_fn(char) -> bool, a: int)
    requires
        0 <= a <= s.len(),
        forall|j: int| 0 <= j < a ==> p(#[trigger] s[j]),
        a == s.len() || !p(s[a]),
    ensures
        trim_start_where(s, p) == s.skip(a),
    decreases a,
{
    if a > 0 {
        lemma_trim_start_where(s.drop_first(), p, a - 1);
        assert(s.drop_first().skip(a - 1) =~= s.skip(a));
    } else {
        assert(s.skip(0) =~= s);
    }
}

pub proof fn lemma_trim_end_where(s: Seq<char>, p: spec_fn(char) -> bool, b: int)
    requires
        0 <= b <= s.len(),
        forall|j: int| b <= j < s.len() ==> p(#[trigger] s[j]),
        b == 0 || !p(s[b - 1]),
    ensures
        trim_end_where(s, p) == s.take(b),
    decreases s.len() - b,
{
    if b < s.len() {
        lemma_trim_end_where(s.drop_last(), p, b);
        assert(s.drop_last().take(b) =~= s.take(b));
    } else {
        assert(s.take(b) =~= s);
    }
}

/// The bounds `(a, b)` of `s` without its leading and trailing characters
/// that satisfy `p`.
pub(crate) fn trim_bounds(s: &[char], Ghost(p): Ghost<spec_fn(char) -> bool>, is_p: impl Fn(char) -> bool) -> (r: (usize, usize))
    requires
        forall|c: char| #[trigger] is_p.requires((c,)),
        forall|c: char, b: bool| is_p.ensures((c,), b) ==> b == p(c),
    ensures
        r.0 <= r.1 <= s@.len(),
        s@.subrange(r.0 as int, r.1 as int) == trim_where(s@, p),
        r.0 < r.1 ==> !p(s@[r.0 as int]) && !p(s@[r.1 - 1]),
{
    let n: usize = s.len();
    let mut a: usize = 0;
    while a < n && is_p(s[a])
        invariant
            a <= n,
            n == s@.len(),
            forall|c: char| #[trigger] is_p.requires((c,)),
            forall|c: char, b: bool| is_p.ensures((c,), b) ==> b == p(c),
            forall|j: int| 0 <= j < a ==> p(#[trigger] s@[j]),
        decreases n - a,
    {
        a = a + 1;
    }
    let mut b: usize = n;
    while b > a && is_p(s[b - 1])
        invariant
            a <= b <= n,
            n == s@.len(),
            forall|c: char| #[trigger] is_p.requires((c,)),
            forall|c: char, b: bool| is_p.ensures((c,), b) ==> b == p(c),
            forall|j: int| b <= j < n ==> p(#[trigger] s@[j]),
        decreases b,
    {
        b = b - 1;
    }
    proof {
        lemma_trim_start_where(s@, p, a as int);
        let t = s@.skip(a as int);
        assert forall|j: int| b - a <= j < t.len() implies p(#[trigger] t[j]) by {
            assert(t[j] == s@[j + a]);
        }
        if b > a {
            assert(t[b - a - 1] == s@[b - 1]);
        }
        lemma_trim_end_where(t, p, b - a);
        assert(t.take(b - a) =~= s@.subrange(a as int, b as int));
    }
    (a, b)
}

} // verus!
