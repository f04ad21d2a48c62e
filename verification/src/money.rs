//! Amounts of money in whole roubles, and the units in which reports give them.
use vstd::prelude::*;
use crate::text::{decimal_digits, decimal_digits_of, string_from_chars};
use vstd::std_specs::cmp::{PartialOrdSpec, PartialOrdSpecImpl};

verus! {

/// An amount of money in whole roubles.
#[derive(Debug, Clone, Copy, PartialEq, Eq, Structural)]
pub struct Money {
    roubles: i64,
}

impl View for Money {
    type V = int;

    closed spec fn view(&self) -> int {
        self.roubles as int
    }
}

/// Every amount lies in the `i64` range of whole roubles.
pub broadcast proof fn lemma_money_range(m: Money)
    ensures
        #[trigger] fits_i64(m@),
{
}

/// The amount of `v` roubles, for `v` in the `i64` range.
pub closed spec fn money_of(v: int) -> Money {
    Money { roubles: v as i64 }
}

pub broadcast proof fn lemma_money_of(v: int)
    requires
        fits_i64(v),
    ensures
        (#[trigger] money_of(v))@ == v,
{
}

pub broadcast proof fn lemma_money_of_view(m: Money)
    ensures
        #[trigger] money_of(m@) == m,
{
}

/// Two amounts with the same number of roubles are the same amount.
pub proof fn lemma_money_ext(a: Money, b: Money)
    requires
        a@ == b@,
    ensures
        a == b,
{
}

/// True when `v` fits in the range of whole roubles that `Money` can hold.
pub open spec fn fits_i64(v: int) -> bool {
    i64::MIN <= v <= i64::MAX
}

impl Money {
    pub fn zero() -> (r: Money)
        ensures
            r@ == 0,
    {
        Money { roubles: 0 }
    }

    pub fn from_thousands(thousands: i64) -> (r: Money)
        requires
            fits_i64(thousands * 1000),
        ensures
            r@ == thousands * 1000,
    {
        Money { roubles: thousands * 1000 }
    }

    pub fn from_millions(millions: i64) -> (r: Money)
        requires
            fits_i64(millions * 1000000),
        ensures
            r@ == millions * 1000000,
    {
        Money { roubles: millions * 1000000 }
    }

    pub fn from_roubles(roubles: i64) -> (r: Money)
        ensures
            r@ == roubles,
    {
        Money { roubles }
    }

    pub fn in_roubles(&self) -> (r: i64)
        ensures
            r == self@,
    {
        self.roubles
    }
}

/// Amounts are ordered by their number of roubles.
impl PartialOrd for Money {
    fn partial_cmp(&self, other: &Money) -> (r: Option<core::cmp::Ordering>) {
        if self.roubles < other.roubles {
            Some(core::cmp::Ordering::Less)
        } else if self.roubles == other.roubles {
            Some(core::cmp::Ordering::Equal)
        } else {
            Some(core::cmp::Ordering::Greater)
        }
    }
}

impl PartialOrdSpecImpl for Money {
    open spec fn obeys_partial_cmp_spec() -> bool {
        true
    }

    open spec fn partial_cmp_spec(&self, other: &Money) -> Option<core::cmp::Ordering> {
        if self@ < other@ {
            Some(core::cmp::Ordering::Less)
        } else if self@ == other@ {
            Some(core::cmp::Ordering::Equal)
        } else {
            Some(core::cmp::Ordering::Greater)
        }
    }
}

/// Amounts compare as their numbers of roubles do: `a < b` exactly when
/// `a@ < b@`, `a <= b` exactly when `a@ <= b@`, and two amounts are equal
/// exactly when their numbers of roubles are.
pub proof fn lemma_money_order(a: Money, b: Money)
    ensures
        (PartialOrdSpec::partial_cmp_spec(&a, &b) == Some(core::cmp::Ordering::Less)) <==> a@ < b@,
        (PartialOrdSpec::partial_cmp_spec(&a, &b) == Some(core::cmp::Ordering::Greater)) <==> a@ > b@,
        (PartialOrdSpec::partial_cmp_spec(&a, &b) matches Some(core::cmp::Ordering::Less | core::cmp::Ordering::Equal)) <==> a@ <= b@,
        (a == b) <==> a@ == b@,
        money_of(a@) == a,
{
}

impl core::ops::Add for Money {
    type Output = Money;

    fn add(self, rhs: Money) -> (r: Money)
        ensures
            r@ == self@ + rhs@,
    {
        Money { roubles: self.roubles + rhs.roubles }
    }
}

impl vstd::std_specs::ops::AddSpecImpl for Money {
    open spec fn obeys_add_spec() -> bool {
        true
    }

    open spec fn add_req(self, rhs: Money) -> bool {
        fits_i64(self@ + rhs@)
    }

    open spec fn add_spec(self, rhs: Money) -> Money {
        money_of(self@ + rhs@)
    }
}

impl core::ops::Sub for Money {
    type Output = Money;

    fn sub(self, rhs: Money) -> (r: Money)
        ensures
            r@ == self@ - rhs@,
    {
        Money { roubles: self.roubles - rhs.roubles }
    }
}

impl vstd::std_specs::ops::SubSpecImpl for Money {
    open spec fn obeys_sub_spec() -> bool {
        true
    }

    open spec fn sub_req(self, rhs: Money) -> bool {
        fits_i64(self@ - rhs@)
    }

    open spec fn sub_spec(self, rhs: Money) -> Money {
        money_of(self@ - rhs@)
    }
}

/// The unit in which a report gives its amounts.
#[derive(Debug, Clone, Copy, PartialEq, Eq, Structural)]
pub enum MoneyMultiplier {
    Thousands,
    Millions,
}

/// The number of roubles in one unit.
pub open spec fn unit_roubles(m: MoneyMultiplier) -> int {
    match m {
        MoneyMultiplier::Thousands => 1000,
        MoneyMultiplier::Millions => 1000000,
    }
}

impl MoneyMultiplier {
    /// The name of the unit: `Thousands` or `Millions`.
    pub fn name(&self) -> (r: &'static str)
        ensures
            r@ == (if *self == MoneyMultiplier::Thousands {
                "Thousands"@
            } else {
                "Millions"@
            }),
    {
        match self {
            MoneyMultiplier::Thousands => "Thousands",
            MoneyMultiplier::Millions => "Millions",
        }
    }

    /// The unit with the given name, matched exactly.
    pub fn from_name(s: &str) -> (r: Option<MoneyMultiplier>)
        ensures
            r == (if s@ == "Thousands"@ {
                Some(MoneyMultiplier::Thousands)
            } else if s@ == "Millions"@ {
                Some(MoneyMultiplier::Millions)
            } else {
                None
            }),
    {
        if crate::keys::str_eq(s, "Thousands") {
            Some(MoneyMultiplier::Thousands)
        } else if crate::keys::str_eq(s, "Millions") {
            Some(MoneyMultiplier::Millions)
        } else {
            None
        }
    }
}

/// Groups of three digits, each followed by a space.
pub open spec fn digit_groups(d: Seq<char>) -> Seq<char>
    decreases d.len(),
{
    if d.len() < 3 {
        Seq::empty()
    } else {
        d.take(3) + seq![' '] + digit_groups(d.skip(3))
    }
}

/// How an amount is written: its sign, then its decimal digits split into
/// groups of three from the right, each group followed by a space, then the
/// rouble sign; for example `-2 345 000 ₽`.
pub open spec fn money_text(roubles: int) -> Seq<char> {
    let d = decimal_digits((if roubles < 0 { -roubles } else { roubles }) as nat);
    let first = d.len() % 3;
    (if roubles < 0 { seq!['-'] } else { Seq::<char>::empty() }) + (if first > 0 {
        d.take(first as int) + seq![' ']
    } else {
        Seq::<char>::empty()
    }) + digit_groups(d.skip(first as int)) + seq!['\u{20BD}']
}

impl Money {
    /// The amount written with thousands separators and the rouble sign.
    pub fn to_string(&self) -> (r: String)
        requires
            self@ > i64::MIN,
        ensures
            r@ == money_text(self@),
    {
        let magnitude: u64 = if self.roubles < 0 {
            (-self.roubles) as u64
        } else {
            self.roubles as u64
        };
        let work = decimal_digits_of(magnitude);
        let ghost d = work@;
        let len: usize = work.len();
        let mut out: Vec<char> = Vec::new();
        if self.roubles < 0 {
            out.push('-');
        }
        let first: usize = len % 3;
        let mut k: usize = 0;
        while k < first
            invariant
                k <= first,
                first == len % 3,
                len == d.len(),
                d == work@,
                out@ == (if self@ < 0 { seq!['-'] } else { Seq::<char>::empty() }) + d.take(k as int),
            decreases first - k,
        {
            out.push(work[k]);
            k = k + 1;
            assert(d.take(k as int) =~= d.take(k - 1).push(d[k - 1]));
        }
        if first > 0 {
            out.push(' ');
        }
        let ghost head = out@;
        assert(head == (if self@ < 0 { seq!['-'] } else { Seq::<char>::empty() }) + (if first > 0 {
            d.take(first as int) + seq![' ']
        } else {
            Seq::<char>::empty()
        }));
        let mut idx: usize = first;
        while idx < len
            invariant
                first <= idx <= len,
                len == d.len(),
                d == work@,
                (len - idx) % 3 == 0,
                out@ + digit_groups(d.skip(idx as int)) == head + digit_groups(d.skip(first as int)),
            decreases len - idx,
        {
            let ghost before = out@;
            out.push(work[idx]);
            out.push(work[idx + 1]);
            out.push(work[idx + 2]);
            out.push(' ');
            assert(d.skip(idx as int).take(3) =~= seq![d[idx as int], d[idx + 1], d[idx + 2]]);
            assert(d.skip(idx as int).skip(3) =~= d.skip(idx + 3));
            assert(out@ =~= before + d.skip(idx as int).take(3) + seq![' ']);
            idx = idx + 3;
        }
        assert(d.skip(len as int) =~= Seq::<char>::empty());
        out.push('\u{20BD}');
        string_from_chars(out.as_slice())
    }
}

/// A negative amount is written as its magnitude with a leading `-`.
pub proof fn lemma_money_text_sign(v: int)
    requires
        v > 0,
    ensures
        money_text(-v) == seq!['-'] + money_text(v),
{
    let d = decimal_digits(v as nat);
    let first = d.len() % 3;
    let rest = (if first > 0 {
        d.take(first as int) + seq![' ']
    } else {
        Seq::<char>::empty()
    }) + digit_groups(d.skip(first as int)) + seq!['\u{20BD}'];
    assert(money_text(v) =~= rest);
    assert(money_text(-v) =~= seq!['-'] + rest);
}

} // verus!
