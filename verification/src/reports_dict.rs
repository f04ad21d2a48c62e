//! Learning line titles from stored reports: each stored line teaches the
//! dictionary the key of its title.
use vstd::prelude::*;
use crate::company::{CompanyInfo, RawReport};
use crate::keys::{BalanceKeys, GenericKeys, IncomeKeys, ParsedLineInfo};
use crate::keys_dict::KeysDict;
use crate::lines_classifier::{get_line_token, line_columns, line_title, split_line_to_tokens};
use crate::period::Period;

verus! {

/// The title under which a recognised line is learnt: the title of its first
/// column; `None` for a line without columns.
pub open spec fn learnt_title(line: Seq<char>) -> Option<Seq<char>> {
    let cols = line_columns(line);
    if cols.len() == 0 {
        None
    } else {
        Some(line_title(cols[0]))
    }
}

/// The dictionary after learning one line. With `force` the line's key
/// replaces the key the title had; without it a known title keeps its key.
pub open spec fn learn_line<K: GenericKeys>(d: Map<Seq<char>, K>, line: ParsedLineInfo<K>, force: bool) -> Map<Seq<char>, K> {
    match learnt_title(line.original_line@) {
        None => d,
        Some(t) => if force || !d.contains_key(t) {
            d.insert(t, line.key)
        } else {
            d
        },
    }
}

/// The dictionary after learning lines, in order.
pub open spec fn learn_lines<K: GenericKeys>(d: Map<Seq<char>, K>, lines: Seq<ParsedLineInfo<K>>, force: bool) -> Map<Seq<char>, K>
    decreases lines.len(),
{
    if lines.len() == 0 {
        d
    } else {
        learn_line(learn_lines(d, lines.drop_last(), force), lines.last(), force)
    }
}

/// Learning two runs of lines is learning their concatenation.
pub proof fn lemma_learn_lines_append<K: GenericKeys>(
    d: Map<Seq<char>, K>,
    a: Seq<ParsedLineInfo<K>>,
    b: Seq<ParsedLineInfo<K>>,
    force: bool,
)
    ensures
        learn_lines(d, a + b, force) == learn_lines(learn_lines(d, a, force), b, force),
    decreases b.len(),
{
    if b.len() == 0 {
        assert(a + b =~= a);
    } else {
        assert((a + b).drop_last() =~= a + b.drop_last());
        assert((a + b).last() == b.last());
        lemma_learn_lines_append(d, a, b.drop_last(), force);
    }
}

/// Learning without `force` never changes the key of a title the
/// dictionary already has.
pub proof fn lemma_learning_keeps_known_titles<K: GenericKeys>(
    d: Map<Seq<char>, K>,
    lines: Seq<ParsedLineInfo<K>>,
    t: Seq<char>,
)
    requires
        d.contains_key(t),
    ensures
        learn_lines(d, lines, false).contains_key(t),
        learn_lines(d, lines, false)[t] == d[t],
    decreases lines.len(),
{
    if lines.len() > 0 {
        lemma_learning_keeps_known_titles(d, lines.drop_last(), t);
    }
}

/// After learning, the dictionary has the title of every line that has
/// columns, and every title it had before.
pub proof fn lemma_learning_covers_titles<K: GenericKeys>(
    d: Map<Seq<char>, K>,
    lines: Seq<ParsedLineInfo<K>>,
    force: bool,
)
    ensures
        forall|t: Seq<char>| d.contains_key(t) ==> #[trigger] learn_lines(d, lines, force).contains_key(t),
        forall|i: int|
            0 <= i < lines.len() && #[trigger] learnt_title(lines[i].original_line@) is Some ==> learn_lines(
                d,
                lines,
                force,
            ).contains_key(learnt_title(lines[i].original_line@)->Some_0),
    decreases lines.len(),
{
    if lines.len() > 0 {
        let p = lines.drop_last();
        lemma_learning_covers_titles(d, p, force);
        assert forall|t: Seq<char>| d.contains_key(t) implies #[trigger] learn_lines(d, lines, force).contains_key(t) by {
            assert(learn_lines(d, p, force).contains_key(t));
        }
        assert forall|i: int|
            0 <= i < lines.len() && #[trigger] learnt_title(lines[i].original_line@) is Some implies learn_lines(
                d,
                lines,
                force,
            ).contains_key(learnt_title(lines[i].original_line@)->Some_0) by {
            if i < lines.len() - 1 {
                assert(lines[i] == p[i]);
                assert(learnt_title(p[i].original_line@) is Some);
            }
        }
    }
}

/// With `force`, a title ends up with the key of the last line that has it.
pub proof fn lemma_forced_learning_last_line_wins<K: GenericKeys>(
    d: Map<Seq<char>, K>,
    lines: Seq<ParsedLineInfo<K>>,
    i: int,
)
    requires
        0 <= i < lines.len(),
        learnt_title(lines[i].original_line@) is Some,
        forall|j: int|
            i < j < lines.len() ==> #[trigger] learnt_title(lines[j].original_line@) != learnt_title(
                lines[i].original_line@,
            ),
    ensures
        learn_lines(d, lines, true)[learnt_title(lines[i].original_line@)->Some_0] == lines[i].key,
    decreases lines.len(),
{
    let t = learnt_title(lines[i].original_line@)->Some_0;
    if i < lines.len() - 1 {
        let p = lines.drop_last();
        assert(p[i] == lines[i]);
        assert forall|j: int| i < j < p.len() implies #[trigger] learnt_title(p[j].original_line@) != learnt_title(
            p[i].original_line@,
        ) by {
            assert(p[j] == lines[j]);
        }
        lemma_forced_learning_last_line_wins(d, p, i);
        assert(learnt_title(lines[lines.len() - 1].original_line@) != learnt_title(lines[i].original_line@));
    }
}

/// Teaches a dictionary the titles of some lines, in order.
pub fn learn_from_lines<Keys: GenericKeys>(dict: &mut KeysDict<Keys>, lines: &[ParsedLineInfo<Keys>], force: bool)
    ensures
        final(dict)@ == learn_lines(old(dict)@, lines@, force),
{
    let mut i: usize = 0;
    assert(lines@.take(0) =~= Seq::<ParsedLineInfo<Keys>>::empty());
    while i < lines.len()
        invariant
            i <= lines@.len(),
            dict@ == learn_lines(old(dict)@, lines@.take(i as int), force),
        decreases lines@.len() - i,
    {
        let ghost prefix = lines@.take(i + 1);
        assert(prefix.drop_last() =~= lines@.take(i as int));
        assert(prefix.last() == lines@[i as int]);
        let line = &lines[i];
        let tokens = split_line_to_tokens(line.original_line.as_str());
        if tokens.len() > 0 {
            let token = get_line_token(tokens.as_slice());
            if force {
                dict.insert(token, line.key);
            } else {
                dict.insert_if_absent(token, line.key);
            }
        }
        i = i + 1;
    }
    assert(lines@.take(i as int) =~= lines@);
}

/// The balance lines of raw reports, in order.
pub open spec fn balance_lines_of(raw: Seq<(Period, RawReport)>) -> Seq<ParsedLineInfo<BalanceKeys>>
    decreases raw.len(),
{
    if raw.len() == 0 {
        Seq::empty()
    } else {
        balance_lines_of(raw.drop_last()) + match raw.last().1.balance {
            Some(v) => v@,
            None => Seq::empty(),
        }
    }
}

/// The income lines of raw reports, in order.
pub open spec fn income_lines_of(raw: Seq<(Period, RawReport)>) -> Seq<ParsedLineInfo<IncomeKeys>>
    decreases raw.len(),
{
    if raw.len() == 0 {
        Seq::empty()
    } else {
        income_lines_of(raw.drop_last()) + match raw.last().1.income {
            Some(v) => v@,
            None => Seq::empty(),
        }
    }
}

/// The balance lines of companies, company by company.
pub open spec fn company_balance_lines(cs: Seq<CompanyInfo>) -> Seq<ParsedLineInfo<BalanceKeys>>
    decreases cs.len(),
{
    if cs.len() == 0 {
        Seq::empty()
    } else {
        company_balance_lines(cs.drop_last()) + balance_lines_of(cs.last().reports())
    }
}

/// The income lines of companies, company by company.
pub open spec fn company_income_lines(cs: Seq<CompanyInfo>) -> Seq<ParsedLineInfo<IncomeKeys>>
    decreases cs.len(),
{
    if cs.len() == 0 {
        Seq::empty()
    } else {
        company_income_lines(cs.drop_last()) + income_lines_of(cs.last().reports())
    }
}

/// Teaches a dictionary the titles of the balance lines of some companies.
pub fn learn_balance_titles(dict: &mut KeysDict<BalanceKeys>, companies: &[CompanyInfo], force: bool)
    ensures
        final(dict)@ == learn_lines(old(dict)@, company_balance_lines(companies@), force),
{
    let mut c: usize = 0;
    assert(companies@.take(0) =~= Seq::<CompanyInfo>::empty());
    while c < companies.len()
        invariant
            c <= companies@.len(),
            dict@ == learn_lines(old(dict)@, company_balance_lines(companies@.take(c as int)), force),
        decreases companies@.len() - c,
    {
        let ghost cprefix = companies@.take(c + 1);
        assert(cprefix.drop_last() =~= companies@.take(c as int));
        assert(cprefix.last() == companies@[c as int]);
        let ghost start = dict@;
        let raw = companies[c].raw_reports();
        let mut i: usize = 0;
        assert(raw@.take(0) =~= Seq::<(Period, RawReport)>::empty());
        assert(learn_lines(start, Seq::empty(), force) == start);
        while i < raw.len()
            invariant
                i <= raw@.len(),
                dict@ == learn_lines(start, balance_lines_of(raw@.take(i as int)), force),
            decreases raw@.len() - i,
        {
            let ghost prefix = raw@.take(i + 1);
            assert(prefix.drop_last() =~= raw@.take(i as int));
            assert(prefix.last() == raw@[i as int]);
            match &raw[i].1.balance {
                Some(lines) => {
                    learn_from_lines(dict, lines.as_slice(), force);
                    proof {
                        lemma_learn_lines_append(start, balance_lines_of(raw@.take(i as int)), lines@, force);
                    }
                },
                None => {
                    assert(balance_lines_of(prefix) =~= balance_lines_of(raw@.take(i as int)));
                },
            }
            i = i + 1;
        }
        assert(raw@.take(i as int) =~= raw@);
        proof {
            lemma_learn_lines_append(
                old(dict)@,
                company_balance_lines(companies@.take(c as int)),
                balance_lines_of(raw@),
                force,
            );
        }
        c = c + 1;
    }
    assert(companies@.take(c as int) =~= companies@);
}

/// Teaches a dictionary the titles of the income lines of some companies.
pub fn learn_income_titles(dict: &mut KeysDict<IncomeKeys>, companies: &[CompanyInfo], force: bool)
    ensures
        final(dict)@ == learn_lines(old(dict)@, company_income_lines(companies@), force),
{
    let mut c: usize = 0;
    assert(companies@.take(0) =~= Seq::<CompanyInfo>::empty());
    while c < companies.len()
        invariant
            c <= companies@.len(),
            dict@ == learn_lines(old(dict)@, company_income_lines(companies@.take(c as int)), force),
        decreases companies@.len() - c,
    {
        let ghost cprefix = companies@.take(c + 1);
        assert(cprefix.drop_last() =~= companies@.take(c as int));
        assert(cprefix.last() == companies@[c as int]);
        let ghost start = dict@;
        let raw = companies[c].raw_reports();
        let mut i: usize = 0;
        assert(raw@.take(0) =~= Seq::<(Period, RawReport)>::empty());
        assert(learn_lines(start, Seq::empty(), force) == start);
        while i < raw.len()
            invariant
                i <= raw@.len(),
                dict@ == learn_lines(start, income_lines_of(raw@.take(i as int)), force),
            decreases raw@.len() - i,
        {
            let ghost prefix = raw@.take(i + 1);
            assert(prefix.drop_last() =~= raw@.take(i as int));
            assert(prefix.last() == raw@[i as int]);
            match &raw[i].1.income {
                Some(lines) => {
                    learn_from_lines(dict, lines.as_slice(), force);
                    proof {
                        lemma_learn_lines_append(start, income_lines_of(raw@.take(i as int)), lines@, force);
                    }
                },
                None => {
                    assert(income_lines_of(prefix) =~= income_lines_of(raw@.take(i as int)));
                },
            }
            i = i + 1;
        }
        assert(raw@.take(i as int) =~= raw@);
        proof {
            lemma_learn_lines_append(
                old(dict)@,
                company_income_lines(companies@.take(c as int)),
                income_lines_of(raw@),
                force,
            );
        }
        c = c + 1;
    }
    assert(companies@.take(c as int) =~= companies@);
}

} // verus!
