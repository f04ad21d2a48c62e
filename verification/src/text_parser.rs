//! Parsing classified report lines into balance and income reports.
//!
//! A report is a run of sections, each closed by the line that gives its
//! total (such as `TotalNonCurrentAssets`). The lines of a section are summed
//! by key, the sums must match the section's total, and the sections are put
//! together into the report.
use vstd::prelude::*;
use crate::balance_report::{
    Assets, AssetsView, BalanceReport, BalanceReportView, CurrentAssets, CurrentAssetsView,
    CurrentLiabilities, CurrentLiabilitiesView, Equity, EquityView, Liabilities, LiabilitiesView,
    LongTermLiabilities, LongTermLiabilitiesView, NonCurrentAssets, NonCurrentAssetsView,
};
use crate::income_report::{
    financial_segment_check, gross_profit_segment_check, operational_segment_check,
    FinancialSegment, FinancialSegmentView, GrossProfitSegment, GrossProfitSegmentView,
    IncomeReport, IncomeReportView, OperationalSegment, OperationalSegmentView,
};
use crate::keys::{BalanceKeys, GenericKeys, IncomeKeys, ParsedLineInfo};
use crate::keys_dict::KeysDict;
use crate::lines_classifier::{classify_page, line_matches, LinesClassifier, MapKeyClasifier};
use crate::money::{fits_i64, lemma_money_of, lemma_money_of_view, lemma_money_range, money_of, Money, MoneyMultiplier};
use crate::report_error::{ModelError, ParseError};

verus! {

broadcast use lemma_money_range, lemma_money_of, lemma_money_of_view;

/// The view of an exec result.
pub open spec fn view_result<T: View, E>(r: Result<T, E>) -> Result<T::V, E> {
    match r {
        Ok(x) => Ok(x@),
        Err(e) => Err(e),
    }
}

// ---------------------------------------------------------------- sections

/// The index of the first line at or after `i` whose key is `k`.
pub open spec fn find_key_from<K: GenericKeys>(s: Seq<ParsedLineInfo<K>>, i: int, k: K) -> Option<int>
    decreases s.len() - i,
{
    if i < 0 || i >= s.len() {
        None
    } else if s[i].key == k {
        Some(i)
    } else {
        find_key_from(s, i + 1, k)
    }
}

proof fn lemma_find_key_from<K: GenericKeys>(s: Seq<ParsedLineInfo<K>>, i: int, k: K)
    requires
        0 <= i,
    ensures
        find_key_from(s, i, k) matches Some(e) ==> i <= e < s.len() && s[e].key == k,
    decreases s.len() - i,
{
    if 0 <= i < s.len() && s[i].key != k {
        lemma_find_key_from(s, i + 1, k);
    }
}

/// Walks through the lines of a report section by section.
struct BatchParserHelper<'a, Keys: GenericKeys> {
    analyzed_lines: &'a [ParsedLineInfo<Keys>],
    next_line_idx: usize,
}

impl<'a, Keys: GenericKeys> BatchParserHelper<'a, Keys> {
    fn new(analyzed_lines: &'a [ParsedLineInfo<Keys>]) -> (r: Self)
        ensures
            r.analyzed_lines@ == analyzed_lines@,
            r.next_line_idx == 0,
    {
        BatchParserHelper { analyzed_lines, next_line_idx: 0 }
    }

    /// The bounds of the next section: from the current line up to and
    /// including the next line whose key is `delimeter_key`.
    fn parse_next(&mut self, delimeter_key: Keys) -> (r: Result<(usize, usize), ParseError<Keys>>)
        requires
            old(self).next_line_idx <= old(self).analyzed_lines@.len(),
        ensures
            final(self).analyzed_lines@ == old(self).analyzed_lines@,
            match find_key_from(old(self).analyzed_lines@, old(self).next_line_idx as int, delimeter_key) {
                None => r == Err::<(usize, usize), ParseError<Keys>>(
                    ParseError::DelimiterNotFound(delimeter_key),
                ),
                Some(e) => r == Ok::<(usize, usize), ParseError<Keys>>(
                    (old(self).next_line_idx, (e + 1) as usize),
                ) && final(self).next_line_idx == e + 1,
            },
            final(self).next_line_idx <= final(self).analyzed_lines@.len(),
    {
        let n: usize = self.analyzed_lines.len();
        let start: usize = self.next_line_idx;
        let mut i: usize = start;
        while i < n && !self.analyzed_lines[i].key.same_key(&delimeter_key)
            invariant
                start <= i <= n,
                n == self.analyzed_lines@.len(),
                find_key_from(self.analyzed_lines@, start as int, delimeter_key) == find_key_from(
                    self.analyzed_lines@,
                    i as int,
                    delimeter_key,
                ),
            decreases n - i,
        {
            i = i + 1;
        }
        if i == n {
            return Err(ParseError::DelimiterNotFound(delimeter_key));
        }
        self.next_line_idx = i + 1;
        Ok((start, i + 1))
    }
}

// ---------------------------------------------------------------- sums by key

/// The position of the first of `keys` at or after `j` that equals `k`.
pub open spec fn key_index_from<K>(keys: Seq<K>, k: K, j: int) -> Option<int>
    decreases keys.len() - j,
{
    if j < 0 || j >= keys.len() {
        None
    } else if keys[j] == k {
        Some(j)
    } else {
        key_index_from(keys, k, j + 1)
    }
}

/// The sums of the values of a section's lines, one sum per key of `keys`,
/// adding the lines in order. A line whose key is not among `keys` fails the
/// section; so does a running sum that leaves the `i64` range.
pub open spec fn collect<K: GenericKeys>(lines: Seq<ParsedLineInfo<K>>, keys: Seq<K>) -> Result<Seq<int>, ParseError<K>>
    decreases lines.len(),
{
    if lines.len() == 0 {
        Ok(Seq::new(keys.len(), |j: int| 0))
    } else {
        match collect(lines.drop_last(), keys) {
            Err(e) => Err(e),
            Ok(sums) => {
                let l = lines.last();
                match key_index_from(keys, l.key, 0) {
                    None => Err(ParseError::UnexpectedKey(l.key)),
                    Some(j) => if fits_i64(sums[j] + l.value@) {
                        Ok(sums.update(j, sums[j] + l.value@))
                    } else {
                        Err(ParseError::Overflow)
                    },
                }
            },
        }
    }
}

pub(crate) proof fn lemma_key_index_from<K>(keys: Seq<K>, k: K, j: int)
    requires
        0 <= j,
    ensures
        key_index_from(keys, k, j) matches Some(x) ==> j <= x < keys.len() && keys[x] == k,
        key_index_from(keys, k, j) is None ==> forall|x: int| j <= x < keys.len() ==> keys[x] != k,
    decreases keys.len() - j,
{
    if 0 <= j < keys.len() && keys[j] != k {
        lemma_key_index_from(keys, k, j + 1);
    }
}

pub(crate) proof fn lemma_collect_len<K: GenericKeys>(lines: Seq<ParsedLineInfo<K>>, keys: Seq<K>)
    ensures
        collect(lines, keys) matches Ok(sums) ==> sums.len() == keys.len(),
    decreases lines.len(),
{
    if lines.len() > 0 {
        lemma_collect_len(lines.drop_last(), keys);
        lemma_key_index_from(keys, lines.last().key, 0);
    }
}

/// Sums the values of the lines with one key.
#[derive(Clone, Copy)]
struct ParsedLineInfoCollector<Keys> {
    key: Keys,
    result: Money,
}

impl<Keys: GenericKeys> ParsedLineInfoCollector<Keys> {
    fn new(key: Keys) -> (r: Self)
        ensures
            r.key == key,
            r.result@ == 0,
    {
        ParsedLineInfoCollector { key, result: Money::zero() }
    }

    fn result(&self) -> (r: Money)
        ensures
            r == self.result,
    {
        self.result
    }

    /// Adds the value of `line` when the line has this collector's key.
    /// `None` when the sum would not fit.
    fn try_accept(&mut self, line: &ParsedLineInfo<Keys>) -> (r: Option<bool>)
        ensures
            final(self).key == old(self).key,
            line.key != old(self).key ==> r == Some(false) && final(self).result == old(self).result,
            line.key == old(self).key && fits_i64(old(self).result@ + line.value@) ==> r == Some(true)
                && final(self).result@ == old(self).result@ + line.value@,
            line.key == old(self).key && !fits_i64(old(self).result@ + line.value@) ==> r is None,
    {
        if line.key.same_key(&self.key) {
            match self.result.in_roubles().checked_add(line.value.in_roubles()) {
                Some(_) => {
                    self.result = self.result + line.value;
                    Some(true)
                },
                None => None,
            }
        } else {
            Some(false)
        }
    }
}

spec fn collector_keys<K>(cs: Seq<ParsedLineInfoCollector<K>>) -> Seq<K> {
    Seq::new(cs.len(), |j: int| cs[j].key)
}

spec fn collector_sums<K>(cs: Seq<ParsedLineInfoCollector<K>>) -> Seq<int> {
    Seq::new(cs.len(), |j: int| cs[j].result@)
}

/// Hands one line to the first collector with its key.
fn accept_line<Keys: GenericKeys>(
    all_collectors: &mut Vec<ParsedLineInfoCollector<Keys>>,
    item: &ParsedLineInfo<Keys>,
) -> (r: Result<(), ParseError<Keys>>)
    ensures
        collector_keys(final(all_collectors)@) == collector_keys(old(all_collectors)@),
        match key_index_from(collector_keys(old(all_collectors)@), item.key, 0) {
            None => r == Err::<(), ParseError<Keys>>(ParseError::UnexpectedKey(item.key)),
            Some(j) => {
                let sums = collector_sums(old(all_collectors)@);
                if fits_i64(sums[j] + item.value@) {
                    r is Ok && collector_sums(final(all_collectors)@) == sums.update(
                        j,
                        sums[j] + item.value@,
                    )
                } else {
                    r == Err::<(), ParseError<Keys>>(ParseError::Overflow)
                }
            },
        },
{
    let ghost keys = collector_keys(all_collectors@);
    let ghost sums = collector_sums(all_collectors@);
    let n: usize = all_collectors.len();
    let mut j: usize = 0;
    while j < n
        invariant
            j <= n,
            n == all_collectors@.len(),
            all_collectors@ == old(all_collectors)@,
            keys == collector_keys(all_collectors@),
            sums == collector_sums(all_collectors@),
            key_index_from(keys, item.key, 0) == key_index_from(keys, item.key, j as int),
        decreases n - j,
    {
        let mut c = all_collectors[j];
        match c.try_accept(item) {
            Some(true) => {
                all_collectors.set(j, c);
                assert(collector_keys(all_collectors@) =~= keys);
                assert(collector_sums(all_collectors@) =~= sums.update(j as int, sums[j as int] + item.value@));
                return Ok(());
            },
            Some(false) => {},
            None => {
                return Err(ParseError::Overflow);
            },
        }
        j = j + 1;
    }
    Err(ParseError::UnexpectedKey(item.key))
}

/// Feeds the lines of a section, in order, to collectors that start at zero.
fn parse_common_helper<Keys: GenericKeys>(
    report_lines: &[ParsedLineInfo<Keys>],
    all_collectors: &mut Vec<ParsedLineInfoCollector<Keys>>,
) -> (r: Result<(), ParseError<Keys>>)
    requires
        forall|j: int| 0 <= j < old(all_collectors)@.len() ==> (#[trigger] old(all_collectors)@[j]).result@ == 0,
    ensures
        collector_keys(final(all_collectors)@) == collector_keys(old(all_collectors)@),
        match collect(report_lines@, collector_keys(old(all_collectors)@)) {
            Err(e) => r == Err::<(), ParseError<Keys>>(e),
            Ok(sums) => r is Ok && collector_sums(final(all_collectors)@) == sums,
        },
{
    let ghost keys = collector_keys(all_collectors@);
    assert(collector_sums(all_collectors@) =~= Seq::new(keys.len(), |j: int| 0int));
    assert(report_lines@.take(0) =~= Seq::<ParsedLineInfo<Keys>>::empty());
    let mut i: usize = 0;
    while i < report_lines.len()
        invariant
            i <= report_lines@.len(),
            keys == collector_keys(all_collectors@),
            keys == collector_keys(old(all_collectors)@),
            collect(report_lines@.take(i as int), keys) == Ok::<Seq<int>, ParseError<Keys>>(
                collector_sums(all_collectors@),
            ),
        decreases report_lines@.len() - i,
    {
        let ghost prefix = report_lines@.take(i + 1);
        assert(prefix.drop_last() =~= report_lines@.take(i as int));
        assert(prefix.last() == report_lines@[i as int]);
        match accept_line(all_collectors, &report_lines[i]) {
            Ok(()) => {},
            Err(e) => {
                proof {
                    lemma_collect_err_extends(report_lines@, keys, i + 1);
                }
                return Err(e);
            },
        }
        i = i + 1;
    }
    assert(report_lines@.take(i as int) =~= report_lines@);
    Ok(())
}

/// Once the lines up to `k` fail, the whole section fails with the same error.
proof fn lemma_collect_err_extends<K: GenericKeys>(lines: Seq<ParsedLineInfo<K>>, keys: Seq<K>, k: int)
    requires
        0 <= k <= lines.len(),
        collect(lines.take(k), keys) is Err,
    ensures
        collect(lines, keys) == collect(lines.take(k), keys),
    decreases lines.len() - k,
{
    if k < lines.len() {
        assert(lines.take(k + 1).drop_last() =~= lines.take(k));
        lemma_collect_err_extends(lines, keys, k + 1);
    } else {
        assert(lines.take(k) =~= lines);
    }
}


// ---------------------------------------------------------------- balance sections

/// The running sums of the non-current assets section: fixed, intangible,
/// financial and other assets are added up; a total line sets the total (the
/// last such line wins). Any other key fails the section.
pub open spec fn non_current_fold(lines: Seq<ParsedLineInfo<BalanceKeys>>) -> Result<(int, int, int, int, int), ParseError<BalanceKeys>>
    decreases lines.len(),
{
    if lines.len() == 0 {
        Ok((0, 0, 0, 0, 0))
    } else {
        match non_current_fold(lines.drop_last()) {
            Err(e) => Err(e),
            Ok((f, n, fi, o, t)) => {
                let l = lines.last();
                let v = l.value@;
                match l.key {
                    BalanceKeys::FixedAssets => if fits_i64(f + v) {
                        Ok((f + v, n, fi, o, t))
                    } else {
                        Err(ParseError::Overflow)
                    },
                    BalanceKeys::NonMaterialAssets => if fits_i64(n + v) {
                        Ok((f, n + v, fi, o, t))
                    } else {
                        Err(ParseError::Overflow)
                    },
                    BalanceKeys::FinancialAssets => if fits_i64(fi + v) {
                        Ok((f, n, fi + v, o, t))
                    } else {
                        Err(ParseError::Overflow)
                    },
                    BalanceKeys::Other => if fits_i64(o + v) {
                        Ok((f, n, fi, o + v, t))
                    } else {
                        Err(ParseError::Overflow)
                    },
                    BalanceKeys::TotalNonCurrentAssets => Ok((f, n, fi, o, v)),
                    _ => Err(ParseError::UnexpectedKey(l.key)),
                }
            },
        }
    }
}

/// Checks a section's computed total against the total the report gives.
pub open spec fn checked_total<K, V>(section: K, fits: bool, calculated: int, provided: int, v: V) -> Result<V, ParseError<K>> {
    if !fits {
        Err(ParseError::Overflow)
    } else if calculated != provided {
        Err(ParseError::TotalMismatch { section, calculated: money_of(calculated), provided: money_of(provided) })
    } else {
        Ok(v)
    }
}

/// The non-current assets that a section gives.
pub open spec fn non_current_assets_of(lines: Seq<ParsedLineInfo<BalanceKeys>>) -> Result<NonCurrentAssetsView, ParseError<BalanceKeys>> {
    match non_current_fold(lines) {
        Err(e) => Err(e),
        Ok((f, n, fi, o, t)) => {
            let v = NonCurrentAssetsView { fixed_assets: f, non_material_assets: n, financial_assets: fi, other: o };
            checked_total(BalanceKeys::TotalNonCurrentAssets, v.total_fits(), v.total(), t, v)
        },
    }
}

pub open spec fn current_assets_keys() -> Seq<BalanceKeys> {
    seq![
        BalanceKeys::PhysicalInventory,
        BalanceKeys::AccountsReceivable,
        BalanceKeys::Cash,
        BalanceKeys::FinancialAssets,
        BalanceKeys::Other,
        BalanceKeys::TotalCurrentAssets,
    ]
}

/// The current assets that a section gives.
pub open spec fn current_assets_of(lines: Seq<ParsedLineInfo<BalanceKeys>>) -> Result<CurrentAssetsView, ParseError<BalanceKeys>> {
    match collect(lines, current_assets_keys()) {
        Err(e) => Err(e),
        Ok(s) => {
            let v = CurrentAssetsView {
                physical_inventory: s[0],
                accounts_receivable: s[1],
                cash: s[2],
                financial_assets: s[3],
                other: s[4],
            };
            checked_total(BalanceKeys::TotalCurrentAssets, v.total_fits(), v.total(), s[5], v)
        },
    }
}

pub open spec fn equity_keys() -> Seq<BalanceKeys> {
    seq![
        BalanceKeys::AuthorisedCapital,
        BalanceKeys::CapitalSurplus,
        BalanceKeys::RetainedEarnings,
        BalanceKeys::Other,
        BalanceKeys::TotalEquity,
    ]
}

/// The equity that a section gives.
pub open spec fn equity_of(lines: Seq<ParsedLineInfo<BalanceKeys>>) -> Result<EquityView, ParseError<BalanceKeys>> {
    match collect(lines, equity_keys()) {
        Err(e) => Err(e),
        Ok(s) => {
            let v = EquityView { authorised_capital: s[0], capital_surplus: s[1], retained_earnings: s[2], other: s[3] };
            checked_total(BalanceKeys::TotalEquity, v.total_fits(), v.total(), s[4], v)
        },
    }
}

pub open spec fn liabilities_keys(total: BalanceKeys) -> Seq<BalanceKeys> {
    seq![BalanceKeys::Loans, BalanceKeys::AccountsPayable, BalanceKeys::Other, total]
}

/// The long-term liabilities that a section gives.
pub open spec fn long_term_liabilities_of(lines: Seq<ParsedLineInfo<BalanceKeys>>) -> Result<LongTermLiabilitiesView, ParseError<BalanceKeys>> {
    match collect(lines, liabilities_keys(BalanceKeys::TotalLongTermLiabilities)) {
        Err(e) => Err(e),
        Ok(s) => {
            let v = LongTermLiabilitiesView { loans: s[0], accounts_payable: s[1], other: s[2] };
            checked_total(BalanceKeys::TotalLongTermLiabilities, v.total_fits(), v.total(), s[3], v)
        },
    }
}

/// The short-term liabilities that a section gives.
pub open spec fn current_liabilities_of(lines: Seq<ParsedLineInfo<BalanceKeys>>) -> Result<CurrentLiabilitiesView, ParseError<BalanceKeys>> {
    match collect(lines, liabilities_keys(BalanceKeys::TotalCurrentLiabilities)) {
        Err(e) => Err(e),
        Ok(s) => {
            let v = CurrentLiabilitiesView { loans: s[0], accounts_payable: s[1], other: s[2] };
            checked_total(BalanceKeys::TotalCurrentLiabilities, v.total_fits(), v.total(), s[3], v)
        },
    }
}

/// The balance report that its parts give: the balance equation must hold.
pub open spec fn balance_of_parts(
    assets: AssetsView,
    equity: EquityView,
    liabilities: LiabilitiesView,
) -> Result<BalanceReportView, ParseError<BalanceKeys>> {
    if !assets.total_fits() || !liabilities.total_fits() || !fits_i64(equity.total() + liabilities.total()) {
        Err(ParseError::Overflow)
    } else if assets.total() != equity.total() + liabilities.total() {
        Err(ParseError::Model(ModelError::BalanceMismatch {
            assets: money_of(assets.total()),
            equity: money_of(equity.total()),
            liabilities: money_of(liabilities.total()),
        }))
    } else {
        Ok(BalanceReportView { assets, equity, liabilities })
    }
}

/// The balance report that a list of classified lines gives. The lines run
/// through five sections, each closed by its total line: non-current
/// assets, current assets, equity, long-term and short-term liabilities.
/// Lines after the last section are ignored.
pub open spec fn balance_report_of(s: Seq<ParsedLineInfo<BalanceKeys>>) -> Result<BalanceReportView, ParseError<BalanceKeys>> {
    match find_key_from(s, 0, BalanceKeys::TotalNonCurrentAssets) {
        None => Err(ParseError::DelimiterNotFound(BalanceKeys::TotalNonCurrentAssets)),
        Some(e1) => match non_current_assets_of(s.subrange(0, e1 + 1)) {
            Err(e) => Err(e),
            Ok(non_current) => match find_key_from(s, e1 + 1, BalanceKeys::TotalCurrentAssets) {
                None => Err(ParseError::DelimiterNotFound(BalanceKeys::TotalCurrentAssets)),
                Some(e2) => match current_assets_of(s.subrange(e1 + 1, e2 + 1)) {
                    Err(e) => Err(e),
                    Ok(current) => match find_key_from(s, e2 + 1, BalanceKeys::TotalEquity) {
                        None => Err(ParseError::DelimiterNotFound(BalanceKeys::TotalEquity)),
                        Some(e3) => match equity_of(s.subrange(e2 + 1, e3 + 1)) {
                            Err(e) => Err(e),
                            Ok(equity) => match find_key_from(s, e3 + 1, BalanceKeys::TotalLongTermLiabilities) {
                                None => Err(ParseError::DelimiterNotFound(BalanceKeys::TotalLongTermLiabilities)),
                                Some(e4) => match long_term_liabilities_of(s.subrange(e3 + 1, e4 + 1)) {
                                    Err(e) => Err(e),
                                    Ok(long_term) => match find_key_from(s, e4 + 1, BalanceKeys::TotalCurrentLiabilities) {
                                        None => Err(ParseError::DelimiterNotFound(BalanceKeys::TotalCurrentLiabilities)),
                                        Some(e5) => match current_liabilities_of(s.subrange(e4 + 1, e5 + 1)) {
                                            Err(e) => Err(e),
                                            Ok(current_liabilities) => balance_of_parts(
                                                AssetsView { current, non_current },
                                                equity,
                                                LiabilitiesView { long_term, current: current_liabilities },
                                            ),
                                        },
                                    },
                                },
                            },
                        },
                    },
                },
            },
        },
    }
}


// ---------------------------------------------------------------- income sections

pub open spec fn gross_profit_keys() -> Seq<IncomeKeys> {
    seq![IncomeKeys::SalesRevenue, IncomeKeys::CostOfSales, IncomeKeys::GrossProfit]
}

/// The gross profit segment that a section gives: revenue and cost must have
/// their signs, and their sum must match the gross profit line.
pub open spec fn gross_profit_of(lines: Seq<ParsedLineInfo<IncomeKeys>>) -> Result<GrossProfitSegmentView, ParseError<IncomeKeys>> {
    match collect(lines, gross_profit_keys()) {
        Err(e) => Err(e),
        Ok(s) => match gross_profit_segment_check(s[0], s[1]) {
            Some(k) => Err(ParseError::Model(ModelError::WrongSign(k))),
            None => {
                let v = GrossProfitSegmentView { sales_revenue: s[0], cost_of_sales: s[1] };
                checked_total(IncomeKeys::GrossProfit, fits_i64(v.gross_profit()), v.gross_profit(), s[2], v)
            },
        },
    }
}

pub open spec fn operational_keys() -> Seq<IncomeKeys> {
    seq![
        IncomeKeys::CommercialExpenses,
        IncomeKeys::ManagementExpenses,
        IncomeKeys::OtherIncome,
        IncomeKeys::OtherExpenses,
        IncomeKeys::OperationalProfit,
    ]
}

/// The operational segment that a section gives. The operational profit
/// line that closes the section is accepted as its delimiter; its amount is
/// not checked, since the segment alone does not give the profit.
pub open spec fn operational_segment_of(lines: Seq<ParsedLineInfo<IncomeKeys>>) -> Result<OperationalSegmentView, ParseError<IncomeKeys>> {
    match collect(lines, operational_keys()) {
        Err(e) => Err(e),
        Ok(s) => match operational_segment_check(s[0], s[1], s[2], s[3]) {
            Some(k) => Err(ParseError::Model(ModelError::WrongSign(k))),
            None => Ok(OperationalSegmentView {
                commercial_expenses: s[0],
                management_expenses: s[1],
                other_income: s[2],
                other_expenses: s[3],
            }),
        },
    }
}

pub open spec fn financial_keys() -> Seq<IncomeKeys> {
    seq![IncomeKeys::FinancialIncome, IncomeKeys::FinancialExpenses, IncomeKeys::ProfitBeforeTax]
}

/// The financial segment that a section gives. The profit before tax line
/// that closes the section is accepted as its delimiter; its amount is not
/// checked, since the segment alone does not give the profit.
pub open spec fn financial_segment_of(lines: Seq<ParsedLineInfo<IncomeKeys>>) -> Result<FinancialSegmentView, ParseError<IncomeKeys>> {
    match collect(lines, financial_keys()) {
        Err(e) => Err(e),
        Ok(s) => match financial_segment_check(s[0], s[1]) {
            Some(k) => Err(ParseError::Model(ModelError::WrongSign(k))),
            None => Ok(FinancialSegmentView { financial_income: s[0], financial_expenses: s[1] }),
        },
    }
}

/// The profit tax that a section gives: the sum of its profit tax lines.
pub open spec fn profit_tax_of(lines: Seq<ParsedLineInfo<IncomeKeys>>) -> Result<int, ParseError<IncomeKeys>> {
    match collect(lines, seq![IncomeKeys::ProfitTax]) {
        Err(e) => Err(e),
        Ok(s) => Ok(s[0]),
    }
}

/// The income report that a list of classified lines gives: four sections,
/// closed by the gross profit, operational profit, profit before tax and
/// profit tax lines.
pub open spec fn income_report_of(s: Seq<ParsedLineInfo<IncomeKeys>>) -> Result<IncomeReportView, ParseError<IncomeKeys>> {
    match find_key_from(s, 0, IncomeKeys::GrossProfit) {
        None => Err(ParseError::DelimiterNotFound(IncomeKeys::GrossProfit)),
        Some(e1) => match gross_profit_of(s.subrange(0, e1 + 1)) {
            Err(e) => Err(e),
            Ok(gross) => match find_key_from(s, e1 + 1, IncomeKeys::OperationalProfit) {
                None => Err(ParseError::DelimiterNotFound(IncomeKeys::OperationalProfit)),
                Some(e2) => match operational_segment_of(s.subrange(e1 + 1, e2 + 1)) {
                    Err(e) => Err(e),
                    Ok(operational) => match find_key_from(s, e2 + 1, IncomeKeys::ProfitBeforeTax) {
                        None => Err(ParseError::DelimiterNotFound(IncomeKeys::ProfitBeforeTax)),
                        Some(e3) => match financial_segment_of(s.subrange(e2 + 1, e3 + 1)) {
                            Err(e) => Err(e),
                            Ok(financial) => match find_key_from(s, e3 + 1, IncomeKeys::ProfitTax) {
                                None => Err(ParseError::DelimiterNotFound(IncomeKeys::ProfitTax)),
                                Some(e4) => match profit_tax_of(s.subrange(e3 + 1, e4 + 1)) {
                                    Err(e) => Err(e),
                                    Ok(tax) => Ok(IncomeReportView {
                                        gross_profit_segment: gross,
                                        operational_segment: operational,
                                        financial_segment: financial,
                                        profit_tax: tax,
                                    }),
                                },
                            },
                        },
                    },
                },
            },
        },
    }
}

proof fn lemma_non_current_fold_err_extends(lines: Seq<ParsedLineInfo<BalanceKeys>>, k: int)
    requires
        0 <= k <= lines.len(),
        non_current_fold(lines.take(k)) is Err,
    ensures
        non_current_fold(lines) == non_current_fold(lines.take(k)),
    decreases lines.len() - k,
{
    if k < lines.len() {
        assert(lines.take(k + 1).drop_last() =~= lines.take(k));
        lemma_non_current_fold_err_extends(lines, k + 1);
    } else {
        assert(lines.take(k) =~= lines);
    }
}

/// A balance report parsed from lines balances: its totals fit and its
/// assets equal its equity plus its liabilities.
pub proof fn lemma_parsed_balance_is_balanced(s: Seq<ParsedLineInfo<BalanceKeys>>)
    ensures
        balance_report_of(s) matches Ok(v) ==> v.is_balanced(),
{
}

/// A key found in a run of lines is found at the same place once more lines
/// follow.
proof fn lemma_find_key_in_prefix<K: GenericKeys>(s: Seq<ParsedLineInfo<K>>, t: Seq<ParsedLineInfo<K>>, i: int, k: K)
    requires
        0 <= i,
        find_key_from(s, i, k) is Some,
    ensures
        find_key_from(s + t, i, k) == find_key_from(s, i, k),
    decreases s.len() - i,
{
    if i < s.len() && s[i].key != k {
        lemma_find_key_in_prefix(s, t, i + 1, k);
    }
}

/// Lines after the last section of a balance report that parses change
/// nothing: the report is the same.
pub proof fn lemma_balance_report_ignores_trailing_lines(
    s: Seq<ParsedLineInfo<BalanceKeys>>,
    t: Seq<ParsedLineInfo<BalanceKeys>>,
)
    requires
        balance_report_of(s) is Ok,
    ensures
        balance_report_of(s + t) == balance_report_of(s),
{
    let u = s + t;
    lemma_find_key_from(s, 0, BalanceKeys::TotalNonCurrentAssets);
    lemma_find_key_in_prefix(s, t, 0, BalanceKeys::TotalNonCurrentAssets);
    let e1 = find_key_from(s, 0, BalanceKeys::TotalNonCurrentAssets)->Some_0;
    assert(u.subrange(0, e1 + 1) =~= s.subrange(0, e1 + 1));
    lemma_find_key_from(s, e1 + 1, BalanceKeys::TotalCurrentAssets);
    lemma_find_key_in_prefix(s, t, e1 + 1, BalanceKeys::TotalCurrentAssets);
    let e2 = find_key_from(s, e1 + 1, BalanceKeys::TotalCurrentAssets)->Some_0;
    assert(u.subrange(e1 + 1, e2 + 1) =~= s.subrange(e1 + 1, e2 + 1));
    lemma_find_key_from(s, e2 + 1, BalanceKeys::TotalEquity);
    lemma_find_key_in_prefix(s, t, e2 + 1, BalanceKeys::TotalEquity);
    let e3 = find_key_from(s, e2 + 1, BalanceKeys::TotalEquity)->Some_0;
    assert(u.subrange(e2 + 1, e3 + 1) =~= s.subrange(e2 + 1, e3 + 1));
    lemma_find_key_from(s, e3 + 1, BalanceKeys::TotalLongTermLiabilities);
    lemma_find_key_in_prefix(s, t, e3 + 1, BalanceKeys::TotalLongTermLiabilities);
    let e4 = find_key_from(s, e3 + 1, BalanceKeys::TotalLongTermLiabilities)->Some_0;
    assert(u.subrange(e3 + 1, e4 + 1) =~= s.subrange(e3 + 1, e4 + 1));
    lemma_find_key_from(s, e4 + 1, BalanceKeys::TotalCurrentLiabilities);
    lemma_find_key_in_prefix(s, t, e4 + 1, BalanceKeys::TotalCurrentLiabilities);
    let e5 = find_key_from(s, e4 + 1, BalanceKeys::TotalCurrentLiabilities)->Some_0;
    assert(u.subrange(e4 + 1, e5 + 1) =~= s.subrange(e4 + 1, e5 + 1));
}

/// A collector for each key, in order.
fn make_collectors<Keys: GenericKeys>(keys: &[Keys]) -> (r: Vec<ParsedLineInfoCollector<Keys>>)
    ensures
        collector_keys(r@) == keys@,
        forall|j: int| 0 <= j < r@.len() ==> (#[trigger] r@[j]).result@ == 0,
{
    let mut r: Vec<ParsedLineInfoCollector<Keys>> = Vec::new();
    let mut i: usize = 0;
    while i < keys.len()
        invariant
            i <= keys@.len(),
            r@.len() == i,
            collector_keys(r@) == keys@.take(i as int),
            forall|j: int| 0 <= j < r@.len() ==> (#[trigger] r@[j]).result@ == 0,
        decreases keys@.len() - i,
    {
        let c = ParsedLineInfoCollector::new(keys[i]);
        let ghost before = r@;
        r.push(c);
        proof {
            assert(r@ == before.push(c));
            assert forall|j: int| 0 <= j < r@.len() implies #[trigger] collector_keys(r@)[j] == keys@.take(i + 1)[j] by {
                if j < before.len() {
                    assert(collector_keys(before)[j] == keys@.take(i as int)[j]);
                } else {
                    assert(r@[j] == c);
                }
            }
        }
        i = i + 1;
        assert(collector_keys(r@) =~= keys@.take(i as int));
    }
    assert(keys@.take(i as int) =~= keys@);
    r
}

/// Sums the lines of a section by key.
fn collect_section<Keys: GenericKeys>(lines: &[ParsedLineInfo<Keys>], keys: &[Keys]) -> (r: Result<Vec<Money>, ParseError<Keys>>)
    ensures
        match collect(lines@, keys@) {
            Err(e) => r == Err::<Vec<Money>, ParseError<Keys>>(e),
            Ok(sums) => r matches Ok(v) && v@.len() == sums.len() && forall|j: int|
                0 <= j < sums.len() ==> (#[trigger] v@[j])@ == sums[j],
        },
{
    let mut collectors = make_collectors(keys);
    parse_common_helper(lines, &mut collectors)?;
    let mut out: Vec<Money> = Vec::new();
    let mut j: usize = 0;
    while j < collectors.len()
        invariant
            j <= collectors@.len(),
            out@.len() == j,
            forall|x: int| 0 <= x < j ==> (#[trigger] out@[x])@ == collectors@[x].result@,
        decreases collectors@.len() - j,
    {
        out.push(collectors[j].result());
        j = j + 1;
    }
    proof {
        assert(collector_sums(collectors@).len() == collectors@.len());
        assert forall|x: int| 0 <= x < collectors@.len() implies (#[trigger] out@[x])@ == collector_sums(collectors@)[x] by {}
    }
    Ok(out)
}

fn add_checked(a: i64, b: i64) -> (r: Option<i64>)
    ensures
        fits_i64(a + b) ==> r == Some((a + b) as i64),
        !fits_i64(a + b) ==> r is None,
{
    a.checked_add(b)
}

/// A report with `Ok` only when the given total matches.
fn check_total<K: GenericKeys, T: View>(section: K, calculated: Money, provided: Money, v: T) -> (r: Result<T, ParseError<K>>)
    ensures
        view_result(r) == checked_total(section, true, calculated@, provided@, v@),
{
    if calculated.in_roubles() != provided.in_roubles() {
        Err(ParseError::TotalMismatch { section, calculated, provided })
    } else {
        Ok(v)
    }
}

/// The titles of balance lines that a new parser knows, with their keys.
pub open spec fn default_balance_titles() -> Map<Seq<char>, BalanceKeys> {
    Map::empty()
        .insert("основные средства"@, BalanceKeys::FixedAssets)
        .insert("активы в форме права пользования"@, BalanceKeys::Other)
        .insert("прочие внеоборотные финансовые активы"@, BalanceKeys::FinancialAssets)
        .insert("отложенные налоговые активы"@, BalanceKeys::Other)
        .insert("итого внеоборотные активы"@, BalanceKeys::TotalNonCurrentAssets)
        .insert("запасы"@, BalanceKeys::PhysicalInventory)
        .insert("торговая и прочая дебиторская задолженность"@, BalanceKeys::AccountsReceivable)
        .insert("авансы выданные"@, BalanceKeys::Other)
        .insert("переплата по налогу на прибыль"@, BalanceKeys::Other)
        .insert("переплата по прочим налогам и ндс к возмещению"@, BalanceKeys::Other)
        .insert("прочие оборотные финансовые активы"@, BalanceKeys::Other)
        .insert("денежные средства и их эквиваленты"@, BalanceKeys::Cash)
        .insert("итого оборотные активы"@, BalanceKeys::TotalCurrentAssets)
        .insert("уставный капитал"@, BalanceKeys::AuthorisedCapital)
        .insert("нераспределенная прибыль"@, BalanceKeys::RetainedEarnings)
        .insert("итого капитал и резервы"@, BalanceKeys::TotalEquity)
        .insert("процентные кредиты и займы"@, BalanceKeys::Loans)
        .insert("отложенные налоговые обязательства"@, BalanceKeys::Other)
        .insert("обязательства по аренде"@, BalanceKeys::Other)
        .insert("итого долгосрочные обязательства"@, BalanceKeys::TotalLongTermLiabilities)
        .insert("кредиты и займы"@, BalanceKeys::Loans)
        .insert("обязательства по аренде"@, BalanceKeys::Other)
        .insert("торговая и прочая кредиторская задолженность"@, BalanceKeys::AccountsPayable)
        .insert("обязательства по договору"@, BalanceKeys::Other)
        .insert("текущие обязательства по налогу на прибыль"@, BalanceKeys::Other)
        .insert("кредиторская задолженность по прочим налогам"@, BalanceKeys::Other)
        .insert("оценочные обязательства"@, BalanceKeys::Other)
        .insert("итого краткосрочные обязательства"@, BalanceKeys::TotalCurrentLiabilities)
}

/// The titles of income lines that a new parser knows, with their keys. A
/// title given twice keeps the key given last.
pub open spec fn default_income_titles() -> Map<Seq<char>, IncomeKeys> {
    Map::empty()
        .insert("выручка от реализации"@, IncomeKeys::SalesRevenue)
        .insert("себестоимость реализации"@, IncomeKeys::CostOfSales)
        .insert("валовая прибыль"@, IncomeKeys::GrossProfit)
        .insert("общехозяйственные и административные расходы"@, IncomeKeys::CommercialExpenses)
        .insert("изменения в ожидаемых кредитных убытках, нетто"@, IncomeKeys::OtherIncome)
        .insert("прочие операционные доходы"@, IncomeKeys::OtherExpenses)
        .insert("прочие операционные доходы"@, IncomeKeys::OtherIncome)
        .insert("операционная прибыль/(убыток)"@, IncomeKeys::OperationalProfit)
        .insert("финансовые доходы"@, IncomeKeys::FinancialIncome)
        .insert("финансовые расходы"@, IncomeKeys::FinancialExpenses)
        .insert("прочие расходы"@, IncomeKeys::OtherExpenses)
        .insert("прибыль/убыток до налогообложения"@, IncomeKeys::ProfitBeforeTax)
        .insert("(расходы)/доходы по налогу за прибыль"@, IncomeKeys::ProfitTax)
        .insert("итого совокупный доход/(убыток) за отчётный период"@, IncomeKeys::NetProfit)
}

/// The lengths of the balance titles, and which titles of one length differ.
proof fn lemma_default_balance_titles_distinct()
    ensures
        "основные средства"@.len() == 17,
        "активы в форме права пользования"@.len() == 32,
        "прочие внеоборотные финансовые активы"@.len() == 37,
        "отложенные налоговые активы"@.len() == 27,
        "итого внеоборотные активы"@.len() == 25,
        "запасы"@.len() == 6,
        "торговая и прочая дебиторская задолженность"@.len() == 43,
        "авансы выданные"@.len() == 15,
        "переплата по налогу на прибыль"@.len() == 30,
        "переплата по прочим налогам и ндс к возмещению"@.len() == 46,
        "прочие оборотные финансовые активы"@.len() == 34,
        "денежные средства и их эквиваленты"@.len() == 34,
        "итого оборотные активы"@.len() == 22,
        "уставный капитал"@.len() == 16,
        "нераспределенная прибыль"@.len() == 24,
        "итого капитал и резервы"@.len() == 23,
        "процентные кредиты и займы"@.len() == 26,
        "отложенные налоговые обязательства"@.len() == 34,
        "обязательства по аренде"@.len() == 23,
        "итого долгосрочные обязательства"@.len() == 32,
        "кредиты и займы"@.len() == 15,
        "торговая и прочая кредиторская задолженность"@.len() == 44,
        "обязательства по договору"@.len() == 25,
        "текущие обязательства по налогу на прибыль"@.len() == 42,
        "кредиторская задолженность по прочим налогам"@.len() == 44,
        "оценочные обязательства"@.len() == 23,
        "итого краткосрочные обязательства"@.len() == 33,
        "активы в форме права пользования"@ != "итого долгосрочные обязательства"@,
        "итого внеоборотные активы"@ != "обязательства по договору"@,
        "авансы выданные"@ != "кредиты и займы"@,
        "прочие оборотные финансовые активы"@ != "денежные средства и их эквиваленты"@,
        "прочие оборотные финансовые активы"@ != "отложенные налоговые обязательства"@,
        "денежные средства и их эквиваленты"@ != "отложенные налоговые обязательства"@,
        "итого капитал и резервы"@ != "обязательства по аренде"@,
        "итого капитал и резервы"@ != "оценочные обязательства"@,
        "обязательства по аренде"@ != "оценочные обязательства"@,
        "торговая и прочая кредиторская задолженность"@ != "кредиторская задолженность по прочим налогам"@,
{
    reveal_strlit("основные средства");
    reveal_strlit("активы в форме права пользования");
    reveal_strlit("прочие внеоборотные финансовые активы");
    reveal_strlit("отложенные налоговые активы");
    reveal_strlit("итого внеоборотные активы");
    reveal_strlit("запасы");
    reveal_strlit("торговая и прочая дебиторская задолженность");
    reveal_strlit("авансы выданные");
    reveal_strlit("переплата по налогу на прибыль");
    reveal_strlit("переплата по прочим налогам и ндс к возмещению");
    reveal_strlit("прочие оборотные финансовые активы");
    reveal_strlit("денежные средства и их эквиваленты");
    reveal_strlit("итого оборотные активы");
    reveal_strlit("уставный капитал");
    reveal_strlit("нераспределенная прибыль");
    reveal_strlit("итого капитал и резервы");
    reveal_strlit("процентные кредиты и займы");
    reveal_strlit("отложенные налоговые обязательства");
    reveal_strlit("обязательства по аренде");
    reveal_strlit("итого долгосрочные обязательства");
    reveal_strlit("кредиты и займы");
    reveal_strlit("торговая и прочая кредиторская задолженность");
    reveal_strlit("обязательства по договору");
    reveal_strlit("текущие обязательства по налогу на прибыль");
    reveal_strlit("кредиторская задолженность по прочим налогам");
    reveal_strlit("оценочные обязательства");
    reveal_strlit("итого краткосрочные обязательства");
    assert("активы в форме права пользования"@[0] != "итого долгосрочные обязательства"@[0]);
    assert("итого внеоборотные активы"@[0] != "обязательства по договору"@[0]);
    assert("авансы выданные"@[0] != "кредиты и займы"@[0]);
    assert("прочие оборотные финансовые активы"@[0] != "денежные средства и их эквиваленты"@[0]);
    assert("прочие оборотные финансовые активы"@[0] != "отложенные налоговые обязательства"@[0]);
    assert("денежные средства и их эквиваленты"@[0] != "отложенные налоговые обязательства"@[0]);
    assert("итого капитал и резервы"@[0] != "обязательства по аренде"@[0]);
    assert("итого капитал и резервы"@[0] != "оценочные обязательства"@[0]);
    assert("обязательства по аренде"@[1] != "оценочные обязательства"@[1]);
    assert("торговая и прочая кредиторская задолженность"@[0] != "кредиторская задолженность по прочим налогам"@[0]);
}

/// Each title that a new parser knows for balance lines, with the key it
/// gives; a title given twice keeps the key given last.
pub proof fn lemma_default_balance_titles()
    ensures
        default_balance_titles().contains_key("основные средства"@) && default_balance_titles()["основные средства"@] == BalanceKeys::FixedAssets,
        default_balance_titles().contains_key("активы в форме права пользования"@) && default_balance_titles()["активы в форме права пользования"@] == BalanceKeys::Other,
        default_balance_titles().contains_key("прочие внеоборотные финансовые активы"@) && default_balance_titles()["прочие внеоборотные финансовые активы"@] == BalanceKeys::FinancialAssets,
        default_balance_titles().contains_key("отложенные налоговые активы"@) && default_balance_titles()["отложенные налоговые активы"@] == BalanceKeys::Other,
        default_balance_titles().contains_key("итого внеоборотные активы"@) && default_balance_titles()["итого внеоборотные активы"@] == BalanceKeys::TotalNonCurrentAssets,
        default_balance_titles().contains_key("запасы"@) && default_balance_titles()["запасы"@] == BalanceKeys::PhysicalInventory,
        default_balance_titles().contains_key("торговая и прочая дебиторская задолженность"@) && default_balance_titles()["торговая и прочая дебиторская задолженность"@] == BalanceKeys::AccountsReceivable,
        default_balance_titles().contains_key("авансы выданные"@) && default_balance_titles()["авансы выданные"@] == BalanceKeys::Other,
        default_balance_titles().contains_key("переплата по налогу на прибыль"@) && default_balance_titles()["переплата по налогу на прибыль"@] == BalanceKeys::Other,
        default_balance_titles().contains_key("переплата по прочим налогам и ндс к возмещению"@) && default_balance_titles()["переплата по прочим налогам и ндс к возмещению"@] == BalanceKeys::Other,
        default_balance_titles().contains_key("прочие оборотные финансовые активы"@) && default_balance_titles()["прочие оборотные финансовые активы"@] == BalanceKeys::Other,
        default_balance_titles().contains_key("денежные средства и их эквиваленты"@) && default_balance_titles()["денежные средства и их эквиваленты"@] == BalanceKeys::Cash,
        default_balance_titles().contains_key("итого оборотные активы"@) && default_balance_titles()["итого оборотные активы"@] == BalanceKeys::TotalCurrentAssets,
        default_balance_titles().contains_key("уставный капитал"@) && default_balance_titles()["уставный капитал"@] == BalanceKeys::AuthorisedCapital,
        default_balance_titles().contains_key("нераспределенная прибыль"@) && default_balance_titles()["нераспределенная прибыль"@] == BalanceKeys::RetainedEarnings,
        default_balance_titles().contains_key("итого капитал и резервы"@) && default_balance_titles()["итого капитал и резервы"@] == BalanceKeys::TotalEquity,
        default_balance_titles().contains_key("процентные кредиты и займы"@) && default_balance_titles()["процентные кредиты и займы"@] == BalanceKeys::Loans,
        default_balance_titles().contains_key("отложенные налоговые обязательства"@) && default_balance_titles()["отложенные налоговые обязательства"@] == BalanceKeys::Other,
        default_balance_titles().contains_key("обязательства по аренде"@) && default_balance_titles()["обязательства по аренде"@] == BalanceKeys::Other,
        default_balance_titles().contains_key("итого долгосрочные обязательства"@) && default_balance_titles()["итого долгосрочные обязательства"@] == BalanceKeys::TotalLongTermLiabilities,
        default_balance_titles().contains_key("кредиты и займы"@) && default_balance_titles()["кредиты и займы"@] == BalanceKeys::Loans,
        default_balance_titles().contains_key("торговая и прочая кредиторская задолженность"@) && default_balance_titles()["торговая и прочая кредиторская задолженность"@] == BalanceKeys::AccountsPayable,
        default_balance_titles().contains_key("обязательства по договору"@) && default_balance_titles()["обязательства по договору"@] == BalanceKeys::Other,
        default_balance_titles().contains_key("текущие обязательства по налогу на прибыль"@) && default_balance_titles()["текущие обязательства по налогу на прибыль"@] == BalanceKeys::Other,
        default_balance_titles().contains_key("кредиторская задолженность по прочим налогам"@) && default_balance_titles()["кредиторская задолженность по прочим налогам"@] == BalanceKeys::Other,
        default_balance_titles().contains_key("оценочные обязательства"@) && default_balance_titles()["оценочные обязательства"@] == BalanceKeys::Other,
        default_balance_titles().contains_key("итого краткосрочные обязательства"@) && default_balance_titles()["итого краткосрочные обязательства"@] == BalanceKeys::TotalCurrentLiabilities,
{
    lemma_default_balance_titles_distinct();
}

/// The lengths of the income titles, and which titles of one length differ.
proof fn lemma_default_income_titles_distinct()
    ensures
        "выручка от реализации"@.len() == 21,
        "себестоимость реализации"@.len() == 24,
        "валовая прибыль"@.len() == 15,
        "общехозяйственные и административные расходы"@.len() == 44,
        "изменения в ожидаемых кредитных убытках, нетто"@.len() == 46,
        "прочие операционные доходы"@.len() == 26,
        "операционная прибыль/(убыток)"@.len() == 29,
        "финансовые доходы"@.len() == 17,
        "финансовые расходы"@.len() == 18,
        "прочие расходы"@.len() == 14,
        "прибыль/убыток до налогообложения"@.len() == 33,
        "(расходы)/доходы по налогу за прибыль"@.len() == 37,
        "итого совокупный доход/(убыток) за отчётный период"@.len() == 50,

{
    reveal_strlit("выручка от реализации");
    reveal_strlit("себестоимость реализации");
    reveal_strlit("валовая прибыль");
    reveal_strlit("общехозяйственные и административные расходы");
    reveal_strlit("изменения в ожидаемых кредитных убытках, нетто");
    reveal_strlit("прочие операционные доходы");
    reveal_strlit("операционная прибыль/(убыток)");
    reveal_strlit("финансовые доходы");
    reveal_strlit("финансовые расходы");
    reveal_strlit("прочие расходы");
    reveal_strlit("прибыль/убыток до налогообложения");
    reveal_strlit("(расходы)/доходы по налогу за прибыль");
    reveal_strlit("итого совокупный доход/(убыток) за отчётный период");
}

/// Each title that a new parser knows for income lines, with the key it
/// gives; a title given twice keeps the key given last.
pub proof fn lemma_default_income_titles()
    ensures
        default_income_titles().contains_key("выручка от реализации"@) && default_income_titles()["выручка от реализации"@] == IncomeKeys::SalesRevenue,
        default_income_titles().contains_key("себестоимость реализации"@) && default_income_titles()["себестоимость реализации"@] == IncomeKeys::CostOfSales,
        default_income_titles().contains_key("валовая прибыль"@) && default_income_titles()["валовая прибыль"@] == IncomeKeys::GrossProfit,
        default_income_titles().contains_key("общехозяйственные и административные расходы"@) && default_income_titles()["общехозяйственные и административные расходы"@] == IncomeKeys::CommercialExpenses,
        default_income_titles().contains_key("изменения в ожидаемых кредитных убытках, нетто"@) && default_income_titles()["изменения в ожидаемых кредитных убытках, нетто"@] == IncomeKeys::OtherIncome,
        default_income_titles().contains_key("прочие операционные доходы"@) && default_income_titles()["прочие операционные доходы"@] == IncomeKeys::OtherIncome,
        default_income_titles().contains_key("операционная прибыль/(убыток)"@) && default_income_titles()["операционная прибыль/(убыток)"@] == IncomeKeys::OperationalProfit,
        default_income_titles().contains_key("финансовые доходы"@) && default_income_titles()["финансовые доходы"@] == IncomeKeys::FinancialIncome,
        default_income_titles().contains_key("финансовые расходы"@) && default_income_titles()["финансовые расходы"@] == IncomeKeys::FinancialExpenses,
        default_income_titles().contains_key("прочие расходы"@) && default_income_titles()["прочие расходы"@] == IncomeKeys::OtherExpenses,
        default_income_titles().contains_key("прибыль/убыток до налогообложения"@) && default_income_titles()["прибыль/убыток до налогообложения"@] == IncomeKeys::ProfitBeforeTax,
        default_income_titles().contains_key("(расходы)/доходы по налогу за прибыль"@) && default_income_titles()["(расходы)/доходы по налогу за прибыль"@] == IncomeKeys::ProfitTax,
        default_income_titles().contains_key("итого совокупный доход/(убыток) за отчётный период"@) && default_income_titles()["итого совокупный доход/(убыток) за отчётный период"@] == IncomeKeys::NetProfit,
{
    lemma_default_income_titles_distinct();
}

/// Classifies and parses the lines of balance and income reports.
pub struct ReportParser {
    balance_keys_classifier: MapKeyClasifier<BalanceKeys>,
    income_keys_classifier: MapKeyClasifier<IncomeKeys>,
}

impl ReportParser {
    /// The classifier of balance line titles.
    pub closed spec fn balance_classifier(&self) -> MapKeyClasifier<BalanceKeys> {
        self.balance_keys_classifier
    }

    /// The classifier of income line titles.
    pub closed spec fn income_classifier(&self) -> MapKeyClasifier<IncomeKeys> {
        self.income_keys_classifier
    }

    /// A parser that knows the default titles.
    pub fn new() -> (r: ReportParser)
        ensures
            r.balance_classifier()@ == default_balance_titles(),
            r.income_classifier()@ == default_income_titles(),
    {
        let mut line_to_balance_key: KeysDict<BalanceKeys> = KeysDict::new();
        line_to_balance_key.insert("основные средства".to_owned(), BalanceKeys::FixedAssets);
        line_to_balance_key.insert("активы в форме права пользования".to_owned(), BalanceKeys::Other);
        line_to_balance_key.insert("прочие внеоборотные финансовые активы".to_owned(), BalanceKeys::FinancialAssets);
        line_to_balance_key.insert("отложенные налоговые активы".to_owned(), BalanceKeys::Other);
        line_to_balance_key.insert("итого внеоборотные активы".to_owned(), BalanceKeys::TotalNonCurrentAssets);
        line_to_balance_key.insert("запасы".to_owned(), BalanceKeys::PhysicalInventory);
        line_to_balance_key.insert("торговая и прочая дебиторская задолженность".to_owned(), BalanceKeys::AccountsReceivable);
        line_to_balance_key.insert("авансы выданные".to_owned(), BalanceKeys::Other);
        line_to_balance_key.insert("переплата по налогу на прибыль".to_owned(), BalanceKeys::Other);
        line_to_balance_key.insert("переплата по прочим налогам и ндс к возмещению".to_owned(), BalanceKeys::Other);
        line_to_balance_key.insert("прочие оборотные финансовые активы".to_owned(), BalanceKeys::Other);
        line_to_balance_key.insert("денежные средства и их эквиваленты".to_owned(), BalanceKeys::Cash);
        line_to_balance_key.insert("итого оборотные активы".to_owned(), BalanceKeys::TotalCurrentAssets);
        line_to_balance_key.insert("уставный капитал".to_owned(), BalanceKeys::AuthorisedCapital);
        line_to_balance_key.insert("нераспределенная прибыль".to_owned(), BalanceKeys::RetainedEarnings);
        line_to_balance_key.insert("итого капитал и резервы".to_owned(), BalanceKeys::TotalEquity);
        line_to_balance_key.insert("процентные кредиты и займы".to_owned(), BalanceKeys::Loans);
        line_to_balance_key.insert("отложенные налоговые обязательства".to_owned(), BalanceKeys::Other);
        line_to_balance_key.insert("обязательства по аренде".to_owned(), BalanceKeys::Other);
        line_to_balance_key.insert("итого долгосрочные обязательства".to_owned(), BalanceKeys::TotalLongTermLiabilities);
        line_to_balance_key.insert("кредиты и займы".to_owned(), BalanceKeys::Loans);
        line_to_balance_key.insert("обязательства по аренде".to_owned(), BalanceKeys::Other);
        line_to_balance_key.insert("торговая и прочая кредиторская задолженность".to_owned(), BalanceKeys::AccountsPayable);
        line_to_balance_key.insert("обязательства по договору".to_owned(), BalanceKeys::Other);
        line_to_balance_key.insert("текущие обязательства по налогу на прибыль".to_owned(), BalanceKeys::Other);
        line_to_balance_key.insert("кредиторская задолженность по прочим налогам".to_owned(), BalanceKeys::Other);
        line_to_balance_key.insert("оценочные обязательства".to_owned(), BalanceKeys::Other);
        line_to_balance_key.insert("итого краткосрочные обязательства".to_owned(), BalanceKeys::TotalCurrentLiabilities);
        let mut line_to_income_key: KeysDict<IncomeKeys> = KeysDict::new();
        line_to_income_key.insert("выручка от реализации".to_owned(), IncomeKeys::SalesRevenue);
        line_to_income_key.insert("себестоимость реализации".to_owned(), IncomeKeys::CostOfSales);
        line_to_income_key.insert("валовая прибыль".to_owned(), IncomeKeys::GrossProfit);
        line_to_income_key.insert("общехозяйственные и административные расходы".to_owned(), IncomeKeys::CommercialExpenses);
        line_to_income_key.insert("изменения в ожидаемых кредитных убытках, нетто".to_owned(), IncomeKeys::OtherIncome);
        line_to_income_key.insert("прочие операционные доходы".to_owned(), IncomeKeys::OtherExpenses);
        line_to_income_key.insert("прочие операционные доходы".to_owned(), IncomeKeys::OtherIncome);
        line_to_income_key.insert("операционная прибыль/(убыток)".to_owned(), IncomeKeys::OperationalProfit);
        line_to_income_key.insert("финансовые доходы".to_owned(), IncomeKeys::FinancialIncome);
        line_to_income_key.insert("финансовые расходы".to_owned(), IncomeKeys::FinancialExpenses);
        line_to_income_key.insert("прочие расходы".to_owned(), IncomeKeys::OtherExpenses);
        line_to_income_key.insert("прибыль/убыток до налогообложения".to_owned(), IncomeKeys::ProfitBeforeTax);
        line_to_income_key.insert("(расходы)/доходы по налогу за прибыль".to_owned(), IncomeKeys::ProfitTax);
        line_to_income_key.insert("итого совокупный доход/(убыток) за отчётный период".to_owned(), IncomeKeys::NetProfit);
        ReportParser {
            balance_keys_classifier: MapKeyClasifier::new(line_to_balance_key),
            income_keys_classifier: MapKeyClasifier::new(line_to_income_key),
        }
    }

    /// Classifies the lines of a balance page with the balance titles.
    pub fn classify_balance_lines(
        &self,
        page_lines: &[String],
        money_multiplier: MoneyMultiplier,
    ) -> (r: Result<Vec<ParsedLineInfo<BalanceKeys>>, ParseError<BalanceKeys>>)
        ensures
            match classify_page(&self.balance_classifier(), money_multiplier, page_lines@) {
                Err(_) => r == Err::<Vec<ParsedLineInfo<BalanceKeys>>, ParseError<BalanceKeys>>(ParseError::Overflow),
                Ok(expected) => r matches Ok(v) && v@.len() == expected.len() && forall|i: int|
                    0 <= i < expected.len() ==> line_matches(#[trigger] v@[i], expected[i]),
            },
    {
        let classifier = LinesClassifier::new(money_multiplier, &self.balance_keys_classifier);
        classifier.classify_lines(page_lines)
    }

    /// Classifies the lines of an income page with the income titles.
    pub fn classify_income_lines(
        &self,
        page_lines: &[String],
        money_multiplier: MoneyMultiplier,
    ) -> (r: Result<Vec<ParsedLineInfo<IncomeKeys>>, ParseError<IncomeKeys>>)
        ensures
            match classify_page(&self.income_classifier(), money_multiplier, page_lines@) {
                Err(_) => r == Err::<Vec<ParsedLineInfo<IncomeKeys>>, ParseError<IncomeKeys>>(ParseError::Overflow),
                Ok(expected) => r matches Ok(v) && v@.len() == expected.len() && forall|i: int|
                    0 <= i < expected.len() ==> line_matches(#[trigger] v@[i], expected[i]),
            },
    {
        let classifier = LinesClassifier::new(money_multiplier, &self.income_keys_classifier);
        classifier.classify_lines(page_lines)
    }
}

impl ReportParser {
    fn parse_non_current_assets(lines: &[ParsedLineInfo<BalanceKeys>]) -> (r: Result<NonCurrentAssets, ParseError<BalanceKeys>>)
        ensures
            view_result(r) == non_current_assets_of(lines@),
    {
        let mut fixed_assets: i64 = 0;
        let mut non_material_assets: i64 = 0;
        let mut financial_assets: i64 = 0;
        let mut other: i64 = 0;
        let mut total: i64 = 0;
        let mut i: usize = 0;
        assert(lines@.take(0) =~= Seq::<ParsedLineInfo<BalanceKeys>>::empty());
        while i < lines.len()
            invariant
                i <= lines@.len(),
                non_current_fold(lines@.take(i as int)) == Ok::<(int, int, int, int, int), ParseError<BalanceKeys>>(
                    (fixed_assets as int, non_material_assets as int, financial_assets as int, other as int, total as int),
                ),
            decreases lines@.len() - i,
        {
            let item = &lines[i];
            let v = item.value.in_roubles();
            let ghost prefix = lines@.take(i + 1);
            assert(prefix.drop_last() =~= lines@.take(i as int));
            assert(prefix.last() == lines@[i as int]);
            let step: Option<()> = match item.key {
                BalanceKeys::FixedAssets => match add_checked(fixed_assets, v) {
                    Some(x) => { fixed_assets = x; Some(()) },
                    None => None,
                },
                BalanceKeys::NonMaterialAssets => match add_checked(non_material_assets, v) {
                    Some(x) => { non_material_assets = x; Some(()) },
                    None => None,
                },
                BalanceKeys::FinancialAssets => match add_checked(financial_assets, v) {
                    Some(x) => { financial_assets = x; Some(()) },
                    None => None,
                },
                BalanceKeys::Other => match add_checked(other, v) {
                    Some(x) => { other = x; Some(()) },
                    None => None,
                },
                BalanceKeys::TotalNonCurrentAssets => {
                    total = v;
                    Some(())
                },
                _ => {
                    proof {
                        lemma_non_current_fold_err_extends(lines@, i + 1);
                    }
                    return Err(ParseError::UnexpectedKey(item.key));
                },
            };
            if step.is_none() {
                proof {
                    lemma_non_current_fold_err_extends(lines@, i + 1);
                }
                return Err(ParseError::Overflow);
            }
            i = i + 1;
        }
        assert(lines@.take(i as int) =~= lines@);
        let result = NonCurrentAssets::new(
            Money::from_roubles(fixed_assets),
            Money::from_roubles(non_material_assets),
            Money::from_roubles(financial_assets),
            Money::from_roubles(other),
        );
        let s1 = match add_checked(fixed_assets, non_material_assets) {
            Some(x) => x,
            None => {
                return Err(ParseError::Overflow);
            },
        };
        let s2 = match add_checked(s1, financial_assets) {
            Some(x) => x,
            None => {
                return Err(ParseError::Overflow);
            },
        };
        if add_checked(s2, other).is_none() {
            return Err(ParseError::Overflow);
        }
        check_total(BalanceKeys::TotalNonCurrentAssets, result.total(), Money::from_roubles(total), result)
    }

    fn parse_current_assets(report_lines: &[ParsedLineInfo<BalanceKeys>]) -> (r: Result<CurrentAssets, ParseError<BalanceKeys>>)
        ensures
            view_result(r) == current_assets_of(report_lines@),
    {
        let keys = [
            BalanceKeys::PhysicalInventory,
            BalanceKeys::AccountsReceivable,
            BalanceKeys::Cash,
            BalanceKeys::FinancialAssets,
            BalanceKeys::Other,
            BalanceKeys::TotalCurrentAssets,
        ];
        assert(keys@ =~= current_assets_keys());
        let s = collect_section(report_lines, keys.as_slice())?;
        proof {
            lemma_collect_len(report_lines@, current_assets_keys());
        }
        let result = CurrentAssets::new(s[0], s[1], s[2], s[3], s[4]);
        let s1 = match add_checked(s[0].in_roubles(), s[1].in_roubles()) {
            Some(x) => x,
            None => {
                return Err(ParseError::Overflow);
            },
        };
        let s2 = match add_checked(s1, s[2].in_roubles()) {
            Some(x) => x,
            None => {
                return Err(ParseError::Overflow);
            },
        };
        let s3 = match add_checked(s2, s[3].in_roubles()) {
            Some(x) => x,
            None => {
                return Err(ParseError::Overflow);
            },
        };
        if add_checked(s3, s[4].in_roubles()).is_none() {
            return Err(ParseError::Overflow);
        }
        check_total(BalanceKeys::TotalCurrentAssets, result.total(), s[5], result)
    }

    fn parse_equity(report_lines: &[ParsedLineInfo<BalanceKeys>]) -> (r: Result<Equity, ParseError<BalanceKeys>>)
        ensures
            view_result(r) == equity_of(report_lines@),
    {
        let keys = [
            BalanceKeys::AuthorisedCapital,
            BalanceKeys::CapitalSurplus,
            BalanceKeys::RetainedEarnings,
            BalanceKeys::Other,
            BalanceKeys::TotalEquity,
        ];
        assert(keys@ =~= equity_keys());
        let s = collect_section(report_lines, keys.as_slice())?;
        proof {
            lemma_collect_len(report_lines@, equity_keys());
        }
        let result = Equity::new(s[0], s[1], s[2], s[3]);
        let s1 = match add_checked(s[0].in_roubles(), s[1].in_roubles()) {
            Some(x) => x,
            None => {
                return Err(ParseError::Overflow);
            },
        };
        let s2 = match add_checked(s1, s[2].in_roubles()) {
            Some(x) => x,
            None => {
                return Err(ParseError::Overflow);
            },
        };
        if add_checked(s2, s[3].in_roubles()).is_none() {
            return Err(ParseError::Overflow);
        }
        check_total(BalanceKeys::TotalEquity, result.total(), s[4], result)
    }

    fn parse_long_term_liabilities(report_lines: &[ParsedLineInfo<BalanceKeys>]) -> (r: Result<LongTermLiabilities, ParseError<BalanceKeys>>)
        ensures
            view_result(r) == long_term_liabilities_of(report_lines@),
    {
        let keys = [
            BalanceKeys::Loans,
            BalanceKeys::AccountsPayable,
            BalanceKeys::Other,
            BalanceKeys::TotalLongTermLiabilities,
        ];
        assert(keys@ =~= liabilities_keys(BalanceKeys::TotalLongTermLiabilities));
        let s = collect_section(report_lines, keys.as_slice())?;
        proof {
            lemma_collect_len(report_lines@, liabilities_keys(BalanceKeys::TotalLongTermLiabilities));
        }
        let result = LongTermLiabilities::new(s[0], s[1], s[2]);
        let s1 = match add_checked(s[0].in_roubles(), s[1].in_roubles()) {
            Some(x) => x,
            None => {
                return Err(ParseError::Overflow);
            },
        };
        if add_checked(s1, s[2].in_roubles()).is_none() {
            return Err(ParseError::Overflow);
        }
        check_total(BalanceKeys::TotalLongTermLiabilities, result.total(), s[3], result)
    }

    fn parse_current_liabilities(report_lines: &[ParsedLineInfo<BalanceKeys>]) -> (r: Result<CurrentLiabilities, ParseError<BalanceKeys>>)
        ensures
            view_result(r) == current_liabilities_of(report_lines@),
    {
        let keys = [
            BalanceKeys::Loans,
            BalanceKeys::AccountsPayable,
            BalanceKeys::Other,
            BalanceKeys::TotalCurrentLiabilities,
        ];
        assert(keys@ =~= liabilities_keys(BalanceKeys::TotalCurrentLiabilities));
        let s = collect_section(report_lines, keys.as_slice())?;
        proof {
            lemma_collect_len(report_lines@, liabilities_keys(BalanceKeys::TotalCurrentLiabilities));
        }
        let result = CurrentLiabilities::new(s[0], s[1], s[2]);
        let s1 = match add_checked(s[0].in_roubles(), s[1].in_roubles()) {
            Some(x) => x,
            None => {
                return Err(ParseError::Overflow);
            },
        };
        if add_checked(s1, s[2].in_roubles()).is_none() {
            return Err(ParseError::Overflow);
        }
        check_total(BalanceKeys::TotalCurrentLiabilities, result.total(), s[3], result)
    }
}


impl ReportParser {
    /// Parses classified balance lines into a balance report: the five
    /// sections in order, then the balance equation.
    pub fn parse_balance_report_batch(
        &self,
        parsed_lines: &Vec<ParsedLineInfo<BalanceKeys>>,
    ) -> (r: Result<BalanceReport, ParseError<BalanceKeys>>)
        ensures
            view_result(r) == balance_report_of(parsed_lines@),
    {
        let lines = parsed_lines.as_slice();
        let mut helper = BatchParserHelper::new(lines);
        proof {
            lemma_find_key_from(lines@, 0, BalanceKeys::TotalNonCurrentAssets);
        }
        let (a, b) = helper.parse_next(BalanceKeys::TotalNonCurrentAssets)?;
        let non_current_assets = Self::parse_non_current_assets(&lines[a..b])?;
        proof {
            lemma_find_key_from(lines@, b as int, BalanceKeys::TotalCurrentAssets);
        }
        let (a, b) = helper.parse_next(BalanceKeys::TotalCurrentAssets)?;
        let current_assets = Self::parse_current_assets(&lines[a..b])?;
        proof {
            lemma_find_key_from(lines@, b as int, BalanceKeys::TotalEquity);
        }
        let (a, b) = helper.parse_next(BalanceKeys::TotalEquity)?;
        let equity = Self::parse_equity(&lines[a..b])?;
        proof {
            lemma_find_key_from(lines@, b as int, BalanceKeys::TotalLongTermLiabilities);
        }
        let (a, b) = helper.parse_next(BalanceKeys::TotalLongTermLiabilities)?;
        let long_term_liabilities = Self::parse_long_term_liabilities(&lines[a..b])?;
        proof {
            lemma_find_key_from(lines@, b as int, BalanceKeys::TotalCurrentLiabilities);
        }
        let (a, b) = helper.parse_next(BalanceKeys::TotalCurrentLiabilities)?;
        let current_liabilities = Self::parse_current_liabilities(&lines[a..b])?;
        let assets = Assets::new(current_assets, non_current_assets);
        let liabilities = Liabilities::new(long_term_liabilities, current_liabilities);
        if add_checked(current_assets.total().in_roubles(), non_current_assets.total().in_roubles()).is_none() {
            return Err(ParseError::Overflow);
        }
        let liabilities_total = match add_checked(
            current_liabilities.total().in_roubles(),
            long_term_liabilities.total().in_roubles(),
        ) {
            Some(x) => x,
            None => {
                return Err(ParseError::Overflow);
            },
        };
        if add_checked(equity.total().in_roubles(), liabilities_total).is_none() {
            return Err(ParseError::Overflow);
        }
        match BalanceReport::new(assets, equity, liabilities) {
            Ok(report) => Ok(report),
            Err(e) => Err(ParseError::Model(e)),
        }
    }
}

impl ReportParser {
    fn parse_gross_profit(report_lines: &[ParsedLineInfo<IncomeKeys>]) -> (r: Result<GrossProfitSegment, ParseError<IncomeKeys>>)
        ensures
            view_result(r) == gross_profit_of(report_lines@),
    {
        let keys = [IncomeKeys::SalesRevenue, IncomeKeys::CostOfSales, IncomeKeys::GrossProfit];
        assert(keys@ =~= gross_profit_keys());
        let s = collect_section(report_lines, keys.as_slice())?;
        proof {
            lemma_collect_len(report_lines@, gross_profit_keys());
        }
        let result = match GrossProfitSegment::new(s[0], s[1]) {
            Ok(g) => g,
            Err(e) => {
                return Err(ParseError::Model(e));
            },
        };
        if add_checked(s[0].in_roubles(), s[1].in_roubles()).is_none() {
            return Err(ParseError::Overflow);
        }
        check_total(IncomeKeys::GrossProfit, result.gross_profit(), s[2], result)
    }

    fn parse_operational_segment(report_lines: &[ParsedLineInfo<IncomeKeys>]) -> (r: Result<OperationalSegment, ParseError<IncomeKeys>>)
        ensures
            view_result(r) == operational_segment_of(report_lines@),
    {
        let keys = [
            IncomeKeys::CommercialExpenses,
            IncomeKeys::ManagementExpenses,
            IncomeKeys::OtherIncome,
            IncomeKeys::OtherExpenses,
            IncomeKeys::OperationalProfit,
        ];
        assert(keys@ =~= operational_keys());
        let s = collect_section(report_lines, keys.as_slice())?;
        proof {
            lemma_collect_len(report_lines@, operational_keys());
        }
        match OperationalSegment::new(s[0], s[1], s[2], s[3]) {
            Ok(o) => Ok(o),
            Err(e) => Err(ParseError::Model(e)),
        }
    }

    fn parse_financial_segment(report_lines: &[ParsedLineInfo<IncomeKeys>]) -> (r: Result<FinancialSegment, ParseError<IncomeKeys>>)
        ensures
            view_result(r) == financial_segment_of(report_lines@),
    {
        let keys = [IncomeKeys::FinancialIncome, IncomeKeys::FinancialExpenses, IncomeKeys::ProfitBeforeTax];
        assert(keys@ =~= financial_keys());
        let s = collect_section(report_lines, keys.as_slice())?;
        proof {
            lemma_collect_len(report_lines@, financial_keys());
        }
        match FinancialSegment::new(s[0], s[1]) {
            Ok(f) => Ok(f),
            Err(e) => Err(ParseError::Model(e)),
        }
    }

    fn parse_profit_tax(report_lines: &[ParsedLineInfo<IncomeKeys>]) -> (r: Result<Money, ParseError<IncomeKeys>>)
        ensures
            view_result(r) == profit_tax_of(report_lines@),
    {
        let keys = [IncomeKeys::ProfitTax];
        assert(keys@ =~= seq![IncomeKeys::ProfitTax]);
        let s = collect_section(report_lines, keys.as_slice())?;
        proof {
            lemma_collect_len(report_lines@, seq![IncomeKeys::ProfitTax]);
        }
        Ok(s[0])
    }

    /// Parses classified income lines into an income report: the four
    /// sections in order.
    pub fn parse_income_report_batch(
        &self,
        parsed_lines: &Vec<ParsedLineInfo<IncomeKeys>>,
    ) -> (r: Result<IncomeReport, ParseError<IncomeKeys>>)
        ensures
            view_result(r) == income_report_of(parsed_lines@),
    {
        let lines = parsed_lines.as_slice();
        let mut helper = BatchParserHelper::new(lines);
        proof {
            lemma_find_key_from(lines@, 0, IncomeKeys::GrossProfit);
        }
        let (a, b) = helper.parse_next(IncomeKeys::GrossProfit)?;
        let gross_profit_segment = Self::parse_gross_profit(&lines[a..b])?;
        proof {
            lemma_find_key_from(lines@, b as int, IncomeKeys::OperationalProfit);
        }
        let (a, b) = helper.parse_next(IncomeKeys::OperationalProfit)?;
        let operational_segment = Self::parse_operational_segment(&lines[a..b])?;
        proof {
            lemma_find_key_from(lines@, b as int, IncomeKeys::ProfitBeforeTax);
        }
        let (a, b) = helper.parse_next(IncomeKeys::ProfitBeforeTax)?;
        let financial_segment = Self::parse_financial_segment(&lines[a..b])?;
        proof {
            lemma_find_key_from(lines@, b as int, IncomeKeys::ProfitTax);
        }
        let (a, b) = helper.parse_next(IncomeKeys::ProfitTax)?;
        let profit_tax = Self::parse_profit_tax(&lines[a..b])?;
        Ok(IncomeReport::new(gross_profit_segment, operational_segment, financial_segment, profit_tax))
    }
}

} // verus!
