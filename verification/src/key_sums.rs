//! What a parsed report holds, stated by the keys of its lines: every
//! figure of a section is the sum of the amounts of the section's lines
//! that carry the figure's key.
use vstd::prelude::*;
use crate::balance_report::{
    AssetsView, BalanceReportView, LiabilitiesView, CurrentAssetsView, CurrentLiabilitiesView, EquityView, LongTermLiabilitiesView, NonCurrentAssetsView,
};
use crate::income_report::{FinancialSegmentView, GrossProfitSegmentView, IncomeReportView, OperationalSegmentView};
use crate::keys::{BalanceKeys, GenericKeys, IncomeKeys, ParsedLineInfo};
use crate::money::fits_i64;
use crate::report_error::{ModelError, ParseError};
use crate::text_parser::{
    balance_report_of, collect, current_assets_keys, find_key_from, income_report_of, current_assets_of, current_liabilities_of, equity_keys, equity_of,
    financial_keys, financial_segment_of, gross_profit_keys, gross_profit_of, key_index_from,
    lemma_collect_len, lemma_key_index_from, liabilities_keys, long_term_liabilities_of, non_current_assets_of, non_current_fold,
    operational_keys, operational_segment_of, profit_tax_of,
};

verus! {

/// The sum of the amounts of the lines whose key is `k`.
pub open spec fn key_sum<K: GenericKeys>(lines: Seq<ParsedLineInfo<K>>, k: K) -> int
    decreases lines.len(),
{
    if lines.len() == 0 {
        0
    } else {
        key_sum(lines.drop_last(), k) + (if lines.last().key == k {
            lines.last().value@
        } else {
            0
        })
    }
}

/// The non-current assets that the lines give key by key.
pub open spec fn non_current_assets_by_key(lines: Seq<ParsedLineInfo<BalanceKeys>>) -> NonCurrentAssetsView {
    NonCurrentAssetsView {
        fixed_assets: key_sum(lines, BalanceKeys::FixedAssets),
        non_material_assets: key_sum(lines, BalanceKeys::NonMaterialAssets),
        financial_assets: key_sum(lines, BalanceKeys::FinancialAssets),
        other: key_sum(lines, BalanceKeys::Other),
    }
}

/// The current assets that the lines give key by key.
pub open spec fn current_assets_by_key(lines: Seq<ParsedLineInfo<BalanceKeys>>) -> CurrentAssetsView {
    CurrentAssetsView {
        physical_inventory: key_sum(lines, BalanceKeys::PhysicalInventory),
        accounts_receivable: key_sum(lines, BalanceKeys::AccountsReceivable),
        cash: key_sum(lines, BalanceKeys::Cash),
        financial_assets: key_sum(lines, BalanceKeys::FinancialAssets),
        other: key_sum(lines, BalanceKeys::Other),
    }
}

/// The equity that the lines give key by key.
pub open spec fn equity_by_key(lines: Seq<ParsedLineInfo<BalanceKeys>>) -> EquityView {
    EquityView {
        authorised_capital: key_sum(lines, BalanceKeys::AuthorisedCapital),
        capital_surplus: key_sum(lines, BalanceKeys::CapitalSurplus),
        retained_earnings: key_sum(lines, BalanceKeys::RetainedEarnings),
        other: key_sum(lines, BalanceKeys::Other),
    }
}

/// The long-term liabilities that the lines give key by key.
pub open spec fn long_term_liabilities_by_key(lines: Seq<ParsedLineInfo<BalanceKeys>>) -> LongTermLiabilitiesView {
    LongTermLiabilitiesView {
        loans: key_sum(lines, BalanceKeys::Loans),
        accounts_payable: key_sum(lines, BalanceKeys::AccountsPayable),
        other: key_sum(lines, BalanceKeys::Other),
    }
}

/// The short-term liabilities that the lines give key by key.
pub open spec fn current_liabilities_by_key(lines: Seq<ParsedLineInfo<BalanceKeys>>) -> CurrentLiabilitiesView {
    CurrentLiabilitiesView {
        loans: key_sum(lines, BalanceKeys::Loans),
        accounts_payable: key_sum(lines, BalanceKeys::AccountsPayable),
        other: key_sum(lines, BalanceKeys::Other),
    }
}

/// The gross profit segment that the lines give key by key.
pub open spec fn gross_profit_by_key(lines: Seq<ParsedLineInfo<IncomeKeys>>) -> GrossProfitSegmentView {
    GrossProfitSegmentView {
        sales_revenue: key_sum(lines, IncomeKeys::SalesRevenue),
        cost_of_sales: key_sum(lines, IncomeKeys::CostOfSales),
    }
}

/// The operational segment that the lines give key by key.
pub open spec fn operational_segment_by_key(lines: Seq<ParsedLineInfo<IncomeKeys>>) -> OperationalSegmentView {
    OperationalSegmentView {
        commercial_expenses: key_sum(lines, IncomeKeys::CommercialExpenses),
        management_expenses: key_sum(lines, IncomeKeys::ManagementExpenses),
        other_income: key_sum(lines, IncomeKeys::OtherIncome),
        other_expenses: key_sum(lines, IncomeKeys::OtherExpenses),
    }
}

/// The financial segment that the lines give key by key.
pub open spec fn financial_segment_by_key(lines: Seq<ParsedLineInfo<IncomeKeys>>) -> FinancialSegmentView {
    FinancialSegmentView {
        financial_income: key_sum(lines, IncomeKeys::FinancialIncome),
        financial_expenses: key_sum(lines, IncomeKeys::FinancialExpenses),
    }
}

/// The keys that an operational section may hold.
pub open spec fn is_operational_key(k: IncomeKeys) -> bool {
    ||| k == IncomeKeys::CommercialExpenses
    ||| k == IncomeKeys::ManagementExpenses
    ||| k == IncomeKeys::OtherIncome
    ||| k == IncomeKeys::OtherExpenses
    ||| k == IncomeKeys::OperationalProfit
}

/// Whether the lines' sum for `k` has the sign that the operational
/// segment refuses: a positive expense or a negative other income.
pub open spec fn has_wrong_operational_sign(lines: Seq<ParsedLineInfo<IncomeKeys>>, k: IncomeKeys) -> bool {
    ||| k == IncomeKeys::CommercialExpenses && key_sum(lines, k) > 0
    ||| k == IncomeKeys::ManagementExpenses && key_sum(lines, k) > 0
    ||| k == IncomeKeys::OtherExpenses && key_sum(lines, k) > 0
    ||| k == IncomeKeys::OtherIncome && key_sum(lines, k) < 0
}

/// The sums that a section gives are, key by key, the sums of its lines.
proof fn lemma_collect_by_key<K: GenericKeys>(lines: Seq<ParsedLineInfo<K>>, keys: Seq<K>)
    ensures
        collect(lines, keys) matches Ok(s) ==> forall|k: K| #[trigger] key_index_from(keys, k, 0) is Some
            ==> s[key_index_from(keys, k, 0)->Some_0] == key_sum(lines, k),
    decreases lines.len(),
{
    if lines.len() == 0 {
        if let Ok(s) = collect(lines, keys) {
            assert forall|k: K| #[trigger] key_index_from(keys, k, 0) is Some implies s[key_index_from(
                keys,
                k,
                0,
            )->Some_0] == key_sum(lines, k) by {
                lemma_key_index_from(keys, k, 0);
            }
        }
    } else {
        lemma_collect_by_key(lines.drop_last(), keys);
        lemma_collect_len(lines.drop_last(), keys);
        let l = lines.last();
        lemma_key_index_from(keys, l.key, 0);
        if let Ok(s) = collect(lines, keys) {
            let sums = collect(lines.drop_last(), keys)->Ok_0;
            let x = key_index_from(keys, l.key, 0)->Some_0;
            assert(s == sums.update(x, sums[x] + l.value@));
            assert forall|k: K| #[trigger] key_index_from(keys, k, 0) is Some implies s[key_index_from(
                keys,
                k,
                0,
            )->Some_0] == key_sum(lines, k) by {
                lemma_key_index_from(keys, k, 0);
                let j = key_index_from(keys, k, 0)->Some_0;
                assert(sums[j] == key_sum(lines.drop_last(), k));
                if k == l.key {
                    assert(j == x);
                } else {
                    assert(keys[x] == l.key);
                    assert(j != x);
                }
            }
        }
    }
}

/// A section fails only on a line whose key is not among the section's keys
/// or on a sum that leaves the `i64` range.
proof fn lemma_collect_errors<K: GenericKeys>(lines: Seq<ParsedLineInfo<K>>, keys: Seq<K>)
    ensures
        collect(lines, keys) matches Err(e) ==> (e is Overflow || (e matches ParseError::UnexpectedKey(k)
            && key_index_from(keys, k, 0) is None)),
    decreases lines.len(),
{
    if lines.len() > 0 {
        lemma_collect_errors(lines.drop_last(), keys);
    }
}

/// A section whose lines all carry keys of the section, and whose running
/// sums all fit, gives its sums.
proof fn lemma_collect_ok<K: GenericKeys>(lines: Seq<ParsedLineInfo<K>>, keys: Seq<K>)
    requires
        forall|i: int| 0 <= i < lines.len() ==> #[trigger] key_index_from(keys, lines[i].key, 0) is Some,
        forall|p: int, k: K| 0 <= p <= lines.len() ==> fits_i64(#[trigger] key_sum(lines.take(p), k)),
    ensures
        collect(lines, keys) is Ok,
    decreases lines.len(),
{
    if lines.len() > 0 {
        let d = lines.drop_last();
        assert forall|i: int| 0 <= i < d.len() implies #[trigger] key_index_from(keys, d[i].key, 0) is Some by {
            assert(d[i] == lines[i]);
            assert(key_index_from(keys, lines[i].key, 0) is Some);
        }
        assert forall|p: int, k: K| 0 <= p <= d.len() implies fits_i64(#[trigger] key_sum(d.take(p), k)) by {
            assert(d.take(p) =~= lines.take(p));
            assert(fits_i64(key_sum(lines.take(p), k)));
        }
        lemma_collect_ok(d, keys);
        lemma_collect_by_key(d, keys);
        let l = lines.last();
        assert(key_index_from(keys, lines[lines.len() - 1].key, 0) is Some);
        assert(lines.take(lines.len() as int) =~= lines);
        assert(fits_i64(key_sum(lines.take(lines.len() as int), l.key)));
    }
}

/// The running sums of the non-current assets section are the sums of its
/// lines by key.
proof fn lemma_non_current_fold_by_key(lines: Seq<ParsedLineInfo<BalanceKeys>>)
    ensures
        non_current_fold(lines) matches Ok((f, n, fi, o, t)) ==> f == key_sum(lines, BalanceKeys::FixedAssets) && n
            == key_sum(lines, BalanceKeys::NonMaterialAssets) && fi == key_sum(lines, BalanceKeys::FinancialAssets) && o
            == key_sum(lines, BalanceKeys::Other),
    decreases lines.len(),
{
    if lines.len() > 0 {
        lemma_non_current_fold_by_key(lines.drop_last());
    }
}

/// The non-current assets of a section are, field by field, the sums of its
/// fixed asset, intangible asset, financial asset and other lines.
pub proof fn lemma_non_current_assets_by_key(lines: Seq<ParsedLineInfo<BalanceKeys>>)
    ensures
        non_current_assets_of(lines) matches Ok(v) ==> v == non_current_assets_by_key(lines),
{
    lemma_non_current_fold_by_key(lines);
}

/// The current assets of a section are, field by field, the sums of its
/// inventory, receivables, cash, financial asset and other lines.
pub proof fn lemma_current_assets_by_key(lines: Seq<ParsedLineInfo<BalanceKeys>>)
    ensures
        current_assets_of(lines) matches Ok(v) ==> v == current_assets_by_key(lines),
{
    let ks = current_assets_keys();
    reveal_with_fuel(key_index_from, 6);
    assert(key_index_from(ks, BalanceKeys::PhysicalInventory, 0) == Some(0int));
    assert(key_index_from(ks, BalanceKeys::AccountsReceivable, 0) == Some(1int));
    assert(key_index_from(ks, BalanceKeys::Cash, 0) == Some(2int));
    assert(key_index_from(ks, BalanceKeys::FinancialAssets, 0) == Some(3int));
    assert(key_index_from(ks, BalanceKeys::Other, 0) == Some(4int));
    lemma_collect_by_key(lines, ks);
}

/// The equity of a section is, field by field, the sums of its authorised
/// capital, capital surplus, retained earnings and other lines.
pub proof fn lemma_equity_by_key(lines: Seq<ParsedLineInfo<BalanceKeys>>)
    ensures
        equity_of(lines) matches Ok(v) ==> v == equity_by_key(lines),
{
    let ks = equity_keys();
    reveal_with_fuel(key_index_from, 5);
    assert(key_index_from(ks, BalanceKeys::AuthorisedCapital, 0) == Some(0int));
    assert(key_index_from(ks, BalanceKeys::CapitalSurplus, 0) == Some(1int));
    assert(key_index_from(ks, BalanceKeys::RetainedEarnings, 0) == Some(2int));
    assert(key_index_from(ks, BalanceKeys::Other, 0) == Some(3int));
    lemma_collect_by_key(lines, ks);
}

/// The long-term liabilities of a section are, field by field, the sums of
/// its loan, accounts payable and other lines.
pub proof fn lemma_long_term_liabilities_by_key(lines: Seq<ParsedLineInfo<BalanceKeys>>)
    ensures
        long_term_liabilities_of(lines) matches Ok(v) ==> v == long_term_liabilities_by_key(lines),
{
    let ks = liabilities_keys(BalanceKeys::TotalLongTermLiabilities);
    reveal_with_fuel(key_index_from, 4);
    assert(key_index_from(ks, BalanceKeys::Loans, 0) == Some(0int));
    assert(key_index_from(ks, BalanceKeys::AccountsPayable, 0) == Some(1int));
    assert(key_index_from(ks, BalanceKeys::Other, 0) == Some(2int));
    lemma_collect_by_key(lines, ks);
}

/// The short-term liabilities of a section are, field by field, the sums of
/// its loan, accounts payable and other lines.
pub proof fn lemma_current_liabilities_by_key(lines: Seq<ParsedLineInfo<BalanceKeys>>)
    ensures
        current_liabilities_of(lines) matches Ok(v) ==> v == current_liabilities_by_key(lines),
{
    let ks = liabilities_keys(BalanceKeys::TotalCurrentLiabilities);
    reveal_with_fuel(key_index_from, 4);
    assert(key_index_from(ks, BalanceKeys::Loans, 0) == Some(0int));
    assert(key_index_from(ks, BalanceKeys::AccountsPayable, 0) == Some(1int));
    assert(key_index_from(ks, BalanceKeys::Other, 0) == Some(2int));
    lemma_collect_by_key(lines, ks);
}

/// A gross profit section that parses gives the sums of its revenue and
/// cost of sales lines.
pub proof fn lemma_gross_profit_by_key(lines: Seq<ParsedLineInfo<IncomeKeys>>)
    ensures
        gross_profit_of(lines) matches Ok(v) ==> v == gross_profit_by_key(lines),
{
    let ks = gross_profit_keys();
    reveal_with_fuel(key_index_from, 3);
    assert(key_index_from(ks, IncomeKeys::SalesRevenue, 0) == Some(0int));
    assert(key_index_from(ks, IncomeKeys::CostOfSales, 0) == Some(1int));
    lemma_collect_by_key(lines, ks);
}

proof fn lemma_operational_key_indices()
    ensures
        key_index_from(operational_keys(), IncomeKeys::CommercialExpenses, 0) == Some(0int),
        key_index_from(operational_keys(), IncomeKeys::ManagementExpenses, 0) == Some(1int),
        key_index_from(operational_keys(), IncomeKeys::OtherIncome, 0) == Some(2int),
        key_index_from(operational_keys(), IncomeKeys::OtherExpenses, 0) == Some(3int),
        key_index_from(operational_keys(), IncomeKeys::OperationalProfit, 0) == Some(4int),
{
    reveal_with_fuel(key_index_from, 6);
}

/// An operational section that parses gives, field by field, the sums of
/// its commercial expense, management expense, other income and other
/// expense lines; its expenses are not positive and its other income is not
/// negative. A section refused for a sign has that sign wrong in the sum of
/// the key it names; it is otherwise refused only for a line of another
/// section or a sum out of range.
pub proof fn lemma_operational_segment_by_key(lines: Seq<ParsedLineInfo<IncomeKeys>>)
    ensures
        operational_segment_of(lines) matches Ok(v) ==> v == operational_segment_by_key(lines) && v.commercial_expenses
            <= 0 && v.management_expenses <= 0 && v.other_income >= 0 && v.other_expenses <= 0,
        operational_segment_of(lines) matches Err(ParseError::Model(ModelError::WrongSign(k)))
            ==> has_wrong_operational_sign(lines, k),
        operational_segment_of(lines) matches Err(ParseError::UnexpectedKey(k)) ==> !is_operational_key(k),
{
    lemma_operational_key_indices();
    lemma_collect_by_key(lines, operational_keys());
    lemma_collect_errors(lines, operational_keys());
}

/// An operational section parses when every line carries an operational
/// key, every running sum fits, its expense lines sum to amounts that are
/// not positive and its other income lines to one that is not negative.
pub proof fn lemma_operational_segment_parses(lines: Seq<ParsedLineInfo<IncomeKeys>>)
    requires
        forall|i: int| 0 <= i < lines.len() ==> is_operational_key(#[trigger] lines[i].key),
        forall|p: int, k: IncomeKeys| 0 <= p <= lines.len() ==> fits_i64(#[trigger] key_sum(lines.take(p), k)),
        key_sum(lines, IncomeKeys::CommercialExpenses) <= 0,
        key_sum(lines, IncomeKeys::ManagementExpenses) <= 0,
        key_sum(lines, IncomeKeys::OtherExpenses) <= 0,
        key_sum(lines, IncomeKeys::OtherIncome) >= 0,
    ensures
        operational_segment_of(lines) == Ok::<OperationalSegmentView, ParseError<IncomeKeys>>(
            operational_segment_by_key(lines),
        ),
{
    lemma_operational_key_indices();
    assert forall|i: int| 0 <= i < lines.len() implies #[trigger] key_index_from(
        operational_keys(),
        lines[i].key,
        0,
    ) is Some by {
        assert(is_operational_key(lines[i].key));
    }
    lemma_collect_ok(lines, operational_keys());
    lemma_collect_by_key(lines, operational_keys());
}

/// A financial section that parses gives the sums of its financial income
/// and financial expense lines.
pub proof fn lemma_financial_segment_by_key(lines: Seq<ParsedLineInfo<IncomeKeys>>)
    ensures
        financial_segment_of(lines) matches Ok(v) ==> v == financial_segment_by_key(lines),
{
    let ks = financial_keys();
    reveal_with_fuel(key_index_from, 3);
    assert(key_index_from(ks, IncomeKeys::FinancialIncome, 0) == Some(0int));
    assert(key_index_from(ks, IncomeKeys::FinancialExpenses, 0) == Some(1int));
    lemma_collect_by_key(lines, ks);
}

/// A profit tax section that parses gives the sum of its profit tax lines.
pub proof fn lemma_profit_tax_by_key(lines: Seq<ParsedLineInfo<IncomeKeys>>)
    ensures
        profit_tax_of(lines) matches Ok(t) ==> t == key_sum(lines, IncomeKeys::ProfitTax),
{
    let ks = seq![IncomeKeys::ProfitTax];
    assert(key_index_from(ks, IncomeKeys::ProfitTax, 0) == Some(0int));
    lemma_collect_by_key(lines, ks);
}

/// The balance report that the lines give key by key: the lines run
/// through five sections, each up to and including its total line, and each
/// figure is the sum of its section's lines with the figure's key.
pub open spec fn balance_report_by_key(s: Seq<ParsedLineInfo<BalanceKeys>>) -> BalanceReportView {
    let e1 = find_key_from(s, 0, BalanceKeys::TotalNonCurrentAssets)->Some_0;
    let e2 = find_key_from(s, e1 + 1, BalanceKeys::TotalCurrentAssets)->Some_0;
    let e3 = find_key_from(s, e2 + 1, BalanceKeys::TotalEquity)->Some_0;
    let e4 = find_key_from(s, e3 + 1, BalanceKeys::TotalLongTermLiabilities)->Some_0;
    let e5 = find_key_from(s, e4 + 1, BalanceKeys::TotalCurrentLiabilities)->Some_0;
    BalanceReportView {
        assets: AssetsView {
            current: current_assets_by_key(s.subrange(e1 + 1, e2 + 1)),
            non_current: non_current_assets_by_key(s.subrange(0, e1 + 1)),
        },
        equity: equity_by_key(s.subrange(e2 + 1, e3 + 1)),
        liabilities: LiabilitiesView {
            long_term: long_term_liabilities_by_key(s.subrange(e3 + 1, e4 + 1)),
            current: current_liabilities_by_key(s.subrange(e4 + 1, e5 + 1)),
        },
    }
}

/// A balance report parsed from lines holds, in every field, the sum of the
/// amounts of its section's lines that carry the field's key.
pub proof fn lemma_balance_report_by_key(s: Seq<ParsedLineInfo<BalanceKeys>>)
    ensures
        balance_report_of(s) matches Ok(r) ==> r == balance_report_by_key(s),
{
    let e1 = find_key_from(s, 0, BalanceKeys::TotalNonCurrentAssets)->Some_0;
    let e2 = find_key_from(s, e1 + 1, BalanceKeys::TotalCurrentAssets)->Some_0;
    let e3 = find_key_from(s, e2 + 1, BalanceKeys::TotalEquity)->Some_0;
    let e4 = find_key_from(s, e3 + 1, BalanceKeys::TotalLongTermLiabilities)->Some_0;
    let e5 = find_key_from(s, e4 + 1, BalanceKeys::TotalCurrentLiabilities)->Some_0;
    lemma_non_current_assets_by_key(s.subrange(0, e1 + 1));
    lemma_current_assets_by_key(s.subrange(e1 + 1, e2 + 1));
    lemma_equity_by_key(s.subrange(e2 + 1, e3 + 1));
    lemma_long_term_liabilities_by_key(s.subrange(e3 + 1, e4 + 1));
    lemma_current_liabilities_by_key(s.subrange(e4 + 1, e5 + 1));
}

/// The income report that the lines give key by key: the lines run through
/// four sections, closed by the gross profit, operational profit, profit
/// before tax and profit tax lines, and each figure is the sum of its
/// section's lines with the figure's key.
pub open spec fn income_report_by_key(s: Seq<ParsedLineInfo<IncomeKeys>>) -> IncomeReportView {
    let e1 = find_key_from(s, 0, IncomeKeys::GrossProfit)->Some_0;
    let e2 = find_key_from(s, e1 + 1, IncomeKeys::OperationalProfit)->Some_0;
    let e3 = find_key_from(s, e2 + 1, IncomeKeys::ProfitBeforeTax)->Some_0;
    let e4 = find_key_from(s, e3 + 1, IncomeKeys::ProfitTax)->Some_0;
    IncomeReportView {
        gross_profit_segment: gross_profit_by_key(s.subrange(0, e1 + 1)),
        operational_segment: operational_segment_by_key(s.subrange(e1 + 1, e2 + 1)),
        financial_segment: financial_segment_by_key(s.subrange(e2 + 1, e3 + 1)),
        profit_tax: key_sum(s.subrange(e3 + 1, e4 + 1), IncomeKeys::ProfitTax),
    }
}

/// An income report parsed from lines holds, in every field, the sum of the
/// amounts of its section's lines that carry the field's key.
pub proof fn lemma_income_report_by_key(s: Seq<ParsedLineInfo<IncomeKeys>>)
    ensures
        income_report_of(s) matches Ok(r) ==> r == income_report_by_key(s),
{
    let e1 = find_key_from(s, 0, IncomeKeys::GrossProfit)->Some_0;
    let e2 = find_key_from(s, e1 + 1, IncomeKeys::OperationalProfit)->Some_0;
    let e3 = find_key_from(s, e2 + 1, IncomeKeys::ProfitBeforeTax)->Some_0;
    let e4 = find_key_from(s, e3 + 1, IncomeKeys::ProfitTax)->Some_0;
    lemma_gross_profit_by_key(s.subrange(0, e1 + 1));
    lemma_operational_segment_by_key(s.subrange(e1 + 1, e2 + 1));
    lemma_financial_segment_by_key(s.subrange(e2 + 1, e3 + 1));
    lemma_profit_tax_by_key(s.subrange(e3 + 1, e4 + 1));
}

} // verus!
