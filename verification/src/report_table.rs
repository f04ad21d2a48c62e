//! The figures of a company's reports as the report viewer lays them out:
//! which figure each row shows, how deep rows are nested, and what the
//! viewer does on each key.
use vstd::prelude::*;
use crate::company::Report;
use crate::company::ReportView;
use crate::money::{fits_i64, Money};
use crate::period::{period_views, strictly_ascending, Period};
use crate::text::{chars_of, string_from_chars};

verus! {

/// Which report the viewer shows.
#[derive(Debug, Clone, Copy, PartialEq, Eq, Structural)]
pub enum DisplayedReportType {
    Balance,
    Income,
}

impl DisplayedReportType {
    /// The report type named `s`, matched exactly.
    pub fn from_name(s: &str) -> (r: Option<DisplayedReportType>)
        ensures
            r == (if s@ == "Balance"@ {
                Some(DisplayedReportType::Balance)
            } else if s@ == "Income"@ {
                Some(DisplayedReportType::Income)
            } else {
                None
            }),
    {
        if crate::keys::str_eq(s, "Balance") {
            Some(DisplayedReportType::Balance)
        } else if crate::keys::str_eq(s, "Income") {
            Some(DisplayedReportType::Income)
        } else {
            None
        }
    }
}

/// The arguments of the viewer command.
pub struct GetCompanyArgs {
    pub inn: Option<String>,
    pub name: Option<String>,
    pub displayed_report_type: DisplayedReportType,
}

// ---------------------------------------------------------------- figures

/// All assets.
pub fn total_assets(report: &Report) -> (r: Money)
    ensures
        r@ == report@.balance.assets.total(),
{
    report.balance.assets().total()
}

/// All non-current assets.
pub fn total_non_current_assets(report: &Report) -> (r: Money)
    ensures
        r@ == report@.balance.assets.non_current.total(),
{
    report.balance.assets().non_current().total()
}

/// All current assets.
pub fn total_current_assets(report: &Report) -> (r: Money)
    ensures
        r@ == report@.balance.assets.current.total(),
{
    report.balance.assets().current().total()
}

/// Intangible assets.
pub fn non_material_assets(report: &Report) -> (r: Money)
    ensures
        r@ == report@.balance.assets.non_current.non_material_assets,
{
    report.balance.assets().non_current().non_material_assets()
}

/// Fixed assets.
pub fn fixed_assets(report: &Report) -> (r: Money)
    ensures
        r@ == report@.balance.assets.non_current.fixed_assets,
{
    report.balance.assets().non_current().fixed_assets()
}

/// Non-current financial investments.
pub fn non_current_financial_assets(report: &Report) -> (r: Money)
    ensures
        r@ == report@.balance.assets.non_current.financial_assets,
{
    report.balance.assets().non_current().financial_assets()
}

/// Other non-current assets.
pub fn non_current_other(report: &Report) -> (r: Money)
    ensures
        r@ == report@.balance.assets.non_current.other,
{
    report.balance.assets().non_current().other()
}

/// Inventory.
pub fn physical_inventory(report: &Report) -> (r: Money)
    ensures
        r@ == report@.balance.assets.current.physical_inventory,
{
    report.balance.assets().current().physical_inventory()
}

/// Accounts receivable.
pub fn accounts_receivable(report: &Report) -> (r: Money)
    ensures
        r@ == report@.balance.assets.current.accounts_receivable,
{
    report.balance.assets().current().accounts_receivable()
}

/// Current financial investments.
pub fn current_financial_assets(report: &Report) -> (r: Money)
    ensures
        r@ == report@.balance.assets.current.financial_assets,
{
    report.balance.assets().current().financial_assets()
}

/// Cash and equivalents.
pub fn cash(report: &Report) -> (r: Money)
    ensures
        r@ == report@.balance.assets.current.cash,
{
    report.balance.assets().current().cash()
}

/// Other current assets.
pub fn current_other(report: &Report) -> (r: Money)
    ensures
        r@ == report@.balance.assets.current.other,
{
    report.balance.assets().current().other()
}

/// All equity.
pub fn total_equity(report: &Report) -> (r: Money)
    ensures
        r@ == report@.balance.equity.total(),
{
    report.balance.equity().total()
}

/// All liabilities.
pub fn total_liabilities(report: &Report) -> (r: Money)
    ensures
        r@ == report@.balance.liabilities.total(),
{
    report.balance.liabilities().total()
}

/// All long-term liabilities.
pub fn total_long_term_liabilities(report: &Report) -> (r: Money)
    ensures
        r@ == report@.balance.liabilities.long_term.total(),
{
    report.balance.liabilities().long_term().total()
}

/// All short-term liabilities.
pub fn total_current_liabilities(report: &Report) -> (r: Money)
    ensures
        r@ == report@.balance.liabilities.current.total(),
{
    report.balance.liabilities().current().total()
}

/// Authorised capital.
pub fn authorised_capital(report: &Report) -> (r: Money)
    ensures
        r@ == report@.balance.equity.authorised_capital,
{
    report.balance.equity().authorised_capital()
}

/// Capital surplus.
pub fn capital_surplus(report: &Report) -> (r: Money)
    ensures
        r@ == report@.balance.equity.capital_surplus,
{
    report.balance.equity().capital_surplus()
}

/// Retained earnings.
pub fn retained_earnings(report: &Report) -> (r: Money)
    ensures
        r@ == report@.balance.equity.retained_earnings,
{
    report.balance.equity().retained_earnings()
}

/// Other equity.
pub fn equity_other(report: &Report) -> (r: Money)
    ensures
        r@ == report@.balance.equity.other,
{
    report.balance.equity().other()
}

/// Long-term loans.
pub fn long_term_loans(report: &Report) -> (r: Money)
    ensures
        r@ == report@.balance.liabilities.long_term.loans,
{
    report.balance.liabilities().long_term().loans()
}

/// Long-term accounts payable.
pub fn long_term_accounts_payable(report: &Report) -> (r: Money)
    ensures
        r@ == report@.balance.liabilities.long_term.accounts_payable,
{
    report.balance.liabilities().long_term().accounts_payable()
}

/// Other long-term liabilities.
pub fn long_term_other(report: &Report) -> (r: Money)
    ensures
        r@ == report@.balance.liabilities.long_term.other,
{
    report.balance.liabilities().long_term().other()
}

/// Short-term loans.
pub fn current_loans(report: &Report) -> (r: Money)
    ensures
        r@ == report@.balance.liabilities.current.loans,
{
    report.balance.liabilities().current().loans()
}

/// Short-term accounts payable.
pub fn current_accounts_payable(report: &Report) -> (r: Money)
    ensures
        r@ == report@.balance.liabilities.current.accounts_payable,
{
    report.balance.liabilities().current().accounts_payable()
}

/// Other short-term liabilities.
pub fn current_liabilities_other(report: &Report) -> (r: Money)
    ensures
        r@ == report@.balance.liabilities.current.other,
{
    report.balance.liabilities().current().other()
}

/// Gross profit.
pub fn gross_profit(report: &Report) -> (r: Money)
    requires
        fits_i64(report@.income.gross_profit()),
    ensures
        r@ == report@.income.gross_profit(),
{
    report.income.gross_profit()
}

/// Sales revenue.
pub fn sales_revenue(report: &Report) -> (r: Money)
    ensures
        r@ == report@.income.gross_profit_segment.sales_revenue,
{
    report.income.gross_profit_segment().sales_revenue()
}

/// Cost of sales.
pub fn cost_of_sales(report: &Report) -> (r: Money)
    ensures
        r@ == report@.income.gross_profit_segment.cost_of_sales,
{
    report.income.gross_profit_segment().cost_of_sales()
}

/// The net of the operational segment.
pub fn operational_expenses(report: &Report) -> (r: Money)
    requires
        report@.income.operational_segment.operational_expenses_fit(),
    ensures
        r@ == report@.income.operational_segment.operational_expenses(),
{
    report.income.operational_segment().operational_expenses()
}

/// Commercial expenses.
pub fn commercial_expenses(report: &Report) -> (r: Money)
    ensures
        r@ == report@.income.operational_segment.commercial_expenses,
{
    report.income.operational_segment().commercial_expenses()
}

/// Management expenses.
pub fn management_expenses(report: &Report) -> (r: Money)
    ensures
        r@ == report@.income.operational_segment.management_expenses,
{
    report.income.operational_segment().management_expenses()
}

/// Other income.
pub fn other_income(report: &Report) -> (r: Money)
    ensures
        r@ == report@.income.operational_segment.other_income,
{
    report.income.operational_segment().other_income()
}

/// Other expenses.
pub fn other_expenses(report: &Report) -> (r: Money)
    ensures
        r@ == report@.income.operational_segment.other_expenses,
{
    report.income.operational_segment().other_expenses()
}

/// Operational profit.
pub fn operational_profit(report: &Report) -> (r: Money)
    requires
        report@.income.operational_profit_fits(),
    ensures
        r@ == report@.income.operational_profit(),
{
    report.income.operational_profit()
}

/// The net of the financial segment.
pub fn net_financial_expenses(report: &Report) -> (r: Money)
    requires
        fits_i64(report@.income.financial_segment.net_financial_expenses()),
    ensures
        r@ == report@.income.financial_segment.net_financial_expenses(),
{
    report.income.financial_segment().net_financial_expenses()
}

/// Financial income.
pub fn financial_income(report: &Report) -> (r: Money)
    ensures
        r@ == report@.income.financial_segment.financial_income,
{
    report.income.financial_segment().financial_income()
}

/// Financial expenses.
pub fn financial_expenses(report: &Report) -> (r: Money)
    ensures
        r@ == report@.income.financial_segment.financial_expenses,
{
    report.income.financial_segment().financial_expenses()
}

/// Profit tax.
pub fn profit_tax(report: &Report) -> (r: Money)
    ensures
        r@ == report@.income.profit_tax,
{
    report.income.profit_tax()
}

/// Profit before tax.
pub fn profit_before_tax(report: &Report) -> (r: Money)
    requires
        report@.income.profit_before_tax_fits(),
    ensures
        r@ == report@.income.profit_before_tax(),
{
    report.income.profit_before_tax()
}

/// Net profit.
pub fn net_profit(report: &Report) -> (r: Money)
    requires
        report@.income.net_profit_fits(),
    ensures
        r@ == report@.income.net_profit(),
{
    report.income.net_profit()
}

/// A figure that a row of the viewer shows.
#[derive(Debug, Clone, Copy, PartialEq, Eq, Structural)]
pub enum ReportValue {
    TotalAssets,
    TotalNonCurrentAssets,
    TotalCurrentAssets,
    NonMaterialAssets,
    FixedAssets,
    NonCurrentFinancialAssets,
    NonCurrentOther,
    PhysicalInventory,
    AccountsReceivable,
    CurrentFinancialAssets,
    Cash,
    CurrentOther,
    TotalEquity,
    TotalLiabilities,
    TotalLongTermLiabilities,
    TotalCurrentLiabilities,
    AuthorisedCapital,
    CapitalSurplus,
    RetainedEarnings,
    EquityOther,
    LongTermLoans,
    LongTermAccountsPayable,
    LongTermOther,
    CurrentLoans,
    CurrentAccountsPayable,
    CurrentLiabilitiesOther,
    GrossProfit,
    SalesRevenue,
    CostOfSales,
    OperationalExpenses,
    CommercialExpenses,
    ManagementExpenses,
    OtherIncome,
    OtherExpenses,
    OperationalProfit,
    NetFinancialExpenses,
    FinancialIncome,
    FinancialExpenses,
    ProfitTax,
    ProfitBeforeTax,
    NetProfit,
}

/// The amount of a figure, in roubles.
pub open spec fn value_of(r: ReportView, v: ReportValue) -> int {
    match v {
        ReportValue::TotalAssets => r.balance.assets.total(),
        ReportValue::TotalNonCurrentAssets => r.balance.assets.non_current.total(),
        ReportValue::TotalCurrentAssets => r.balance.assets.current.total(),
        ReportValue::NonMaterialAssets => r.balance.assets.non_current.non_material_assets,
        ReportValue::FixedAssets => r.balance.assets.non_current.fixed_assets,
        ReportValue::NonCurrentFinancialAssets => r.balance.assets.non_current.financial_assets,
        ReportValue::NonCurrentOther => r.balance.assets.non_current.other,
        ReportValue::PhysicalInventory => r.balance.assets.current.physical_inventory,
        ReportValue::AccountsReceivable => r.balance.assets.current.accounts_receivable,
        ReportValue::CurrentFinancialAssets => r.balance.assets.current.financial_assets,
        ReportValue::Cash => r.balance.assets.current.cash,
        ReportValue::CurrentOther => r.balance.assets.current.other,
        ReportValue::TotalEquity => r.balance.equity.total(),
        ReportValue::TotalLiabilities => r.balance.liabilities.total(),
        ReportValue::TotalLongTermLiabilities => r.balance.liabilities.long_term.total(),
        ReportValue::TotalCurrentLiabilities => r.balance.liabilities.current.total(),
        ReportValue::AuthorisedCapital => r.balance.equity.authorised_capital,
        ReportValue::CapitalSurplus => r.balance.equity.capital_surplus,
        ReportValue::RetainedEarnings => r.balance.equity.retained_earnings,
        ReportValue::EquityOther => r.balance.equity.other,
        ReportValue::LongTermLoans => r.balance.liabilities.long_term.loans,
        ReportValue::LongTermAccountsPayable => r.balance.liabilities.long_term.accounts_payable,
        ReportValue::LongTermOther => r.balance.liabilities.long_term.other,
        ReportValue::CurrentLoans => r.balance.liabilities.current.loans,
        ReportValue::CurrentAccountsPayable => r.balance.liabilities.current.accounts_payable,
        ReportValue::CurrentLiabilitiesOther => r.balance.liabilities.current.other,
        ReportValue::GrossProfit => r.income.gross_profit(),
        ReportValue::SalesRevenue => r.income.gross_profit_segment.sales_revenue,
        ReportValue::CostOfSales => r.income.gross_profit_segment.cost_of_sales,
        ReportValue::OperationalExpenses => r.income.operational_segment.operational_expenses(),
        ReportValue::CommercialExpenses => r.income.operational_segment.commercial_expenses,
        ReportValue::ManagementExpenses => r.income.operational_segment.management_expenses,
        ReportValue::OtherIncome => r.income.operational_segment.other_income,
        ReportValue::OtherExpenses => r.income.operational_segment.other_expenses,
        ReportValue::OperationalProfit => r.income.operational_profit(),
        ReportValue::NetFinancialExpenses => r.income.financial_segment.net_financial_expenses(),
        ReportValue::FinancialIncome => r.income.financial_segment.financial_income,
        ReportValue::FinancialExpenses => r.income.financial_segment.financial_expenses,
        ReportValue::ProfitTax => r.income.profit_tax,
        ReportValue::ProfitBeforeTax => r.income.profit_before_tax(),
        ReportValue::NetProfit => r.income.net_profit(),
    }
}

/// Each figure of the viewer is the field of the report that its name
/// names: the totals are the report's totals, every other figure is the
/// one field of the balance or income report of the same name (short-term
/// loans are the loans of the short-term liabilities, and so on).
pub proof fn lemma_figures_name_their_fields(r: ReportView)
    ensures
        value_of(r, ReportValue::TotalAssets) == r.balance.assets.total(),
        value_of(r, ReportValue::TotalNonCurrentAssets) == r.balance.assets.non_current.total(),
        value_of(r, ReportValue::TotalCurrentAssets) == r.balance.assets.current.total(),
        value_of(r, ReportValue::NonMaterialAssets) == r.balance.assets.non_current.non_material_assets,
        value_of(r, ReportValue::FixedAssets) == r.balance.assets.non_current.fixed_assets,
        value_of(r, ReportValue::NonCurrentFinancialAssets) == r.balance.assets.non_current.financial_assets,
        value_of(r, ReportValue::NonCurrentOther) == r.balance.assets.non_current.other,
        value_of(r, ReportValue::PhysicalInventory) == r.balance.assets.current.physical_inventory,
        value_of(r, ReportValue::AccountsReceivable) == r.balance.assets.current.accounts_receivable,
        value_of(r, ReportValue::CurrentFinancialAssets) == r.balance.assets.current.financial_assets,
        value_of(r, ReportValue::Cash) == r.balance.assets.current.cash,
        value_of(r, ReportValue::CurrentOther) == r.balance.assets.current.other,
        value_of(r, ReportValue::TotalEquity) == r.balance.equity.total(),
        value_of(r, ReportValue::TotalLiabilities) == r.balance.liabilities.total(),
        value_of(r, ReportValue::TotalLongTermLiabilities) == r.balance.liabilities.long_term.total(),
        value_of(r, ReportValue::TotalCurrentLiabilities) == r.balance.liabilities.current.total(),
        value_of(r, ReportValue::AuthorisedCapital) == r.balance.equity.authorised_capital,
        value_of(r, ReportValue::CapitalSurplus) == r.balance.equity.capital_surplus,
        value_of(r, ReportValue::RetainedEarnings) == r.balance.equity.retained_earnings,
        value_of(r, ReportValue::EquityOther) == r.balance.equity.other,
        value_of(r, ReportValue::LongTermLoans) == r.balance.liabilities.long_term.loans,
        value_of(r, ReportValue::LongTermAccountsPayable) == r.balance.liabilities.long_term.accounts_payable,
        value_of(r, ReportValue::LongTermOther) == r.balance.liabilities.long_term.other,
        value_of(r, ReportValue::CurrentLoans) == r.balance.liabilities.current.loans,
        value_of(r, ReportValue::CurrentAccountsPayable) == r.balance.liabilities.current.accounts_payable,
        value_of(r, ReportValue::CurrentLiabilitiesOther) == r.balance.liabilities.current.other,
        value_of(r, ReportValue::GrossProfit) == r.income.gross_profit(),
        value_of(r, ReportValue::SalesRevenue) == r.income.gross_profit_segment.sales_revenue,
        value_of(r, ReportValue::CostOfSales) == r.income.gross_profit_segment.cost_of_sales,
        value_of(r, ReportValue::OperationalExpenses) == r.income.operational_segment.operational_expenses(),
        value_of(r, ReportValue::CommercialExpenses) == r.income.operational_segment.commercial_expenses,
        value_of(r, ReportValue::ManagementExpenses) == r.income.operational_segment.management_expenses,
        value_of(r, ReportValue::OtherIncome) == r.income.operational_segment.other_income,
        value_of(r, ReportValue::OtherExpenses) == r.income.operational_segment.other_expenses,
        value_of(r, ReportValue::OperationalProfit) == r.income.operational_profit(),
        value_of(r, ReportValue::NetFinancialExpenses) == r.income.financial_segment.net_financial_expenses(),
        value_of(r, ReportValue::FinancialIncome) == r.income.financial_segment.financial_income,
        value_of(r, ReportValue::FinancialExpenses) == r.income.financial_segment.financial_expenses,
        value_of(r, ReportValue::ProfitTax) == r.income.profit_tax,
        value_of(r, ReportValue::ProfitBeforeTax) == r.income.profit_before_tax(),
        value_of(r, ReportValue::NetProfit) == r.income.net_profit(),
{
}

/// Each total row of the viewer is the sum of the rows nested under it.
pub proof fn lemma_totals_add_up(r: ReportView)
    ensures
        value_of(r, ReportValue::TotalAssets) == value_of(r, ReportValue::TotalNonCurrentAssets) + value_of(r, ReportValue::TotalCurrentAssets),
        value_of(r, ReportValue::TotalNonCurrentAssets) == value_of(r, ReportValue::NonMaterialAssets) + value_of(r, ReportValue::FixedAssets) + value_of(r, ReportValue::NonCurrentFinancialAssets) + value_of(r, ReportValue::NonCurrentOther),
        value_of(r, ReportValue::TotalCurrentAssets) == value_of(r, ReportValue::PhysicalInventory) + value_of(r, ReportValue::AccountsReceivable) + value_of(r, ReportValue::CurrentFinancialAssets) + value_of(r, ReportValue::Cash) + value_of(r, ReportValue::CurrentOther),
        value_of(r, ReportValue::TotalEquity) == value_of(r, ReportValue::AuthorisedCapital) + value_of(r, ReportValue::CapitalSurplus) + value_of(r, ReportValue::RetainedEarnings) + value_of(r, ReportValue::EquityOther),
        value_of(r, ReportValue::TotalLiabilities) == value_of(r, ReportValue::TotalLongTermLiabilities) + value_of(r, ReportValue::TotalCurrentLiabilities),
        value_of(r, ReportValue::TotalLongTermLiabilities) == value_of(r, ReportValue::LongTermLoans) + value_of(r, ReportValue::LongTermAccountsPayable) + value_of(r, ReportValue::LongTermOther),
        value_of(r, ReportValue::TotalCurrentLiabilities) == value_of(r, ReportValue::CurrentLoans) + value_of(r, ReportValue::CurrentAccountsPayable) + value_of(r, ReportValue::CurrentLiabilitiesOther),
        value_of(r, ReportValue::GrossProfit) == value_of(r, ReportValue::SalesRevenue) + value_of(r, ReportValue::CostOfSales),
        value_of(r, ReportValue::OperationalExpenses) == value_of(r, ReportValue::CommercialExpenses) + value_of(r, ReportValue::ManagementExpenses) + value_of(r, ReportValue::OtherIncome) + value_of(r, ReportValue::OtherExpenses),
        value_of(r, ReportValue::OperationalProfit) == value_of(r, ReportValue::GrossProfit) + value_of(r, ReportValue::OperationalExpenses),
        value_of(r, ReportValue::NetFinancialExpenses) == value_of(r, ReportValue::FinancialIncome) + value_of(r, ReportValue::FinancialExpenses),
        value_of(r, ReportValue::ProfitBeforeTax) == value_of(r, ReportValue::OperationalProfit) + value_of(r, ReportValue::NetFinancialExpenses),
        value_of(r, ReportValue::NetProfit) == value_of(r, ReportValue::ProfitBeforeTax) + value_of(r, ReportValue::ProfitTax),
{
}

/// Whether every sum that a figure needs stays in the `i64` range. The
/// figures of a balance report always do.
pub open spec fn value_fits(r: ReportView, v: ReportValue) -> bool {
    match v {
        ReportValue::GrossProfit => fits_i64(r.income.gross_profit()),
        ReportValue::OperationalExpenses => r.income.operational_segment.operational_expenses_fit(),
        ReportValue::OperationalProfit => r.income.operational_profit_fits(),
        ReportValue::NetFinancialExpenses => fits_i64(r.income.financial_segment.net_financial_expenses()),
        ReportValue::ProfitBeforeTax => r.income.profit_before_tax_fits(),
        ReportValue::NetProfit => r.income.net_profit_fits(),
        _ => true,
    }
}

fn checked_sum(a: i64, b: i64) -> (r: Option<i64>)
    ensures
        r == (if fits_i64(a + b) { Some((a + b) as i64) } else { None::<i64> }),
{
    a.checked_add(b)
}

fn checked_gross_profit(report: &Report) -> (r: Option<i64>)
    ensures
        r == (if fits_i64(report@.income.gross_profit()) {
            Some(report@.income.gross_profit() as i64)
        } else {
            None::<i64>
        }),
{
    checked_sum(sales_revenue(report).in_roubles(), cost_of_sales(report).in_roubles())
}

fn checked_operational_expenses(report: &Report) -> (r: Option<i64>)
    ensures
        r == (if report@.income.operational_segment.operational_expenses_fit() {
            Some(report@.income.operational_segment.operational_expenses() as i64)
        } else {
            None::<i64>
        }),
{
    let a = checked_sum(commercial_expenses(report).in_roubles(), management_expenses(report).in_roubles())?;
    let b = checked_sum(a, other_income(report).in_roubles())?;
    checked_sum(b, other_expenses(report).in_roubles())
}

fn checked_operational_profit(report: &Report) -> (r: Option<i64>)
    ensures
        r == (if report@.income.operational_profit_fits() {
            Some(report@.income.operational_profit() as i64)
        } else {
            None::<i64>
        }),
{
    let g = checked_gross_profit(report)?;
    let o = checked_operational_expenses(report)?;
    checked_sum(g, o)
}

fn checked_net_financial_expenses(report: &Report) -> (r: Option<i64>)
    ensures
        r == (if fits_i64(report@.income.financial_segment.net_financial_expenses()) {
            Some(report@.income.financial_segment.net_financial_expenses() as i64)
        } else {
            None::<i64>
        }),
{
    checked_sum(financial_income(report).in_roubles(), financial_expenses(report).in_roubles())
}

fn checked_profit_before_tax(report: &Report) -> (r: Option<i64>)
    ensures
        r == (if report@.income.profit_before_tax_fits() {
            Some(report@.income.profit_before_tax() as i64)
        } else {
            None::<i64>
        }),
{
    let o = checked_operational_profit(report)?;
    let f = checked_net_financial_expenses(report)?;
    checked_sum(o, f)
}

fn checked_net_profit(report: &Report) -> (r: Option<i64>)
    ensures
        r == (if report@.income.net_profit_fits() {
            Some(report@.income.net_profit() as i64)
        } else {
            None::<i64>
        }),
{
    let p = checked_profit_before_tax(report)?;
    checked_sum(p, profit_tax(report).in_roubles())
}

fn money_opt(v: Option<i64>) -> (r: Option<Money>)
    ensures
        match v {
            Some(x) => r matches Some(m) && m@ == x,
            None => r is None,
        },
{
    match v {
        Some(x) => Some(Money::from_roubles(x)),
        None => None,
    }
}

/// The amount of a figure in a report; `None` when a sum that the figure
/// needs leaves the `i64` range.
pub fn row_value(report: &Report, v: ReportValue) -> (r: Option<Money>)
    ensures
        value_fits(report@, v) ==> (r matches Some(m) && m@ == value_of(report@, v)),
        !value_fits(report@, v) ==> r is None,
{
    match v {
        ReportValue::TotalAssets => Some(total_assets(report)),
        ReportValue::TotalNonCurrentAssets => Some(total_non_current_assets(report)),
        ReportValue::TotalCurrentAssets => Some(total_current_assets(report)),
        ReportValue::NonMaterialAssets => Some(non_material_assets(report)),
        ReportValue::FixedAssets => Some(fixed_assets(report)),
        ReportValue::NonCurrentFinancialAssets => Some(non_current_financial_assets(report)),
        ReportValue::NonCurrentOther => Some(non_current_other(report)),
        ReportValue::PhysicalInventory => Some(physical_inventory(report)),
        ReportValue::AccountsReceivable => Some(accounts_receivable(report)),
        ReportValue::CurrentFinancialAssets => Some(current_financial_assets(report)),
        ReportValue::Cash => Some(cash(report)),
        ReportValue::CurrentOther => Some(current_other(report)),
        ReportValue::TotalEquity => Some(total_equity(report)),
        ReportValue::TotalLiabilities => Some(total_liabilities(report)),
        ReportValue::TotalLongTermLiabilities => Some(total_long_term_liabilities(report)),
        ReportValue::TotalCurrentLiabilities => Some(total_current_liabilities(report)),
        ReportValue::AuthorisedCapital => Some(authorised_capital(report)),
        ReportValue::CapitalSurplus => Some(capital_surplus(report)),
        ReportValue::RetainedEarnings => Some(retained_earnings(report)),
        ReportValue::EquityOther => Some(equity_other(report)),
        ReportValue::LongTermLoans => Some(long_term_loans(report)),
        ReportValue::LongTermAccountsPayable => Some(long_term_accounts_payable(report)),
        ReportValue::LongTermOther => Some(long_term_other(report)),
        ReportValue::CurrentLoans => Some(current_loans(report)),
        ReportValue::CurrentAccountsPayable => Some(current_accounts_payable(report)),
        ReportValue::CurrentLiabilitiesOther => Some(current_liabilities_other(report)),
        ReportValue::GrossProfit => money_opt(checked_gross_profit(report)),
        ReportValue::SalesRevenue => Some(sales_revenue(report)),
        ReportValue::CostOfSales => Some(cost_of_sales(report)),
        ReportValue::OperationalExpenses => money_opt(checked_operational_expenses(report)),
        ReportValue::CommercialExpenses => Some(commercial_expenses(report)),
        ReportValue::ManagementExpenses => Some(management_expenses(report)),
        ReportValue::OtherIncome => Some(other_income(report)),
        ReportValue::OtherExpenses => Some(other_expenses(report)),
        ReportValue::OperationalProfit => money_opt(checked_operational_profit(report)),
        ReportValue::NetFinancialExpenses => money_opt(checked_net_financial_expenses(report)),
        ReportValue::FinancialIncome => Some(financial_income(report)),
        ReportValue::FinancialExpenses => Some(financial_expenses(report)),
        ReportValue::ProfitTax => Some(profit_tax(report)),
        ReportValue::ProfitBeforeTax => money_opt(checked_profit_before_tax(report)),
        ReportValue::NetProfit => money_opt(checked_net_profit(report)),
    }
}

// ---------------------------------------------------------------- rows

/// A row of the viewer: its title, its figure, and how deep it is nested
/// (0 for the top rows).
#[derive(Debug, Clone, Copy)]
pub struct RowDescriptor {
    pub title: &'static str,
    pub value: ReportValue,
    pub level: i32,
}

/// The deepest nesting of rows.
pub const MAX_LEVEL: i32 = 2;

/// The rows of the balance view, from the top.
pub open spec fn balance_row_list() -> Seq<RowDescriptor> {
    seq![
        RowDescriptor { title: "Assets", value: ReportValue::TotalAssets, level: 0 },
        RowDescriptor { title: "Non-current assets", value: ReportValue::TotalNonCurrentAssets, level: 1 },
        RowDescriptor { title: "Non-material assets", value: ReportValue::NonMaterialAssets, level: 2 },
        RowDescriptor { title: "Fixed assets", value: ReportValue::FixedAssets, level: 2 },
        RowDescriptor { title: "Financial investments (non-current)", value: ReportValue::NonCurrentFinancialAssets, level: 2 },
        RowDescriptor { title: "Other non-current assets", value: ReportValue::NonCurrentOther, level: 2 },
        RowDescriptor { title: "Current assets", value: ReportValue::TotalCurrentAssets, level: 1 },
        RowDescriptor { title: "Inventory", value: ReportValue::PhysicalInventory, level: 2 },
        RowDescriptor { title: "Accounts receivable", value: ReportValue::AccountsReceivable, level: 2 },
        RowDescriptor { title: "Financial investments (current)", value: ReportValue::CurrentFinancialAssets, level: 2 },
        RowDescriptor { title: "Cash and equivalents", value: ReportValue::Cash, level: 2 },
        RowDescriptor { title: "Other current assets", value: ReportValue::CurrentOther, level: 2 },
        RowDescriptor { title: "Equity", value: ReportValue::TotalEquity, level: 0 },
        RowDescriptor { title: "Authorised capital", value: ReportValue::AuthorisedCapital, level: 2 },
        RowDescriptor { title: "Capital surplus", value: ReportValue::CapitalSurplus, level: 2 },
        RowDescriptor { title: "Retained earnings", value: ReportValue::RetainedEarnings, level: 2 },
        RowDescriptor { title: "Other equity", value: ReportValue::EquityOther, level: 2 },
        RowDescriptor { title: "Liabilities", value: ReportValue::TotalLiabilities, level: 0 },
        RowDescriptor { title: "Long-term liabilities", value: ReportValue::TotalLongTermLiabilities, level: 1 },
        RowDescriptor { title: "Long-term loans", value: ReportValue::LongTermLoans, level: 2 },
        RowDescriptor { title: "Long-term accounts payable", value: ReportValue::LongTermAccountsPayable, level: 2 },
        RowDescriptor { title: "Other long-term liabilities", value: ReportValue::LongTermOther, level: 2 },
        RowDescriptor { title: "Short-term liabilities", value: ReportValue::TotalCurrentLiabilities, level: 1 },
        RowDescriptor { title: "Short-term loans", value: ReportValue::CurrentLoans, level: 2 },
        RowDescriptor { title: "Short-term accounts payable", value: ReportValue::CurrentAccountsPayable, level: 2 },
        RowDescriptor { title: "Other current liabilities", value: ReportValue::CurrentLiabilitiesOther, level: 2 },
    ]
}

/// The rows of the income view, from the top.
pub open spec fn income_row_list() -> Seq<RowDescriptor> {
    seq![
        RowDescriptor { title: "Gross profit", value: ReportValue::GrossProfit, level: 0 },
        RowDescriptor { title: "Sales revenue", value: ReportValue::SalesRevenue, level: 2 },
        RowDescriptor { title: "Cost of sales", value: ReportValue::CostOfSales, level: 2 },
        RowDescriptor { title: "Operational expenses", value: ReportValue::OperationalExpenses, level: 0 },
        RowDescriptor { title: "Comercial expenses", value: ReportValue::CommercialExpenses, level: 2 },
        RowDescriptor { title: "Management expenses", value: ReportValue::ManagementExpenses, level: 2 },
        RowDescriptor { title: "Other income", value: ReportValue::OtherIncome, level: 2 },
        RowDescriptor { title: "Other expenses", value: ReportValue::OtherExpenses, level: 2 },
        RowDescriptor { title: "Operational profit", value: ReportValue::OperationalProfit, level: 0 },
        RowDescriptor { title: "Financial net expenses", value: ReportValue::NetFinancialExpenses, level: 0 },
        RowDescriptor { title: "Financial income", value: ReportValue::FinancialIncome, level: 2 },
        RowDescriptor { title: "Financial expenses", value: ReportValue::FinancialExpenses, level: 2 },
        RowDescriptor { title: "Profit before tax", value: ReportValue::ProfitBeforeTax, level: 0 },
        RowDescriptor { title: "Profit tax", value: ReportValue::ProfitTax, level: 0 },
        RowDescriptor { title: "Net profit", value: ReportValue::NetProfit, level: 0 },
    ]
}

/// The rows of the balance view.
pub fn balance_rows() -> (r: Vec<RowDescriptor>)
    ensures
        r@ == balance_row_list(),
{
    let r = vec![
        RowDescriptor { title: "Assets", value: ReportValue::TotalAssets, level: 0 },
        RowDescriptor { title: "Non-current assets", value: ReportValue::TotalNonCurrentAssets, level: 1 },
        RowDescriptor { title: "Non-material assets", value: ReportValue::NonMaterialAssets, level: 2 },
        RowDescriptor { title: "Fixed assets", value: ReportValue::FixedAssets, level: 2 },
        RowDescriptor { title: "Financial investments (non-current)", value: ReportValue::NonCurrentFinancialAssets, level: 2 },
        RowDescriptor { title: "Other non-current assets", value: ReportValue::NonCurrentOther, level: 2 },
        RowDescriptor { title: "Current assets", value: ReportValue::TotalCurrentAssets, level: 1 },
        RowDescriptor { title: "Inventory", value: ReportValue::PhysicalInventory, level: 2 },
        RowDescriptor { title: "Accounts receivable", value: ReportValue::AccountsReceivable, level: 2 },
        RowDescriptor { title: "Financial investments (current)", value: ReportValue::CurrentFinancialAssets, level: 2 },
        RowDescriptor { title: "Cash and equivalents", value: ReportValue::Cash, level: 2 },
        RowDescriptor { title: "Other current assets", value: ReportValue::CurrentOther, level: 2 },
        RowDescriptor { title: "Equity", value: ReportValue::TotalEquity, level: 0 },
        RowDescriptor { title: "Authorised capital", value: ReportValue::AuthorisedCapital, level: 2 },
        RowDescriptor { title: "Capital surplus", value: ReportValue::CapitalSurplus, level: 2 },
        RowDescriptor { title: "Retained earnings", value: ReportValue::RetainedEarnings, level: 2 },
        RowDescriptor { title: "Other equity", value: ReportValue::EquityOther, level: 2 },
        RowDescriptor { title: "Liabilities", value: ReportValue::TotalLiabilities, level: 0 },
        RowDescriptor { title: "Long-term liabilities", value: ReportValue::TotalLongTermLiabilities, level: 1 },
        RowDescriptor { title: "Long-term loans", value: ReportValue::LongTermLoans, level: 2 },
        RowDescriptor { title: "Long-term accounts payable", value: ReportValue::LongTermAccountsPayable, level: 2 },
        RowDescriptor { title: "Other long-term liabilities", value: ReportValue::LongTermOther, level: 2 },
        RowDescriptor { title: "Short-term liabilities", value: ReportValue::TotalCurrentLiabilities, level: 1 },
        RowDescriptor { title: "Short-term loans", value: ReportValue::CurrentLoans, level: 2 },
        RowDescriptor { title: "Short-term accounts payable", value: ReportValue::CurrentAccountsPayable, level: 2 },
        RowDescriptor { title: "Other current liabilities", value: ReportValue::CurrentLiabilitiesOther, level: 2 },
    ];
    assert(r@ =~= balance_row_list());
    r
}

/// The rows of the income view.
pub fn income_rows() -> (r: Vec<RowDescriptor>)
    ensures
        r@ == income_row_list(),
{
    let r = vec![
        RowDescriptor { title: "Gross profit", value: ReportValue::GrossProfit, level: 0 },
        RowDescriptor { title: "Sales revenue", value: ReportValue::SalesRevenue, level: 2 },
        RowDescriptor { title: "Cost of sales", value: ReportValue::CostOfSales, level: 2 },
        RowDescriptor { title: "Operational expenses", value: ReportValue::OperationalExpenses, level: 0 },
        RowDescriptor { title: "Comercial expenses", value: ReportValue::CommercialExpenses, level: 2 },
        RowDescriptor { title: "Management expenses", value: ReportValue::ManagementExpenses, level: 2 },
        RowDescriptor { title: "Other income", value: ReportValue::OtherIncome, level: 2 },
        RowDescriptor { title: "Other expenses", value: ReportValue::OtherExpenses, level: 2 },
        RowDescriptor { title: "Operational profit", value: ReportValue::OperationalProfit, level: 0 },
        RowDescriptor { title: "Financial net expenses", value: ReportValue::NetFinancialExpenses, level: 0 },
        RowDescriptor { title: "Financial income", value: ReportValue::FinancialIncome, level: 2 },
        RowDescriptor { title: "Financial expenses", value: ReportValue::FinancialExpenses, level: 2 },
        RowDescriptor { title: "Profit before tax", value: ReportValue::ProfitBeforeTax, level: 0 },
        RowDescriptor { title: "Profit tax", value: ReportValue::ProfitTax, level: 0 },
        RowDescriptor { title: "Net profit", value: ReportValue::NetProfit, level: 0 },
    ];
    assert(r@ =~= income_row_list());
    r
}

/// The rows shown when rows nested deeper than `max_expand_level` are hidden.
pub open spec fn visible(rows: Seq<RowDescriptor>, max_expand_level: i32) -> Seq<RowDescriptor>
    decreases rows.len(),
{
    if rows.len() == 0 {
        Seq::empty()
    } else {
        let front = visible(rows.drop_last(), max_expand_level);
        if rows.last().level > max_expand_level {
            front
        } else {
            front.push(rows.last())
        }
    }
}

/// The rows to show, in order: those nested no deeper than `max_expand_level`.
pub fn visible_rows(rows: &[RowDescriptor], max_expand_level: i32) -> (r: Vec<RowDescriptor>)
    ensures
        r@ == visible(rows@, max_expand_level),
{
    let mut out: Vec<RowDescriptor> = Vec::new();
    let mut i: usize = 0;
    assert(rows@.take(0) =~= Seq::<RowDescriptor>::empty());
    while i < rows.len()
        invariant
            i <= rows@.len(),
            out@ == visible(rows@.take(i as int), max_expand_level),
        decreases rows@.len() - i,
    {
        let ghost prefix = rows@.take(i + 1);
        assert(prefix.drop_last() =~= rows@.take(i as int));
        assert(prefix.last() == rows@[i as int]);
        let d = rows[i];
        if d.level <= max_expand_level {
            out.push(d);
        }
        i = i + 1;
    }
    assert(rows@.take(i as int) =~= rows@);
    out
}

/// The mark of a row whose children are shown.
pub open spec fn opened_mark() -> Seq<char> {
    seq!['\u{25bc}', ' ']
}

/// The mark of a row whose children are hidden.
pub open spec fn closed_mark() -> Seq<char> {
    seq!['\u{25b6}', ' ']
}

/// The title cell of a row: two spaces per level, a mark telling whether
/// the row's children are shown, and the title.
pub open spec fn row_title(d: RowDescriptor, max_expand_level: i32) -> Seq<char> {
    let indent = Seq::new(if d.level > 0 { 2 * d.level as nat } else { 0 }, |i: int| ' ');
    let mark = if d.level < max_expand_level {
        opened_mark()
    } else if d.level < MAX_LEVEL && d.level == max_expand_level {
        closed_mark()
    } else {
        Seq::empty()
    };
    indent + mark + d.title@
}

/// The text of a row's title cell.
pub fn row_title_text(d: &RowDescriptor, max_expand_level: i32) -> (r: String)
    ensures
        r@ == row_title(*d, max_expand_level),
{
    let mut out: Vec<char> = Vec::new();
    let mut k: i32 = 0;
    while k < d.level
        invariant
            0 <= k,
            d.level > 0 ==> k <= d.level,
            d.level <= 0 ==> k == 0,
            out@ == Seq::new(2 * k as nat, |i: int| ' '),
        decreases d.level - k,
    {
        out.push(' ');
        out.push(' ');
        k = k + 1;
        assert(out@ =~= Seq::new(2 * k as nat, |i: int| ' '));
    }
    let ghost indent = out@;
    if d.level < max_expand_level {
        out.push('\u{25bc}');
        out.push(' ');
    } else if d.level < MAX_LEVEL && d.level == max_expand_level {
        out.push('\u{25b6}');
        out.push(' ');
    }
    let ghost marked = out@;
    let title = chars_of(d.title);
    let mut j: usize = 0;
    while j < title.len()
        invariant
            j <= title@.len(),
            title@ == d.title@,
            out@ == marked + title@.take(j as int),
        decreases title@.len() - j,
    {
        out.push(title[j]);
        j = j + 1;
        assert(out@ =~= marked + title@.take(j as int));
    }
    assert(title@.take(j as int) =~= title@);
    assert(out@ =~= row_title(*d, max_expand_level));
    string_from_chars(out.as_slice())
}

/// How a figure moved since the previous period.
#[derive(Debug, Clone, Copy, PartialEq, Eq, Structural)]
pub enum Trend {
    Rising,
    Falling,
    Steady,
}

/// The trend of a figure: `Steady` when there is no previous value to
/// compare with.
pub open spec fn trend_of(cur: int, prev: Option<int>) -> Trend {
    match prev {
        None => Trend::Steady,
        Some(p) => if cur > p {
            Trend::Rising
        } else if cur < p {
            Trend::Falling
        } else {
            Trend::Steady
        },
    }
}

/// How a figure moved since the previous period.
pub fn value_trend(cur: Money, prev: Option<Money>) -> (r: Trend)
    ensures
        r == trend_of(cur@, match prev { Some(p) => Some(p@), None => None }),
{
    match prev {
        None => Trend::Steady,
        Some(p) => if cur > p {
            Trend::Rising
        } else if cur < p {
            Trend::Falling
        } else {
            Trend::Steady
        },
    }
}

// ---------------------------------------------------------------- columns

/// The periods that reports are for.
pub open spec fn reports_periods(reports: Seq<(Period, Report)>) -> Set<(i32, crate::period::PeriodType)> {
    Set::new(|v: (i32, crate::period::PeriodType)| exists|i: int| 0 <= i < reports.len() && reports[i].0@ == v)
}

/// The columns of the viewer: the periods of the reports, in ascending
/// order, each once.
pub fn report_periods(reports: &[(Period, Report)]) -> (r: Vec<Period>)
    ensures
        strictly_ascending(r@),
        period_views(r@) == reports_periods(reports@),
{
    let mut out: Vec<Period> = Vec::new();
    let mut i: usize = 0;
    assert(period_views(out@) =~= reports_periods(reports@.take(0)));
    while i < reports.len()
        invariant
            i <= reports@.len(),
            strictly_ascending(out@),
            period_views(out@) == reports_periods(reports@.take(i as int)),
        decreases reports@.len() - i,
    {
        let p = reports[i].0;
        Period::insert_ascending(&mut out, p);
        proof {
            let prefix = reports@.take(i + 1);
            assert(reports_periods(prefix) =~= reports_periods(reports@.take(i as int)).insert(p@)) by {
                assert forall|v| reports_periods(prefix).contains(v) implies reports_periods(
                    reports@.take(i as int),
                ).insert(p@).contains(v) by {
                    let k = choose|k: int| 0 <= k < prefix.len() && prefix[k].0@ == v;
                    if k < i {
                        assert(reports@.take(i as int)[k] == prefix[k]);
                    }
                }
                assert forall|v| reports_periods(reports@.take(i as int)).insert(p@).contains(v) implies reports_periods(
                    prefix,
                ).contains(v) by {
                    if v == p@ {
                        assert(prefix[i as int] == reports@[i as int]);
                    } else {
                        let k = choose|k: int| 0 <= k < i && reports@.take(i as int)[k].0@ == v;
                        assert(prefix[k] == reports@[k]);
                    }
                }
            }
        }
        i = i + 1;
    }
    assert(reports@.take(i as int) =~= reports@);
    out
}

/// The position of the first report of `period`.
pub fn report_for_period(reports: &[(Period, Report)], period: Period) -> (r: Option<usize>)
    ensures
        r matches Some(i) ==> i < reports@.len() && reports@[i as int].0 == period && forall|j: int|
            0 <= j < i ==> reports@[j].0 != period,
        r is None ==> forall|j: int| 0 <= j < reports@.len() ==> reports@[j].0 != period,
{
    let mut i: usize = 0;
    while i < reports.len()
        invariant
            i <= reports@.len(),
            forall|j: int| 0 <= j < i ==> reports@[j].0 != period,
        decreases reports@.len() - i,
    {
        if reports[i].0 == period {
            return Some(i);
        }
        i = i + 1;
    }
    None
}

// ---------------------------------------------------------------- the viewer

/// How the viewer shows amounts.
#[derive(Debug, Clone, Copy, PartialEq, Eq, Structural)]
pub enum ValueDisplayMode {
    /// The amounts themselves.
    Absolute,
    /// The change from the previous period, in percent.
    PercentToPrevious,
    /// The share of total assets, in percent.
    PercentFromBalance,
}

/// A key pressed in the viewer.
#[derive(Debug, Clone, Copy, PartialEq, Eq, Structural)]
pub enum ViewerKey {
    /// `q` or Esc.
    Quit,
    /// `h`: show changes from the previous period.
    ChangeToPrevious,
    /// `v`: show shares of total assets.
    ShareOfAssets,
    /// `a`: show the amounts.
    Absolute,
    /// `e`: show one level of rows more, or back to the top rows.
    Expand,
    Left,
    Right,
    Other,
}

/// What the viewer does after a key.
#[derive(Debug, Clone, Copy, PartialEq, Eq, Structural)]
pub enum ViewerAction {
    Quit,
    /// Rebuild the rows for the new state.
    Rebuild,
    SelectPreviousColumn,
    SelectNextColumn,
    Ignore,
}

/// The state of the report viewer.
pub struct ViewerState {
    value_display_mode: ValueDisplayMode,
    max_expand_level: i32,
    displayed_report_type: DisplayedReportType,
}

impl ViewerState {
    #[verifier::type_invariant]
    spec fn level_in_range(self) -> bool {
        0 <= self.max_expand_level <= MAX_LEVEL
    }

    pub closed spec fn mode(self) -> ValueDisplayMode {
        self.value_display_mode
    }

    pub closed spec fn level(self) -> i32 {
        self.max_expand_level
    }

    pub closed spec fn report_type(self) -> DisplayedReportType {
        self.displayed_report_type
    }

    /// The state the viewer starts in: amounts, top rows only.
    pub fn new(displayed_report_type: DisplayedReportType) -> (r: ViewerState)
        ensures
            r.mode() == ValueDisplayMode::Absolute,
            r.level() == 0,
            r.report_type() == displayed_report_type,
    {
        ViewerState { value_display_mode: ValueDisplayMode::Absolute, max_expand_level: 0, displayed_report_type }
    }

    pub fn value_display_mode(&self) -> (r: ValueDisplayMode)
        ensures
            r == self.mode(),
    {
        self.value_display_mode
    }

    /// How deep the shown rows go, from 0 to `MAX_LEVEL`.
    pub fn max_expand_level(&self) -> (r: i32)
        ensures
            r == self.level(),
            0 <= r <= MAX_LEVEL,
    {
        proof {
            use_type_invariant(self);
        }
        self.max_expand_level
    }

    pub fn displayed_report_type(&self) -> (r: DisplayedReportType)
        ensures
            r == self.report_type(),
    {
        self.displayed_report_type
    }

    /// Reacts to a key. Shares of total assets are only shown for the
    /// balance report; expanding past the deepest level goes back to the
    /// top rows.
    pub fn handle_key(&mut self, key: ViewerKey) -> (r: ViewerAction)
        ensures
            final(self).report_type() == old(self).report_type(),
            0 <= final(self).level() <= MAX_LEVEL,
            match key {
                ViewerKey::Quit => r == ViewerAction::Quit && final(self).mode() == old(self).mode()
                    && final(self).level() == old(self).level(),
                ViewerKey::ChangeToPrevious => r == ViewerAction::Rebuild && final(self).mode()
                    == ValueDisplayMode::PercentToPrevious && final(self).level() == old(self).level(),
                ViewerKey::ShareOfAssets => if old(self).report_type() == DisplayedReportType::Balance {
                    r == ViewerAction::Rebuild && final(self).mode() == ValueDisplayMode::PercentFromBalance
                        && final(self).level() == old(self).level()
                } else {
                    r == ViewerAction::Ignore && final(self).mode() == old(self).mode() && final(self).level()
                        == old(self).level()
                },
                ViewerKey::Absolute => r == ViewerAction::Rebuild && final(self).mode() == ValueDisplayMode::Absolute
                    && final(self).level() == old(self).level(),
                ViewerKey::Expand => r == ViewerAction::Rebuild && final(self).mode() == old(self).mode()
                    && final(self).level() == (old(self).level() + 1) % (MAX_LEVEL + 1),
                ViewerKey::Left => r == ViewerAction::SelectPreviousColumn && final(self).mode() == old(self).mode()
                    && final(self).level() == old(self).level(),
                ViewerKey::Right => r == ViewerAction::SelectNextColumn && final(self).mode() == old(self).mode()
                    && final(self).level() == old(self).level(),
                ViewerKey::Other => r == ViewerAction::Ignore && final(self).mode() == old(self).mode()
                    && final(self).level() == old(self).level(),
            },
    {
        proof {
            use_type_invariant(&*self);
        }
        match key {
            ViewerKey::Quit => ViewerAction::Quit,
            ViewerKey::ChangeToPrevious => {
                self.value_display_mode = ValueDisplayMode::PercentToPrevious;
                ViewerAction::Rebuild
            },
            ViewerKey::ShareOfAssets => {
                if self.displayed_report_type == DisplayedReportType::Balance {
                    self.value_display_mode = ValueDisplayMode::PercentFromBalance;
                    ViewerAction::Rebuild
                } else {
                    ViewerAction::Ignore
                }
            },
            ViewerKey::Absolute => {
                self.value_display_mode = ValueDisplayMode::Absolute;
                ViewerAction::Rebuild
            },
            ViewerKey::Expand => {
                self.max_expand_level = (self.max_expand_level + 1) % (MAX_LEVEL + 1);
                ViewerAction::Rebuild
            },
            ViewerKey::Left => ViewerAction::SelectPreviousColumn,
            ViewerKey::Right => ViewerAction::SelectNextColumn,
            ViewerKey::Other => ViewerAction::Ignore,
        }
    }
}

/// Pressing the expand key `MAX_LEVEL + 1` times brings the viewer back to
/// the level it started at.
pub proof fn lemma_expand_cycles(level: int)
    requires
        0 <= level <= MAX_LEVEL,
    ensures
        (((level + 1) % (MAX_LEVEL + 1) + 1) % (MAX_LEVEL + 1) + 1) % (MAX_LEVEL + 1) == level,
{
    assert(MAX_LEVEL + 1 == 3);
    if level == 0 {
        assert((0int + 1) % 3 == 1);
        assert((1int + 1) % 3 == 2);
        assert((2int + 1) % 3 == 0);
    } else if level == 1 {
        assert((1int + 1) % 3 == 2);
        assert((2int + 1) % 3 == 0);
        assert((0int + 1) % 3 == 1);
    } else {
        assert((2int + 1) % 3 == 0);
        assert((0int + 1) % 3 == 1);
        assert((1int + 1) % 3 == 2);
    }
}

} // verus!
