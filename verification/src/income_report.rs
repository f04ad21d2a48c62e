//! The income report. Incomes are non-negative amounts and expenses are
//! non-positive amounts, so every profit is a plain sum.
use vstd::prelude::*;
use crate::keys::IncomeKeys;
use crate::money::{fits_i64, lemma_money_of, lemma_money_range, money_of, Money};
use crate::report_error::ModelError;

verus! {

broadcast use lemma_money_range, lemma_money_of;

/// Sales revenue and the cost of the sales.
#[derive(Debug, PartialEq, Clone, Copy)]
pub struct GrossProfitSegment {
    sales_revenue: Money,
    cost_of_sales: Money,
}

/// The amounts of [`GrossProfitSegment`], in roubles.
pub struct GrossProfitSegmentView {
    pub sales_revenue: int,
    pub cost_of_sales: int,
}

impl GrossProfitSegmentView {
    /// Revenue is not negative and the cost is not positive.
    pub open spec fn signs_ok(self) -> bool {
        self.sales_revenue >= 0 && self.cost_of_sales <= 0
    }

    pub open spec fn gross_profit(self) -> int {
        self.sales_revenue + self.cost_of_sales
    }
}

impl View for GrossProfitSegment {
    type V = GrossProfitSegmentView;

    closed spec fn view(&self) -> GrossProfitSegmentView {
        GrossProfitSegmentView {
            sales_revenue: self.sales_revenue@,
            cost_of_sales: self.cost_of_sales@,
        }
    }
}

/// The result of building a gross profit segment: the first amount with a
/// wrong sign, in the order revenue, cost.
pub open spec fn gross_profit_segment_check(sales_revenue: int, cost_of_sales: int) -> Option<IncomeKeys> {
    if sales_revenue < 0 {
        Some(IncomeKeys::SalesRevenue)
    } else if cost_of_sales > 0 {
        Some(IncomeKeys::CostOfSales)
    } else {
        None
    }
}

impl GrossProfitSegment {
    /// Builds the segment, refusing a negative revenue or a positive cost.
    pub fn new(sales_revenue: Money, cost_of_sales: Money) -> (r: Result<GrossProfitSegment, ModelError>)
        ensures
            match gross_profit_segment_check(sales_revenue@, cost_of_sales@) {
                Some(k) => r == Err::<GrossProfitSegment, ModelError>(ModelError::WrongSign(k)),
                None => r matches Ok(g) && g@ == (GrossProfitSegmentView {
                    sales_revenue: sales_revenue@,
                    cost_of_sales: cost_of_sales@,
                }),
            },
    {
        if sales_revenue.in_roubles() < 0 {
            return Err(ModelError::WrongSign(IncomeKeys::SalesRevenue));
        }
        if cost_of_sales.in_roubles() > 0 {
            return Err(ModelError::WrongSign(IncomeKeys::CostOfSales));
        }
        Ok(GrossProfitSegment { sales_revenue, cost_of_sales })
    }

    pub fn sales_revenue(&self) -> (r: Money)
        ensures
            r@ == self@.sales_revenue,
    {
        self.sales_revenue
    }

    pub fn cost_of_sales(&self) -> (r: Money)
        ensures
            r@ == self@.cost_of_sales,
    {
        self.cost_of_sales
    }

    /// Revenue plus the (non-positive) cost.
    pub fn gross_profit(&self) -> (r: Money)
        requires
            fits_i64(self@.gross_profit()),
        ensures
            r@ == self@.gross_profit(),
    {
        self.sales_revenue + self.cost_of_sales
    }
}

impl core::ops::Add for GrossProfitSegment {
    type Output = GrossProfitSegment;

    fn add(self, rhs: GrossProfitSegment) -> (r: GrossProfitSegment)
        ensures
            r@.sales_revenue == self@.sales_revenue + rhs@.sales_revenue,
            r@.cost_of_sales == self@.cost_of_sales + rhs@.cost_of_sales,
    {
        GrossProfitSegment {
            sales_revenue: self.sales_revenue + rhs.sales_revenue,
            cost_of_sales: self.cost_of_sales + rhs.cost_of_sales,
        }
    }
}

impl vstd::std_specs::ops::AddSpecImpl for GrossProfitSegment {
    open spec fn obeys_add_spec() -> bool {
        true
    }

    open spec fn add_req(self, rhs: GrossProfitSegment) -> bool {
        fits_i64(self@.sales_revenue + rhs@.sales_revenue) && fits_i64(self@.cost_of_sales + rhs@.cost_of_sales)
    }

    closed spec fn add_spec(self, rhs: GrossProfitSegment) -> GrossProfitSegment {
        GrossProfitSegment {
            sales_revenue: money_of(self@.sales_revenue + rhs@.sales_revenue),
            cost_of_sales: money_of(self@.cost_of_sales + rhs@.cost_of_sales),
        }
    }
}

impl core::ops::Sub for GrossProfitSegment {
    type Output = GrossProfitSegment;

    fn sub(self, rhs: GrossProfitSegment) -> (r: GrossProfitSegment)
        ensures
            r@.sales_revenue == self@.sales_revenue - rhs@.sales_revenue,
            r@.cost_of_sales == self@.cost_of_sales - rhs@.cost_of_sales,
    {
        GrossProfitSegment {
            sales_revenue: self.sales_revenue - rhs.sales_revenue,
            cost_of_sales: self.cost_of_sales - rhs.cost_of_sales,
        }
    }
}

impl vstd::std_specs::ops::SubSpecImpl for GrossProfitSegment {
    open spec fn obeys_sub_spec() -> bool {
        true
    }

    open spec fn sub_req(self, rhs: GrossProfitSegment) -> bool {
        fits_i64(self@.sales_revenue - rhs@.sales_revenue) && fits_i64(self@.cost_of_sales - rhs@.cost_of_sales)
    }

    closed spec fn sub_spec(self, rhs: GrossProfitSegment) -> GrossProfitSegment {
        GrossProfitSegment {
            sales_revenue: money_of(self@.sales_revenue - rhs@.sales_revenue),
            cost_of_sales: money_of(self@.cost_of_sales - rhs@.cost_of_sales),
        }
    }
}

/// Operating expenses and other income and expenses.
#[derive(Debug, PartialEq, Clone, Copy)]
pub struct OperationalSegment {
    commercial_expenses: Money,
    management_expenses: Money,
    other_income: Money,
    other_expenses: Money,
}

/// The amounts of [`OperationalSegment`], in roubles.
pub struct OperationalSegmentView {
    pub commercial_expenses: int,
    pub management_expenses: int,
    pub other_income: int,
    pub other_expenses: int,
}

impl View for OperationalSegment {
    type V = OperationalSegmentView;

    closed spec fn view(&self) -> OperationalSegmentView {
        OperationalSegmentView { commercial_expenses: self.commercial_expenses@, management_expenses: self.management_expenses@, other_income: self.other_income@, other_expenses: self.other_expenses@ }
    }
}

impl OperationalSegmentView {
    /// Expenses are not positive and other income is not negative.
    pub open spec fn signs_ok(self) -> bool {
        self.commercial_expenses <= 0 && self.management_expenses <= 0 && self.other_income >= 0
            && self.other_expenses <= 0
    }

    /// The net of the segment, summed from the left.
    pub open spec fn operational_expenses(self) -> int {
        self.commercial_expenses + self.management_expenses + self.other_income + self.other_expenses
    }

    pub open spec fn operational_expenses_fit(self) -> bool {
        fits_i64(self.commercial_expenses + self.management_expenses) && fits_i64(
            self.commercial_expenses + self.management_expenses + self.other_income,
        ) && fits_i64(self.operational_expenses())
    }
}

/// The first amount with a wrong sign, in the order in which
/// `OperationalSegment::new` checks them.
pub open spec fn operational_segment_check(
    commercial_expenses: int,
    management_expenses: int,
    other_income: int,
    other_expenses: int,
) -> Option<IncomeKeys> {
    if commercial_expenses > 0 {
        Some(IncomeKeys::CommercialExpenses)
    } else if management_expenses > 0 {
        Some(IncomeKeys::ManagementExpenses)
    } else if other_expenses > 0 {
        Some(IncomeKeys::OtherExpenses)
    } else if other_income < 0 {
        Some(IncomeKeys::OtherIncome)
    } else {
        None
    }
}

impl OperationalSegment {
    /// Builds the segment, refusing positive expenses or a negative income.
    pub fn new(
        commercial_expenses: Money,
        management_expenses: Money,
        other_income: Money,
        other_expenses: Money,
    ) -> (r: Result<OperationalSegment, ModelError>)
        ensures
            match operational_segment_check(
                commercial_expenses@,
                management_expenses@,
                other_income@,
                other_expenses@,
            ) {
                Some(k) => r == Err::<OperationalSegment, ModelError>(ModelError::WrongSign(k)),
                None => r matches Ok(o) && o@ == (OperationalSegmentView {
                    commercial_expenses: commercial_expenses@,
                    management_expenses: management_expenses@,
                    other_income: other_income@,
                    other_expenses: other_expenses@,
                }),
            },
    {
        if commercial_expenses.in_roubles() > 0 {
            return Err(ModelError::WrongSign(IncomeKeys::CommercialExpenses));
        }
        if management_expenses.in_roubles() > 0 {
            return Err(ModelError::WrongSign(IncomeKeys::ManagementExpenses));
        }
        if other_expenses.in_roubles() > 0 {
            return Err(ModelError::WrongSign(IncomeKeys::OtherExpenses));
        }
        if other_income.in_roubles() < 0 {
            return Err(ModelError::WrongSign(IncomeKeys::OtherIncome));
        }
        Ok(OperationalSegment { commercial_expenses, management_expenses, other_income, other_expenses })
    }

    /// The net of the segment.
    pub fn operational_expenses(&self) -> (r: Money)
        requires
            self@.operational_expenses_fit(),
        ensures
            r@ == self@.operational_expenses(),
    {
        self.commercial_expenses + self.management_expenses + self.other_income + self.other_expenses
    }

    /// Commercial expenses (not positive).
    pub fn commercial_expenses(&self) -> (r: Money)
        ensures
            r@ == self@.commercial_expenses,
    {
        self.commercial_expenses
    }

    /// Management expenses (not positive).
    pub fn management_expenses(&self) -> (r: Money)
        ensures
            r@ == self@.management_expenses,
    {
        self.management_expenses
    }

    /// Other income (not negative).
    pub fn other_income(&self) -> (r: Money)
        ensures
            r@ == self@.other_income,
    {
        self.other_income
    }

    /// Other expenses (not positive).
    pub fn other_expenses(&self) -> (r: Money)
        ensures
            r@ == self@.other_expenses,
    {
        self.other_expenses
    }
}

impl core::ops::Add for OperationalSegment {
    type Output = OperationalSegment;

    fn add(self, rhs: OperationalSegment) -> (r: OperationalSegment)
        ensures
            r@.commercial_expenses == self@.commercial_expenses + rhs@.commercial_expenses,
            r@.management_expenses == self@.management_expenses + rhs@.management_expenses,
            r@.other_income == self@.other_income + rhs@.other_income,
            r@.other_expenses == self@.other_expenses + rhs@.other_expenses,
    {
        OperationalSegment {
            commercial_expenses: self.commercial_expenses + rhs.commercial_expenses,
            management_expenses: self.management_expenses + rhs.management_expenses,
            other_income: self.other_income + rhs.other_income,
            other_expenses: self.other_expenses + rhs.other_expenses,
        }
    }
}

impl vstd::std_specs::ops::AddSpecImpl for OperationalSegment {
    open spec fn obeys_add_spec() -> bool {
        true
    }

    open spec fn add_req(self, rhs: OperationalSegment) -> bool {
        fits_i64(self@.commercial_expenses + rhs@.commercial_expenses) && fits_i64(self@.management_expenses + rhs@.management_expenses) && fits_i64(self@.other_income + rhs@.other_income) && fits_i64(self@.other_expenses + rhs@.other_expenses)
    }

    closed spec fn add_spec(self, rhs: OperationalSegment) -> OperationalSegment {
        OperationalSegment {
            commercial_expenses: money_of(self@.commercial_expenses + rhs@.commercial_expenses),
            management_expenses: money_of(self@.management_expenses + rhs@.management_expenses),
            other_income: money_of(self@.other_income + rhs@.other_income),
            other_expenses: money_of(self@.other_expenses + rhs@.other_expenses),
        }
    }
}

impl core::ops::Sub for OperationalSegment {
    type Output = OperationalSegment;

    fn sub(self, rhs: OperationalSegment) -> (r: OperationalSegment)
        ensures
            r@.commercial_expenses == self@.commercial_expenses - rhs@.commercial_expenses,
            r@.management_expenses == self@.management_expenses - rhs@.management_expenses,
            r@.other_income == self@.other_income - rhs@.other_income,
            r@.other_expenses == self@.other_expenses - rhs@.other_expenses,
    {
        OperationalSegment {
            commercial_expenses: self.commercial_expenses - rhs.commercial_expenses,
            management_expenses: self.management_expenses - rhs.management_expenses,
            other_income: self.other_income - rhs.other_income,
            other_expenses: self.other_expenses - rhs.other_expenses,
        }
    }
}

impl vstd::std_specs::ops::SubSpecImpl for OperationalSegment {
    open spec fn obeys_sub_spec() -> bool {
        true
    }

    open spec fn sub_req(self, rhs: OperationalSegment) -> bool {
        fits_i64(self@.commercial_expenses - rhs@.commercial_expenses) && fits_i64(self@.management_expenses - rhs@.management_expenses) && fits_i64(self@.other_income - rhs@.other_income) && fits_i64(self@.other_expenses - rhs@.other_expenses)
    }

    closed spec fn sub_spec(self, rhs: OperationalSegment) -> OperationalSegment {
        OperationalSegment {
            commercial_expenses: money_of(self@.commercial_expenses - rhs@.commercial_expenses),
            management_expenses: money_of(self@.management_expenses - rhs@.management_expenses),
            other_income: money_of(self@.other_income - rhs@.other_income),
            other_expenses: money_of(self@.other_expenses - rhs@.other_expenses),
        }
    }
}

/// Financial income and expenses.
#[derive(Debug, PartialEq, Clone, Copy)]
pub struct FinancialSegment {
    financial_income: Money,
    financial_expenses: Money,
}

/// The amounts of [`FinancialSegment`], in roubles.
pub struct FinancialSegmentView {
    pub financial_income: int,
    pub financial_expenses: int,
}

impl View for FinancialSegment {
    type V = FinancialSegmentView;

    closed spec fn view(&self) -> FinancialSegmentView {
        FinancialSegmentView { financial_income: self.financial_income@, financial_expenses: self.financial_expenses@ }
    }
}

impl FinancialSegmentView {
    /// Income is not negative and expenses are not positive.
    pub open spec fn signs_ok(self) -> bool {
        self.financial_income >= 0 && self.financial_expenses <= 0
    }

    pub open spec fn net_financial_expenses(self) -> int {
        self.financial_income + self.financial_expenses
    }
}

/// The first amount with a wrong sign, in the order in which
/// `FinancialSegment::new` checks them.
pub open spec fn financial_segment_check(financial_income: int, financial_expenses: int) -> Option<IncomeKeys> {
    if financial_expenses > 0 {
        Some(IncomeKeys::FinancialExpenses)
    } else if financial_income < 0 {
        Some(IncomeKeys::FinancialIncome)
    } else {
        None
    }
}

impl FinancialSegment {
    /// Builds the segment, refusing positive expenses or a negative income.
    pub fn new(financial_income: Money, financial_expenses: Money) -> (r: Result<FinancialSegment, ModelError>)
        ensures
            match financial_segment_check(financial_income@, financial_expenses@) {
                Some(k) => r == Err::<FinancialSegment, ModelError>(ModelError::WrongSign(k)),
                None => r matches Ok(f) && f@ == (FinancialSegmentView {
                    financial_income: financial_income@,
                    financial_expenses: financial_expenses@,
                }),
            },
    {
        if financial_expenses.in_roubles() > 0 {
            return Err(ModelError::WrongSign(IncomeKeys::FinancialExpenses));
        }
        if financial_income.in_roubles() < 0 {
            return Err(ModelError::WrongSign(IncomeKeys::FinancialIncome));
        }
        Ok(FinancialSegment { financial_income, financial_expenses })
    }

    /// Income plus the (non-positive) expenses.
    pub fn net_financial_expenses(&self) -> (r: Money)
        requires
            fits_i64(self@.net_financial_expenses()),
        ensures
            r@ == self@.net_financial_expenses(),
    {
        self.financial_income + self.financial_expenses
    }

    /// Financial income (not negative).
    pub fn financial_income(&self) -> (r: Money)
        ensures
            r@ == self@.financial_income,
    {
        self.financial_income
    }

    /// Financial expenses (not positive).
    pub fn financial_expenses(&self) -> (r: Money)
        ensures
            r@ == self@.financial_expenses,
    {
        self.financial_expenses
    }
}

impl core::ops::Add for FinancialSegment {
    type Output = FinancialSegment;

    fn add(self, rhs: FinancialSegment) -> (r: FinancialSegment)
        ensures
            r@.financial_income == self@.financial_income + rhs@.financial_income,
            r@.financial_expenses == self@.financial_expenses + rhs@.financial_expenses,
    {
        FinancialSegment {
            financial_income: self.financial_income + rhs.financial_income,
            financial_expenses: self.financial_expenses + rhs.financial_expenses,
        }
    }
}

impl vstd::std_specs::ops::AddSpecImpl for FinancialSegment {
    open spec fn obeys_add_spec() -> bool {
        true
    }

    open spec fn add_req(self, rhs: FinancialSegment) -> bool {
        fits_i64(self@.financial_income + rhs@.financial_income) && fits_i64(self@.financial_expenses + rhs@.financial_expenses)
    }

    closed spec fn add_spec(self, rhs: FinancialSegment) -> FinancialSegment {
        FinancialSegment {
            financial_income: money_of(self@.financial_income + rhs@.financial_income),
            financial_expenses: money_of(self@.financial_expenses + rhs@.financial_expenses),
        }
    }
}

impl core::ops::Sub for FinancialSegment {
    type Output = FinancialSegment;

    fn sub(self, rhs: FinancialSegment) -> (r: FinancialSegment)
        ensures
            r@.financial_income == self@.financial_income - rhs@.financial_income,
            r@.financial_expenses == self@.financial_expenses - rhs@.financial_expenses,
    {
        FinancialSegment {
            financial_income: self.financial_income - rhs.financial_income,
            financial_expenses: self.financial_expenses - rhs.financial_expenses,
        }
    }
}

impl vstd::std_specs::ops::SubSpecImpl for FinancialSegment {
    open spec fn obeys_sub_spec() -> bool {
        true
    }

    open spec fn sub_req(self, rhs: FinancialSegment) -> bool {
        fits_i64(self@.financial_income - rhs@.financial_income) && fits_i64(self@.financial_expenses - rhs@.financial_expenses)
    }

    closed spec fn sub_spec(self, rhs: FinancialSegment) -> FinancialSegment {
        FinancialSegment {
            financial_income: money_of(self@.financial_income - rhs@.financial_income),
            financial_expenses: money_of(self@.financial_expenses - rhs@.financial_expenses),
        }
    }
}

/// An income report.
#[derive(Debug, PartialEq, Clone, Copy)]
pub struct IncomeReport {
    gross_profit_segment: GrossProfitSegment,
    operational_segment: OperationalSegment,
    financial_segment: FinancialSegment,
    profit_tax: Money,
}

/// The amounts of [`IncomeReport`], in roubles.
pub struct IncomeReportView {
    pub gross_profit_segment: GrossProfitSegmentView,
    pub operational_segment: OperationalSegmentView,
    pub financial_segment: FinancialSegmentView,
    pub profit_tax: int,
}

impl IncomeReportView {
    pub open spec fn gross_profit(self) -> int {
        self.gross_profit_segment.gross_profit()
    }

    pub open spec fn operational_profit(self) -> int {
        self.gross_profit() + self.operational_segment.operational_expenses()
    }

    pub open spec fn profit_before_tax(self) -> int {
        self.operational_profit() + self.financial_segment.net_financial_expenses()
    }

    pub open spec fn net_profit(self) -> int {
        self.profit_before_tax() + self.profit_tax
    }

    pub open spec fn operational_profit_fits(self) -> bool {
        fits_i64(self.gross_profit()) && self.operational_segment.operational_expenses_fit()
            && fits_i64(self.operational_profit())
    }

    pub open spec fn profit_before_tax_fits(self) -> bool {
        self.operational_profit_fits() && fits_i64(self.financial_segment.net_financial_expenses())
            && fits_i64(self.profit_before_tax())
    }

    pub open spec fn net_profit_fits(self) -> bool {
        self.profit_before_tax_fits() && fits_i64(self.net_profit())
    }
}

impl View for IncomeReport {
    type V = IncomeReportView;

    closed spec fn view(&self) -> IncomeReportView {
        IncomeReportView {
            gross_profit_segment: self.gross_profit_segment@,
            operational_segment: self.operational_segment@,
            financial_segment: self.financial_segment@,
            profit_tax: self.profit_tax@,
        }
    }
}

impl IncomeReport {
    pub fn new(
        gross_profit_segment: GrossProfitSegment,
        operational_segment: OperationalSegment,
        financial_segment: FinancialSegment,
        profit_tax: Money,
    ) -> (r: IncomeReport)
        ensures
            r@ == (IncomeReportView {
                gross_profit_segment: gross_profit_segment@,
                operational_segment: operational_segment@,
                financial_segment: financial_segment@,
                profit_tax: profit_tax@,
            }),
    {
        IncomeReport { gross_profit_segment, operational_segment, financial_segment, profit_tax }
    }

    pub fn gross_profit_segment(&self) -> (r: &GrossProfitSegment)
        ensures
            r@ == self@.gross_profit_segment,
    {
        &self.gross_profit_segment
    }

    pub fn operational_segment(&self) -> (r: &OperationalSegment)
        ensures
            r@ == self@.operational_segment,
    {
        &self.operational_segment
    }

    pub fn financial_segment(&self) -> (r: &FinancialSegment)
        ensures
            r@ == self@.financial_segment,
    {
        &self.financial_segment
    }

    pub fn profit_tax(&self) -> (r: Money)
        ensures
            r@ == self@.profit_tax,
    {
        self.profit_tax
    }

    pub fn gross_profit(&self) -> (r: Money)
        requires
            fits_i64(self@.gross_profit()),
        ensures
            r@ == self@.gross_profit(),
    {
        self.gross_profit_segment.gross_profit()
    }

    /// Gross profit plus the net of the operational segment.
    pub fn operational_profit(&self) -> (r: Money)
        requires
            self@.operational_profit_fits(),
        ensures
            r@ == self@.operational_profit(),
    {
        let gross_profit = self.gross_profit();
        gross_profit + self.operational_segment.operational_expenses()
    }

    /// Operational profit plus the net of the financial segment.
    pub fn profit_before_tax(&self) -> (r: Money)
        requires
            self@.profit_before_tax_fits(),
        ensures
            r@ == self@.profit_before_tax(),
    {
        let operational_profit = self.operational_profit();
        operational_profit + self.financial_segment.net_financial_expenses()
    }

    /// Profit before tax plus the (signed) profit tax.
    pub fn net_profit(&self) -> (r: Money)
        requires
            self@.net_profit_fits(),
        ensures
            r@ == self@.net_profit(),
    {
        let profit_before_tax = self.profit_before_tax();
        profit_before_tax + self.profit_tax
    }
}

impl core::ops::Add for IncomeReport {
    type Output = IncomeReport;

    fn add(self, rhs: IncomeReport) -> (r: IncomeReport)
        ensures
            r@ == sum_view(self@, rhs@),
    {
        IncomeReport {
            gross_profit_segment: self.gross_profit_segment + rhs.gross_profit_segment,
            operational_segment: self.operational_segment + rhs.operational_segment,
            financial_segment: self.financial_segment + rhs.financial_segment,
            profit_tax: self.profit_tax + rhs.profit_tax,
        }
    }
}

impl vstd::std_specs::ops::AddSpecImpl for IncomeReport {
    open spec fn obeys_add_spec() -> bool {
        true
    }

    open spec fn add_req(self, rhs: IncomeReport) -> bool {
        components_fit(sum_view(self@, rhs@))
    }

    closed spec fn add_spec(self, rhs: IncomeReport) -> IncomeReport {
        let v = sum_view(self@, rhs@);
        IncomeReport {
            gross_profit_segment: GrossProfitSegment {
                sales_revenue: money_of(v.gross_profit_segment.sales_revenue),
                cost_of_sales: money_of(v.gross_profit_segment.cost_of_sales),
            },
            operational_segment: OperationalSegment {
                commercial_expenses: money_of(v.operational_segment.commercial_expenses),
                management_expenses: money_of(v.operational_segment.management_expenses),
                other_income: money_of(v.operational_segment.other_income),
                other_expenses: money_of(v.operational_segment.other_expenses),
            },
            financial_segment: FinancialSegment {
                financial_income: money_of(v.financial_segment.financial_income),
                financial_expenses: money_of(v.financial_segment.financial_expenses),
            },
            profit_tax: money_of(v.profit_tax),
        }
    }
}

impl core::ops::Sub for IncomeReport {
    type Output = IncomeReport;

    fn sub(self, rhs: IncomeReport) -> (r: IncomeReport)
        ensures
            r@ == difference_view(self@, rhs@),
    {
        IncomeReport {
            gross_profit_segment: self.gross_profit_segment - rhs.gross_profit_segment,
            operational_segment: self.operational_segment - rhs.operational_segment,
            financial_segment: self.financial_segment - rhs.financial_segment,
            profit_tax: self.profit_tax - rhs.profit_tax,
        }
    }
}

impl vstd::std_specs::ops::SubSpecImpl for IncomeReport {
    open spec fn obeys_sub_spec() -> bool {
        true
    }

    open spec fn sub_req(self, rhs: IncomeReport) -> bool {
        components_fit(difference_view(self@, rhs@))
    }

    closed spec fn sub_spec(self, rhs: IncomeReport) -> IncomeReport {
        let v = difference_view(self@, rhs@);
        IncomeReport {
            gross_profit_segment: GrossProfitSegment {
                sales_revenue: money_of(v.gross_profit_segment.sales_revenue),
                cost_of_sales: money_of(v.gross_profit_segment.cost_of_sales),
            },
            operational_segment: OperationalSegment {
                commercial_expenses: money_of(v.operational_segment.commercial_expenses),
                management_expenses: money_of(v.operational_segment.management_expenses),
                other_income: money_of(v.operational_segment.other_income),
                other_expenses: money_of(v.operational_segment.other_expenses),
            },
            financial_segment: FinancialSegment {
                financial_income: money_of(v.financial_segment.financial_income),
                financial_expenses: money_of(v.financial_segment.financial_expenses),
            },
            profit_tax: money_of(v.profit_tax),
        }
    }
}

/// Whether every amount of a report fits in `i64`.
pub open spec fn components_fit(v: IncomeReportView) -> bool {
    &&& fits_i64(v.gross_profit_segment.sales_revenue)
    &&& fits_i64(v.gross_profit_segment.cost_of_sales)
    &&& fits_i64(v.operational_segment.commercial_expenses)
    &&& fits_i64(v.operational_segment.management_expenses)
    &&& fits_i64(v.operational_segment.other_income)
    &&& fits_i64(v.operational_segment.other_expenses)
    &&& fits_i64(v.financial_segment.financial_income)
    &&& fits_i64(v.financial_segment.financial_expenses)
    &&& fits_i64(v.profit_tax)
}

/// The amounts of two reports added one by one.
pub open spec fn sum_view(a: IncomeReportView, b: IncomeReportView) -> IncomeReportView {
    IncomeReportView {
        gross_profit_segment: GrossProfitSegmentView {
            sales_revenue: a.gross_profit_segment.sales_revenue + b.gross_profit_segment.sales_revenue,
            cost_of_sales: a.gross_profit_segment.cost_of_sales + b.gross_profit_segment.cost_of_sales,
        },
        operational_segment: OperationalSegmentView {
            commercial_expenses: a.operational_segment.commercial_expenses
                + b.operational_segment.commercial_expenses,
            management_expenses: a.operational_segment.management_expenses
                + b.operational_segment.management_expenses,
            other_income: a.operational_segment.other_income + b.operational_segment.other_income,
            other_expenses: a.operational_segment.other_expenses + b.operational_segment.other_expenses,
        },
        financial_segment: FinancialSegmentView {
            financial_income: a.financial_segment.financial_income + b.financial_segment.financial_income,
            financial_expenses: a.financial_segment.financial_expenses
                + b.financial_segment.financial_expenses,
        },
        profit_tax: a.profit_tax + b.profit_tax,
    }
}

/// The amounts of two reports subtracted one by one.
pub open spec fn difference_view(a: IncomeReportView, b: IncomeReportView) -> IncomeReportView {
    IncomeReportView {
        gross_profit_segment: GrossProfitSegmentView {
            sales_revenue: a.gross_profit_segment.sales_revenue - b.gross_profit_segment.sales_revenue,
            cost_of_sales: a.gross_profit_segment.cost_of_sales - b.gross_profit_segment.cost_of_sales,
        },
        operational_segment: OperationalSegmentView {
            commercial_expenses: a.operational_segment.commercial_expenses
                - b.operational_segment.commercial_expenses,
            management_expenses: a.operational_segment.management_expenses
                - b.operational_segment.management_expenses,
            other_income: a.operational_segment.other_income - b.operational_segment.other_income,
            other_expenses: a.operational_segment.other_expenses - b.operational_segment.other_expenses,
        },
        financial_segment: FinancialSegmentView {
            financial_income: a.financial_segment.financial_income - b.financial_segment.financial_income,
            financial_expenses: a.financial_segment.financial_expenses
                - b.financial_segment.financial_expenses,
        },
        profit_tax: a.profit_tax - b.profit_tax,
    }
}

/// The net profit of a sum of reports is the sum of their net profits.
pub proof fn lemma_net_profit_additive(a: IncomeReportView, b: IncomeReportView)
    ensures
        sum_view(a, b).net_profit() == a.net_profit() + b.net_profit(),
        difference_view(a, b).net_profit() == a.net_profit() - b.net_profit(),
{
}

/// Sums of segments whose signs are right have right signs too.
pub proof fn lemma_sum_keeps_signs(a: IncomeReportView, b: IncomeReportView)
    requires
        a.gross_profit_segment.signs_ok(),
        a.operational_segment.signs_ok(),
        a.financial_segment.signs_ok(),
        b.gross_profit_segment.signs_ok(),
        b.operational_segment.signs_ok(),
        b.financial_segment.signs_ok(),
    ensures
        sum_view(a, b).gross_profit_segment.signs_ok(),
        sum_view(a, b).operational_segment.signs_ok(),
        sum_view(a, b).financial_segment.signs_ok(),
{
}

/// Subtracting a report undoes adding it: the full year minus the first half
/// added back to the first half gives the full year again, and the other
/// way round.
pub proof fn lemma_difference_undoes_sum(a: IncomeReportView, b: IncomeReportView)
    ensures
        difference_view(sum_view(a, b), b) == a,
        sum_view(difference_view(a, b), b) == a,
{
}

} // verus!
