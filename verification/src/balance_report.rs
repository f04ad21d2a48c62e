//! The balance report: assets on one side, equity and liabilities on the other.
use vstd::prelude::*;
use crate::money::{fits_i64, lemma_money_range, Money};
use crate::report_error::ModelError;

verus! {

broadcast use lemma_money_range;


/// Non-current assets.
#[derive(Debug, PartialEq, Clone, Copy)]
pub struct NonCurrentAssets {
    fixed_assets: Money,
    non_material_assets: Money,
    financial_assets: Money,
    other: Money,
}

/// The amounts of [`NonCurrentAssets`], in roubles.
pub struct NonCurrentAssetsView {
    pub fixed_assets: int,
    pub non_material_assets: int,
    pub financial_assets: int,
    pub other: int,
}

impl NonCurrentAssetsView {
    /// The sum of all amounts.
    pub open spec fn total(self) -> int {
        self.fixed_assets + self.non_material_assets + self.financial_assets + self.other
    }

    /// Whether the total and every running sum on the way to it fit in `i64`.
    pub open spec fn total_fits(self) -> bool {
        fits_i64(self.fixed_assets + self.non_material_assets) && fits_i64(self.fixed_assets + self.non_material_assets + self.financial_assets) && fits_i64(self.fixed_assets + self.non_material_assets + self.financial_assets + self.other)
    }
}

impl View for NonCurrentAssets {
    type V = NonCurrentAssetsView;

    closed spec fn view(&self) -> NonCurrentAssetsView {
        NonCurrentAssetsView { fixed_assets: self.fixed_assets@, non_material_assets: self.non_material_assets@, financial_assets: self.financial_assets@, other: self.other@ }
    }
}

impl NonCurrentAssets {
    pub fn new(fixed_assets: Money, non_material_assets: Money, financial_assets: Money, other: Money) -> (r: NonCurrentAssets)
        ensures
            r@.fixed_assets == fixed_assets@,
            r@.non_material_assets == non_material_assets@,
            r@.financial_assets == financial_assets@,
            r@.other == other@,
    {
        NonCurrentAssets { fixed_assets, non_material_assets, financial_assets, other }
    }

    /// Fixed assets.
    pub fn fixed_assets(&self) -> (r: Money)
        ensures
            r@ == self@.fixed_assets,
    {
        self.fixed_assets
    }

    /// Intangible assets.
    pub fn non_material_assets(&self) -> (r: Money)
        ensures
            r@ == self@.non_material_assets,
    {
        self.non_material_assets
    }

    /// Long-term financial investments.
    pub fn financial_assets(&self) -> (r: Money)
        ensures
            r@ == self@.financial_assets,
    {
        self.financial_assets
    }

    /// Other non-current assets.
    pub fn other(&self) -> (r: Money)
        ensures
            r@ == self@.other,
    {
        self.other
    }

    /// The sum of all amounts.
    pub fn total(&self) -> (r: Money)
        requires
            self@.total_fits(),
        ensures
            r@ == self@.total(),
    {
        self.fixed_assets + self.non_material_assets + self.financial_assets + self.other
    }
}

/// Current assets.
#[derive(Debug, PartialEq, Clone, Copy)]
pub struct CurrentAssets {
    physical_inventory: Money,
    accounts_receivable: Money,
    cash: Money,
    financial_assets: Money,
    other: Money,
}

/// The amounts of [`CurrentAssets`], in roubles.
pub struct CurrentAssetsView {
    pub physical_inventory: int,
    pub accounts_receivable: int,
    pub cash: int,
    pub financial_assets: int,
    pub other: int,
}

impl CurrentAssetsView {
    /// The sum of all amounts.
    pub open spec fn total(self) -> int {
        self.physical_inventory + self.accounts_receivable + self.cash + self.financial_assets + self.other
    }

    /// Whether the total and every running sum on the way to it fit in `i64`.
    pub open spec fn total_fits(self) -> bool {
        fits_i64(self.physical_inventory + self.accounts_receivable) && fits_i64(self.physical_inventory + self.accounts_receivable + self.cash) && fits_i64(self.physical_inventory + self.accounts_receivable + self.cash + self.financial_assets) && fits_i64(self.physical_inventory + self.accounts_receivable + self.cash + self.financial_assets + self.other)
    }
}

impl View for CurrentAssets {
    type V = CurrentAssetsView;

    closed spec fn view(&self) -> CurrentAssetsView {
        CurrentAssetsView { physical_inventory: self.physical_inventory@, accounts_receivable: self.accounts_receivable@, cash: self.cash@, financial_assets: self.financial_assets@, other: self.other@ }
    }
}

impl CurrentAssets {
    pub fn new(physical_inventory: Money, accounts_receivable: Money, cash: Money, financial_assets: Money, other: Money) -> (r: CurrentAssets)
        ensures
            r@.physical_inventory == physical_inventory@,
            r@.accounts_receivable == accounts_receivable@,
            r@.cash == cash@,
            r@.financial_assets == financial_assets@,
            r@.other == other@,
    {
        CurrentAssets { physical_inventory, accounts_receivable, cash, financial_assets, other }
    }

    /// Inventory.
    pub fn physical_inventory(&self) -> (r: Money)
        ensures
            r@ == self@.physical_inventory,
    {
        self.physical_inventory
    }

    /// Accounts receivable.
    pub fn accounts_receivable(&self) -> (r: Money)
        ensures
            r@ == self@.accounts_receivable,
    {
        self.accounts_receivable
    }

    /// Cash and cash equivalents.
    pub fn cash(&self) -> (r: Money)
        ensures
            r@ == self@.cash,
    {
        self.cash
    }

    /// Short-term financial investments.
    pub fn financial_assets(&self) -> (r: Money)
        ensures
            r@ == self@.financial_assets,
    {
        self.financial_assets
    }

    /// Other current assets.
    pub fn other(&self) -> (r: Money)
        ensures
            r@ == self@.other,
    {
        self.other
    }

    /// The sum of all amounts.
    pub fn total(&self) -> (r: Money)
        requires
            self@.total_fits(),
        ensures
            r@ == self@.total(),
    {
        self.physical_inventory + self.accounts_receivable + self.cash + self.financial_assets + self.other
    }
}

/// Capital and reserves.
#[derive(Debug, PartialEq, Clone, Copy)]
pub struct Equity {
    authorised_capital: Money,
    capital_surplus: Money,
    retained_earnings: Money,
    other: Money,
}

/// The amounts of [`Equity`], in roubles.
pub struct EquityView {
    pub authorised_capital: int,
    pub capital_surplus: int,
    pub retained_earnings: int,
    pub other: int,
}

impl EquityView {
    /// The sum of all amounts.
    pub open spec fn total(self) -> int {
        self.authorised_capital + self.capital_surplus + self.retained_earnings + self.other
    }

    /// Whether the total and every running sum on the way to it fit in `i64`.
    pub open spec fn total_fits(self) -> bool {
        fits_i64(self.authorised_capital + self.capital_surplus) && fits_i64(self.authorised_capital + self.capital_surplus + self.retained_earnings) && fits_i64(self.authorised_capital + self.capital_surplus + self.retained_earnings + self.other)
    }
}

impl View for Equity {
    type V = EquityView;

    closed spec fn view(&self) -> EquityView {
        EquityView { authorised_capital: self.authorised_capital@, capital_surplus: self.capital_surplus@, retained_earnings: self.retained_earnings@, other: self.other@ }
    }
}

impl Equity {
    pub fn new(authorised_capital: Money, capital_surplus: Money, retained_earnings: Money, other: Money) -> (r: Equity)
        ensures
            r@.authorised_capital == authorised_capital@,
            r@.capital_surplus == capital_surplus@,
            r@.retained_earnings == retained_earnings@,
            r@.other == other@,
    {
        Equity { authorised_capital, capital_surplus, retained_earnings, other }
    }

    /// Authorised capital.
    pub fn authorised_capital(&self) -> (r: Money)
        ensures
            r@ == self@.authorised_capital,
    {
        self.authorised_capital
    }

    /// Capital surplus.
    pub fn capital_surplus(&self) -> (r: Money)
        ensures
            r@ == self@.capital_surplus,
    {
        self.capital_surplus
    }

    /// Retained earnings (uncovered loss).
    pub fn retained_earnings(&self) -> (r: Money)
        ensures
            r@ == self@.retained_earnings,
    {
        self.retained_earnings
    }

    /// Other equity.
    pub fn other(&self) -> (r: Money)
        ensures
            r@ == self@.other,
    {
        self.other
    }

    /// The sum of all amounts.
    pub fn total(&self) -> (r: Money)
        requires
            self@.total_fits(),
        ensures
            r@ == self@.total(),
    {
        self.authorised_capital + self.capital_surplus + self.retained_earnings + self.other
    }
}

/// Long-term liabilities.
#[derive(Debug, PartialEq, Clone, Copy)]
pub struct LongTermLiabilities {
    loans: Money,
    accounts_payable: Money,
    other: Money,
}

/// The amounts of [`LongTermLiabilities`], in roubles.
pub struct LongTermLiabilitiesView {
    pub loans: int,
    pub accounts_payable: int,
    pub other: int,
}

impl LongTermLiabilitiesView {
    /// The sum of all amounts.
    pub open spec fn total(self) -> int {
        self.loans + self.accounts_payable + self.other
    }

    /// Whether the total and every running sum on the way to it fit in `i64`.
    pub open spec fn total_fits(self) -> bool {
        fits_i64(self.loans + self.accounts_payable) && fits_i64(self.loans + self.accounts_payable + self.other)
    }
}

impl View for LongTermLiabilities {
    type V = LongTermLiabilitiesView;

    closed spec fn view(&self) -> LongTermLiabilitiesView {
        LongTermLiabilitiesView { loans: self.loans@, accounts_payable: self.accounts_payable@, other: self.other@ }
    }
}

impl LongTermLiabilities {
    pub fn new(loans: Money, accounts_payable: Money, other: Money) -> (r: LongTermLiabilities)
        ensures
            r@.loans == loans@,
            r@.accounts_payable == accounts_payable@,
            r@.other == other@,
    {
        LongTermLiabilities { loans, accounts_payable, other }
    }

    /// Loans and borrowings.
    pub fn loans(&self) -> (r: Money)
        ensures
            r@ == self@.loans,
    {
        self.loans
    }

    /// Accounts payable.
    pub fn accounts_payable(&self) -> (r: Money)
        ensures
            r@ == self@.accounts_payable,
    {
        self.accounts_payable
    }

    /// Other long-term liabilities.
    pub fn other(&self) -> (r: Money)
        ensures
            r@ == self@.other,
    {
        self.other
    }

    /// The sum of all amounts.
    pub fn total(&self) -> (r: Money)
        requires
            self@.total_fits(),
        ensures
            r@ == self@.total(),
    {
        self.loans + self.accounts_payable + self.other
    }
}

/// Short-term liabilities.
#[derive(Debug, PartialEq, Clone, Copy)]
pub struct CurrentLiabilities {
    loans: Money,
    accounts_payable: Money,
    other: Money,
}

/// The amounts of [`CurrentLiabilities`], in roubles.
pub struct CurrentLiabilitiesView {
    pub loans: int,
    pub accounts_payable: int,
    pub other: int,
}

impl CurrentLiabilitiesView {
    /// The sum of all amounts.
    pub open spec fn total(self) -> int {
        self.loans + self.accounts_payable + self.other
    }

    /// Whether the total and every running sum on the way to it fit in `i64`.
    pub open spec fn total_fits(self) -> bool {
        fits_i64(self.loans + self.accounts_payable) && fits_i64(self.loans + self.accounts_payable + self.other)
    }
}

impl View for CurrentLiabilities {
    type V = CurrentLiabilitiesView;

    closed spec fn view(&self) -> CurrentLiabilitiesView {
        CurrentLiabilitiesView { loans: self.loans@, accounts_payable: self.accounts_payable@, other: self.other@ }
    }
}

impl CurrentLiabilities {
    pub fn new(loans: Money, accounts_payable: Money, other: Money) -> (r: CurrentLiabilities)
        ensures
            r@.loans == loans@,
            r@.accounts_payable == accounts_payable@,
            r@.other == other@,
    {
        CurrentLiabilities { loans, accounts_payable, other }
    }

    /// Loans and borrowings.
    pub fn loans(&self) -> (r: Money)
        ensures
            r@ == self@.loans,
    {
        self.loans
    }

    /// Accounts payable.
    pub fn accounts_payable(&self) -> (r: Money)
        ensures
            r@ == self@.accounts_payable,
    {
        self.accounts_payable
    }

    /// Other short-term liabilities.
    pub fn other(&self) -> (r: Money)
        ensures
            r@ == self@.other,
    {
        self.other
    }

    /// The sum of all amounts.
    pub fn total(&self) -> (r: Money)
        requires
            self@.total_fits(),
        ensures
            r@ == self@.total(),
    {
        self.loans + self.accounts_payable + self.other
    }
}
/// All assets.
#[derive(Debug, PartialEq, Clone, Copy)]
pub struct Assets {
    current: CurrentAssets,
    non_current: NonCurrentAssets,
}

/// The amounts of [`Assets`], in roubles.
pub struct AssetsView {
    pub current: CurrentAssetsView,
    pub non_current: NonCurrentAssetsView,
}

impl AssetsView {
    /// Current plus non-current assets.
    pub open spec fn total(self) -> int {
        self.current.total() + self.non_current.total()
    }

    pub open spec fn total_fits(self) -> bool {
        self.current.total_fits() && self.non_current.total_fits() && fits_i64(self.total())
    }
}

impl View for Assets {
    type V = AssetsView;

    closed spec fn view(&self) -> AssetsView {
        AssetsView { current: self.current@, non_current: self.non_current@ }
    }
}

impl Assets {
    pub fn new(current: CurrentAssets, non_current: NonCurrentAssets) -> (r: Assets)
        ensures
            r@.current == current@,
            r@.non_current == non_current@,
    {
        Assets { current, non_current }
    }

    pub fn current(&self) -> (r: &CurrentAssets)
        ensures
            r@ == self@.current,
    {
        &self.current
    }

    pub fn non_current(&self) -> (r: &NonCurrentAssets)
        ensures
            r@ == self@.non_current,
    {
        &self.non_current
    }

    /// Current plus non-current assets.
    pub fn total(&self) -> (r: Money)
        requires
            self@.total_fits(),
        ensures
            r@ == self@.total(),
    {
        self.current.total() + self.non_current.total()
    }
}

/// All liabilities.
#[derive(Debug, PartialEq, Clone, Copy)]
pub struct Liabilities {
    long_term: LongTermLiabilities,
    current: CurrentLiabilities,
}

/// The amounts of [`Liabilities`], in roubles.
pub struct LiabilitiesView {
    pub long_term: LongTermLiabilitiesView,
    pub current: CurrentLiabilitiesView,
}

impl LiabilitiesView {
    /// Short-term plus long-term liabilities.
    pub open spec fn total(self) -> int {
        self.current.total() + self.long_term.total()
    }

    pub open spec fn total_fits(self) -> bool {
        self.current.total_fits() && self.long_term.total_fits() && fits_i64(self.total())
    }
}

impl View for Liabilities {
    type V = LiabilitiesView;

    closed spec fn view(&self) -> LiabilitiesView {
        LiabilitiesView { long_term: self.long_term@, current: self.current@ }
    }
}

impl Liabilities {
    pub fn new(long_term: LongTermLiabilities, current: CurrentLiabilities) -> (r: Liabilities)
        ensures
            r@.long_term == long_term@,
            r@.current == current@,
    {
        Liabilities { long_term, current }
    }

    pub fn long_term(&self) -> (r: &LongTermLiabilities)
        ensures
            r@ == self@.long_term,
    {
        &self.long_term
    }

    pub fn current(&self) -> (r: &CurrentLiabilities)
        ensures
            r@ == self@.current,
    {
        &self.current
    }

    /// Short-term plus long-term liabilities.
    pub fn total(&self) -> (r: Money)
        requires
            self@.total_fits(),
        ensures
            r@ == self@.total(),
    {
        self.current.total() + self.long_term.total()
    }
}

/// A balance report. Its assets always equal its equity plus its liabilities.
#[derive(Debug, PartialEq, Clone, Copy)]
pub struct BalanceReport {
    assets: Assets,
    equity: Equity,
    liabilities: Liabilities,
}

/// The amounts of [`BalanceReport`], in roubles.
pub struct BalanceReportView {
    pub assets: AssetsView,
    pub equity: EquityView,
    pub liabilities: LiabilitiesView,
}

impl BalanceReportView {
    /// Whether all totals can be computed and the balance equation holds:
    /// assets equal equity plus liabilities.
    pub open spec fn is_balanced(self) -> bool {
        &&& self.assets.total_fits()
        &&& self.equity.total_fits()
        &&& self.liabilities.total_fits()
        &&& self.assets.total() == self.equity.total() + self.liabilities.total()
    }
}

impl View for BalanceReport {
    type V = BalanceReportView;

    closed spec fn view(&self) -> BalanceReportView {
        BalanceReportView {
            assets: self.assets@,
            equity: self.equity@,
            liabilities: self.liabilities@,
        }
    }
}

impl BalanceReport {
    #[verifier::type_invariant]
    spec fn balanced(self) -> bool {
        self@.is_balanced()
    }

    /// Builds a report from its three parts, refusing parts whose totals do
    /// not balance.
    pub fn new(assets: Assets, equity: Equity, liabilities: Liabilities) -> (r: Result<
        BalanceReport,
        ModelError,
    >)
        requires
            assets@.total_fits(),
            equity@.total_fits(),
            liabilities@.total_fits(),
            fits_i64(equity@.total() + liabilities@.total()),
        ensures
            assets@.total() == equity@.total() + liabilities@.total() ==> r is Ok,
            assets@.total() != equity@.total() + liabilities@.total() ==> r is Err,
            r matches Ok(b) ==> b@ == (BalanceReportView {
                assets: assets@,
                equity: equity@,
                liabilities: liabilities@,
            }),
            r matches Err(e) ==> e matches ModelError::BalanceMismatch { assets: a, equity: q, liabilities: l }
                && a@ == assets@.total() && q@ == equity@.total() && l@ == liabilities@.total(),
    {
        let assets_total = assets.total();
        let equity_total = equity.total();
        let liabilities_total = liabilities.total();
        if assets_total.in_roubles() != (equity_total + liabilities_total).in_roubles() {
            return Err(
                ModelError::BalanceMismatch {
                    assets: assets_total,
                    equity: equity_total,
                    liabilities: liabilities_total,
                },
            );
        }
        Ok(BalanceReport { assets, equity, liabilities })
    }

    pub fn assets(&self) -> (r: &Assets)
        ensures
            r@ == self@.assets,
            self@.is_balanced(),
    {
        proof {
            use_type_invariant(self);
        }
        &self.assets
    }

    pub fn equity(&self) -> (r: &Equity)
        ensures
            r@ == self@.equity,
            self@.is_balanced(),
    {
        proof {
            use_type_invariant(self);
        }
        &self.equity
    }

    pub fn liabilities(&self) -> (r: &Liabilities)
        ensures
            r@ == self@.liabilities,
            self@.is_balanced(),
    {
        proof {
            use_type_invariant(self);
        }
        &self.liabilities
    }
}

} // verus!
