//! The ways in which report data can be rejected.
use vstd::prelude::*;
use crate::keys::IncomeKeys;
use crate::money::Money;

verus! {

/// Why a report cannot be built from the amounts given.
#[derive(Debug, Clone, Copy, PartialEq, Eq)]
pub enum ModelError {
    /// Assets differ from equity plus liabilities.
    BalanceMismatch { assets: Money, equity: Money, liabilities: Money },
    /// An income report amount has the wrong sign: incomes must not be
    /// negative and expenses must not be positive. The key names the amount.
    WrongSign(IncomeKeys),
}

/// Why a list of classified lines cannot be parsed into a report.
#[derive(Debug, Clone, Copy, PartialEq, Eq)]
pub enum ParseError<Keys> {
    /// No line with this key closes the next section.
    DelimiterNotFound(Keys),
    /// A section holds a line with a key that does not belong there.
    UnexpectedKey(Keys),
    /// The total that the report gives for a section (named by its total
    /// key) differs from the sum of the section's lines.
    TotalMismatch { section: Keys, calculated: Money, provided: Money },
    /// The amounts do not make a valid report.
    Model(ModelError),
    /// A sum leaves the range of whole roubles that `Money` can hold.
    Overflow,
}

} // verus!
