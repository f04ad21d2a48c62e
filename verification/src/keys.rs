//! The keys that classify report lines, and the classified line itself.
use vstd::prelude::*;
use crate::money::Money;

verus! {

broadcast use vstd::string::group_string_axioms;

/// Whether two strings hold the same characters.
pub fn str_eq(a: &str, b: &str) -> (r: bool)
    ensures
        r == (a@ == b@),
{
    a.to_owned() == b.to_owned()
}

/// What the line parser and the report parser need of a set of line keys.
pub trait GenericKeys: Sized + Copy {
    /// The key of a line whose title is not recognised.
    fn default_key() -> Self;

    /// Whether two keys are the same key.
    fn same_key(&self, other: &Self) -> (r: bool)
        ensures
            r == (*self == *other);

    /// The name of the key, as it is stored.
    fn key_name(&self) -> &'static str;

    /// The key with the given name, if any.
    fn key_from_name(s: &str) -> Option<Self>;

    /// All keys, in declaration order.
    fn variants() -> Vec<Self>;
}

/// Whether `k` is what `K::default_key` returns.
pub open spec fn is_default_key<K: GenericKeys>(k: K) -> bool {
    call_ensures(K::default_key, (), k)
}

/// A line of a report after classification: its key, its amount for the
/// current period, and the line as it was recognised.
#[derive(Debug, Clone)]
pub struct ParsedLineInfo<Keys: GenericKeys> {
    pub key: Keys,
    pub value: Money,
    pub original_line: String,
}

/// The lines of a balance report.
#[derive(Debug, Clone, Copy, PartialEq, Eq, Structural, Hash)]
pub enum BalanceKeys {
    /// Fixed assets (основные средства).
    FixedAssets,
    /// Intangible assets (нематериальные активы).
    NonMaterialAssets,
    /// Financial investments (финансовые вложения).
    FinancialAssets,
    /// Total of non-current assets.
    TotalNonCurrentAssets,
    /// Total of current assets.
    TotalCurrentAssets,
    /// Inventory (запасы).
    PhysicalInventory,
    /// Accounts receivable (дебиторская задолженность).
    AccountsReceivable,
    /// Cash and cash equivalents.
    Cash,
    /// Authorised capital (уставный капитал).
    AuthorisedCapital,
    /// Capital surplus (добавочный капитал).
    CapitalSurplus,
    /// Retained earnings or uncovered loss.
    RetainedEarnings,
    /// Total of capital and reserves.
    TotalEquity,
    /// Loans and borrowings.
    Loans,
    /// Accounts payable (кредиторская задолженность).
    AccountsPayable,
    /// Total of long-term liabilities.
    TotalLongTermLiabilities,
    /// Total of short-term liabilities.
    TotalCurrentLiabilities,
    /// Anything else; the key of an unrecognised line.
    Other,
}

/// The name of each variant, as reports and the database store it.
pub open spec fn balance_keys_name(k: BalanceKeys) -> Seq<char> {
    match k {
        BalanceKeys::FixedAssets => "FixedAssets"@,
        BalanceKeys::NonMaterialAssets => "NonMaterialAssets"@,
        BalanceKeys::FinancialAssets => "FinancialAssets"@,
        BalanceKeys::TotalNonCurrentAssets => "TotalNonCurrentAssets"@,
        BalanceKeys::TotalCurrentAssets => "TotalCurrentAssets"@,
        BalanceKeys::PhysicalInventory => "PhysicalInventory"@,
        BalanceKeys::AccountsReceivable => "AccountsReceivable"@,
        BalanceKeys::Cash => "Cash"@,
        BalanceKeys::AuthorisedCapital => "AuthorisedCapital"@,
        BalanceKeys::CapitalSurplus => "CapitalSurplus"@,
        BalanceKeys::RetainedEarnings => "RetainedEarnings"@,
        BalanceKeys::TotalEquity => "TotalEquity"@,
        BalanceKeys::Loans => "Loans"@,
        BalanceKeys::AccountsPayable => "AccountsPayable"@,
        BalanceKeys::TotalLongTermLiabilities => "TotalLongTermLiabilities"@,
        BalanceKeys::TotalCurrentLiabilities => "TotalCurrentLiabilities"@,
        BalanceKeys::Other => "Other"@,
    }
}

/// The variant whose name is `s`, if any.
pub open spec fn balance_keys_of_name(s: Seq<char>) -> Option<BalanceKeys> {
    if s == "FixedAssets"@ {
        Some(BalanceKeys::FixedAssets)
    } else if s == "NonMaterialAssets"@ {
        Some(BalanceKeys::NonMaterialAssets)
    } else if s == "FinancialAssets"@ {
        Some(BalanceKeys::FinancialAssets)
    } else if s == "TotalNonCurrentAssets"@ {
        Some(BalanceKeys::TotalNonCurrentAssets)
    } else if s == "TotalCurrentAssets"@ {
        Some(BalanceKeys::TotalCurrentAssets)
    } else if s == "PhysicalInventory"@ {
        Some(BalanceKeys::PhysicalInventory)
    } else if s == "AccountsReceivable"@ {
        Some(BalanceKeys::AccountsReceivable)
    } else if s == "Cash"@ {
        Some(BalanceKeys::Cash)
    } else if s == "AuthorisedCapital"@ {
        Some(BalanceKeys::AuthorisedCapital)
    } else if s == "CapitalSurplus"@ {
        Some(BalanceKeys::CapitalSurplus)
    } else if s == "RetainedEarnings"@ {
        Some(BalanceKeys::RetainedEarnings)
    } else if s == "TotalEquity"@ {
        Some(BalanceKeys::TotalEquity)
    } else if s == "Loans"@ {
        Some(BalanceKeys::Loans)
    } else if s == "AccountsPayable"@ {
        Some(BalanceKeys::AccountsPayable)
    } else if s == "TotalLongTermLiabilities"@ {
        Some(BalanceKeys::TotalLongTermLiabilities)
    } else if s == "TotalCurrentLiabilities"@ {
        Some(BalanceKeys::TotalCurrentLiabilities)
    } else if s == "Other"@ {
        Some(BalanceKeys::Other)
    } else {
        None
    }
}

/// Every variant reads back from its name.
pub proof fn lemma_balance_keys_name_roundtrip(k: BalanceKeys)
    ensures
        balance_keys_of_name(balance_keys_name(k)) == Some(k),
{
    match k {
        BalanceKeys::FixedAssets => {
            reveal_strlit("FixedAssets");
        },
        BalanceKeys::NonMaterialAssets => {
            reveal_strlit("NonMaterialAssets");
            reveal_strlit("FixedAssets");
            assert("NonMaterialAssets"@ != "FixedAssets"@) by { assert("NonMaterialAssets"@.len() != "FixedAssets"@.len()); }
        },
        BalanceKeys::FinancialAssets => {
            reveal_strlit("FinancialAssets");
            reveal_strlit("FixedAssets");
            assert("FinancialAssets"@ != "FixedAssets"@) by { assert("FinancialAssets"@.len() != "FixedAssets"@.len()); }
            reveal_strlit("NonMaterialAssets");
            assert("FinancialAssets"@ != "NonMaterialAssets"@) by { assert("FinancialAssets"@.len() != "NonMaterialAssets"@.len()); }
        },
        BalanceKeys::TotalNonCurrentAssets => {
            reveal_strlit("TotalNonCurrentAssets");
            reveal_strlit("FixedAssets");
            assert("TotalNonCurrentAssets"@ != "FixedAssets"@) by { assert("TotalNonCurrentAssets"@.len() != "FixedAssets"@.len()); }
            reveal_strlit("NonMaterialAssets");
            assert("TotalNonCurrentAssets"@ != "NonMaterialAssets"@) by { assert("TotalNonCurrentAssets"@.len() != "NonMaterialAssets"@.len()); }
            reveal_strlit("FinancialAssets");
            assert("TotalNonCurrentAssets"@ != "FinancialAssets"@) by { assert("TotalNonCurrentAssets"@.len() != "FinancialAssets"@.len()); }
        },
        BalanceKeys::TotalCurrentAssets => {
            reveal_strlit("TotalCurrentAssets");
            reveal_strlit("FixedAssets");
            assert("TotalCurrentAssets"@ != "FixedAssets"@) by { assert("TotalCurrentAssets"@.len() != "FixedAssets"@.len()); }
            reveal_strlit("NonMaterialAssets");
            assert("TotalCurrentAssets"@ != "NonMaterialAssets"@) by { assert("TotalCurrentAssets"@.len() != "NonMaterialAssets"@.len()); }
            reveal_strlit("FinancialAssets");
            assert("TotalCurrentAssets"@ != "FinancialAssets"@) by { assert("TotalCurrentAssets"@.len() != "FinancialAssets"@.len()); }
            reveal_strlit("TotalNonCurrentAssets");
            assert("TotalCurrentAssets"@ != "TotalNonCurrentAssets"@) by { assert("TotalCurrentAssets"@.len() != "TotalNonCurrentAssets"@.len()); }
        },
        BalanceKeys::PhysicalInventory => {
            reveal_strlit("PhysicalInventory");
            reveal_strlit("FixedAssets");
            assert("PhysicalInventory"@ != "FixedAssets"@) by { assert("PhysicalInventory"@.len() != "FixedAssets"@.len()); }
            reveal_strlit("NonMaterialAssets");
            assert("PhysicalInventory"@ != "NonMaterialAssets"@) by { assert("PhysicalInventory"@[0] != "NonMaterialAssets"@[0]); }
            reveal_strlit("FinancialAssets");
            assert("PhysicalInventory"@ != "FinancialAssets"@) by { assert("PhysicalInventory"@.len() != "FinancialAssets"@.len()); }
            reveal_strlit("TotalNonCurrentAssets");
            assert("PhysicalInventory"@ != "TotalNonCurrentAssets"@) by { assert("PhysicalInventory"@.len() != "TotalNonCurrentAssets"@.len()); }
            reveal_strlit("TotalCurrentAssets");
            assert("PhysicalInventory"@ != "TotalCurrentAssets"@) by { assert("PhysicalInventory"@.len() != "TotalCurrentAssets"@.len()); }
        },
        BalanceKeys::AccountsReceivable => {
            reveal_strlit("AccountsReceivable");
            reveal_strlit("FixedAssets");
            assert("AccountsReceivable"@ != "FixedAssets"@) by { assert("AccountsReceivable"@.len() != "FixedAssets"@.len()); }
            reveal_strlit("NonMaterialAssets");
            assert("AccountsReceivable"@ != "NonMaterialAssets"@) by { assert("AccountsReceivable"@.len() != "NonMaterialAssets"@.len()); }
            reveal_strlit("FinancialAssets");
            assert("AccountsReceivable"@ != "FinancialAssets"@) by { assert("AccountsReceivable"@.len() != "FinancialAssets"@.len()); }
            reveal_strlit("TotalNonCurrentAssets");
            assert("AccountsReceivable"@ != "TotalNonCurrentAssets"@) by { assert("AccountsReceivable"@.len() != "TotalNonCurrentAssets"@.len()); }
            reveal_strlit("TotalCurrentAssets");
            assert("AccountsReceivable"@ != "TotalCurrentAssets"@) by { assert("AccountsReceivable"@[0] != "TotalCurrentAssets"@[0]); }
            reveal_strlit("PhysicalInventory");
            assert("AccountsReceivable"@ != "PhysicalInventory"@) by { assert("AccountsReceivable"@.len() != "PhysicalInventory"@.len()); }
        },
        BalanceKeys::Cash => {
            reveal_strlit("Cash");
            reveal_strlit("FixedAssets");
            assert("Cash"@ != "FixedAssets"@) by { assert("Cash"@.len() != "FixedAssets"@.len()); }
            reveal_strlit("NonMaterialAssets");
            assert("Cash"@ != "NonMaterialAssets"@) by { assert("Cash"@.len() != "NonMaterialAssets"@.len()); }
            reveal_strlit("FinancialAssets");
            assert("Cash"@ != "FinancialAssets"@) by { assert("Cash"@.len() != "FinancialAssets"@.len()); }
            reveal_strlit("TotalNonCurrentAssets");
            assert("Cash"@ != "TotalNonCurrentAssets"@) by { assert("Cash"@.len() != "TotalNonCurrentAssets"@.len()); }
            reveal_strlit("TotalCurrentAssets");
            assert("Cash"@ != "TotalCurrentAssets"@) by { assert("Cash"@.len() != "TotalCurrentAssets"@.len()); }
            reveal_strlit("PhysicalInventory");
            assert("Cash"@ != "PhysicalInventory"@) by { assert("Cash"@.len() != "PhysicalInventory"@.len()); }
            reveal_strlit("AccountsReceivable");
            assert("Cash"@ != "AccountsReceivable"@) by { assert("Cash"@.len() != "AccountsReceivable"@.len()); }
        },
        BalanceKeys::AuthorisedCapital => {
            reveal_strlit("AuthorisedCapital");
            reveal_strlit("FixedAssets");
            assert("AuthorisedCapital"@ != "FixedAssets"@) by { assert("AuthorisedCapital"@.len() != "FixedAssets"@.len()); }
            reveal_strlit("NonMaterialAssets");
            assert("AuthorisedCapital"@ != "NonMaterialAssets"@) by { assert("AuthorisedCapital"@[0] != "NonMaterialAssets"@[0]); }
            reveal_strlit("FinancialAssets");
            assert("AuthorisedCapital"@ != "FinancialAssets"@) by { assert("AuthorisedCapital"@.len() != "FinancialAssets"@.len()); }
            reveal_strlit("TotalNonCurrentAssets");
            assert("AuthorisedCapital"@ != "TotalNonCurrentAssets"@) by { assert("AuthorisedCapital"@.len() != "TotalNonCurrentAssets"@.len()); }
            reveal_strlit("TotalCurrentAssets");
            assert("AuthorisedCapital"@ != "TotalCurrentAssets"@) by { assert("AuthorisedCapital"@.len() != "TotalCurrentAssets"@.len()); }
            reveal_strlit("PhysicalInventory");
            assert("AuthorisedCapital"@ != "PhysicalInventory"@) by { assert("AuthorisedCapital"@[0] != "PhysicalInventory"@[0]); }
            reveal_strlit("AccountsReceivable");
            assert("AuthorisedCapital"@ != "AccountsReceivable"@) by { assert("AuthorisedCapital"@.len() != "AccountsReceivable"@.len()); }
            reveal_strlit("Cash");
            assert("AuthorisedCapital"@ != "Cash"@) by { assert("AuthorisedCapital"@.len() != "Cash"@.len()); }
        },
        BalanceKeys::CapitalSurplus => {
            reveal_strlit("CapitalSurplus");
            reveal_strlit("FixedAssets");
            assert("CapitalSurplus"@ != "FixedAssets"@) by { assert("CapitalSurplus"@.len() != "FixedAssets"@.len()); }
            reveal_strlit("NonMaterialAssets");
            assert("CapitalSurplus"@ != "NonMaterialAssets"@) by { assert("CapitalSurplus"@.len() != "NonMaterialAssets"@.len()); }
            reveal_strlit("FinancialAssets");
            assert("CapitalSurplus"@ != "FinancialAssets"@) by { assert("CapitalSurplus"@.len() != "FinancialAssets"@.len()); }
            reveal_strlit("TotalNonCurrentAssets");
            assert("CapitalSurplus"@ != "TotalNonCurrentAssets"@) by { assert("CapitalSurplus"@.len() != "TotalNonCurrentAssets"@.len()); }
            reveal_strlit("TotalCurrentAssets");
            assert("CapitalSurplus"@ != "TotalCurrentAssets"@) by { assert("CapitalSurplus"@.len() != "TotalCurrentAssets"@.len()); }
            reveal_strlit("PhysicalInventory");
            assert("CapitalSurplus"@ != "PhysicalInventory"@) by { assert("CapitalSurplus"@.len() != "PhysicalInventory"@.len()); }
            reveal_strlit("AccountsReceivable");
            assert("CapitalSurplus"@ != "AccountsReceivable"@) by { assert("CapitalSurplus"@.len() != "AccountsReceivable"@.len()); }
            reveal_strlit("Cash");
            assert("CapitalSurplus"@ != "Cash"@) by { assert("CapitalSurplus"@.len() != "Cash"@.len()); }
            reveal_strlit("AuthorisedCapital");
            assert("CapitalSurplus"@ != "AuthorisedCapital"@) by { assert("CapitalSurplus"@.len() != "AuthorisedCapital"@.len()); }
        },
        BalanceKeys::RetainedEarnings => {
            reveal_strlit("RetainedEarnings");
            reveal_strlit("FixedAssets");
            assert("RetainedEarnings"@ != "FixedAssets"@) by { assert("RetainedEarnings"@.len() != "FixedAssets"@.len()); }
            reveal_strlit("NonMaterialAssets");
            assert("RetainedEarnings"@ != "NonMaterialAssets"@) by { assert("RetainedEarnings"@.len() != "NonMaterialAssets"@.len()); }
            reveal_strlit("FinancialAssets");
            assert("RetainedEarnings"@ != "FinancialAssets"@) by { assert("RetainedEarnings"@.len() != "FinancialAssets"@.len()); }
            reveal_strlit("TotalNonCurrentAssets");
            assert("RetainedEarnings"@ != "TotalNonCurrentAssets"@) by { assert("RetainedEarnings"@.len() != "TotalNonCurrentAssets"@.len()); }
            reveal_strlit("TotalCurrentAssets");
            assert("RetainedEarnings"@ != "TotalCurrentAssets"@) by { assert("RetainedEarnings"@.len() != "TotalCurrentAssets"@.len()); }
            reveal_strlit("PhysicalInventory");
            assert("RetainedEarnings"@ != "PhysicalInventory"@) by { assert("RetainedEarnings"@.len() != "PhysicalInventory"@.len()); }
            reveal_strlit("AccountsReceivable");
            assert("RetainedEarnings"@ != "AccountsReceivable"@) by { assert("RetainedEarnings"@.len() != "AccountsReceivable"@.len()); }
            reveal_strlit("Cash");
            assert("RetainedEarnings"@ != "Cash"@) by { assert("RetainedEarnings"@.len() != "Cash"@.len()); }
            reveal_strlit("AuthorisedCapital");
            assert("RetainedEarnings"@ != "AuthorisedCapital"@) by { assert("RetainedEarnings"@.len() != "AuthorisedCapital"@.len()); }
            reveal_strlit("CapitalSurplus");
            assert("RetainedEarnings"@ != "CapitalSurplus"@) by { assert("RetainedEarnings"@.len() != "CapitalSurplus"@.len()); }
        },
        BalanceKeys::TotalEquity => {
            reveal_strlit("TotalEquity");
            reveal_strlit("FixedAssets");
            assert("TotalEquity"@ != "FixedAssets"@) by { assert("TotalEquity"@[0] != "FixedAssets"@[0]); }
            reveal_strlit("NonMaterialAssets");
            assert("TotalEquity"@ != "NonMaterialAssets"@) by { assert("TotalEquity"@.len() != "NonMaterialAssets"@.len()); }
            reveal_strlit("FinancialAssets");
            assert("TotalEquity"@ != "FinancialAssets"@) by { assert("TotalEquity"@.len() != "FinancialAssets"@.len()); }
            reveal_strlit("TotalNonCurrentAssets");
            assert("TotalEquity"@ != "TotalNonCurrentAssets"@) by { assert("TotalEquity"@.len() != "TotalNonCurrentAssets"@.len()); }
            reveal_strlit("TotalCurrentAssets");
            assert("TotalEquity"@ != "TotalCurrentAssets"@) by { assert("TotalEquity"@.len() != "TotalCurrentAssets"@.len()); }
            reveal_strlit("PhysicalInventory");
            assert("TotalEquity"@ != "PhysicalInventory"@) by { assert("TotalEquity"@.len() != "PhysicalInventory"@.len()); }
            reveal_strlit("AccountsReceivable");
            assert("TotalEquity"@ != "AccountsReceivable"@) by { assert("TotalEquity"@.len() != "AccountsReceivable"@.len()); }
            reveal_strlit("Cash");
            assert("TotalEquity"@ != "Cash"@) by { assert("TotalEquity"@.len() != "Cash"@.len()); }
            reveal_strlit("AuthorisedCapital");
            assert("TotalEquity"@ != "AuthorisedCapital"@) by { assert("TotalEquity"@.len() != "AuthorisedCapital"@.len()); }
            reveal_strlit("CapitalSurplus");
            assert("TotalEquity"@ != "CapitalSurplus"@) by { assert("TotalEquity"@.len() != "CapitalSurplus"@.len()); }
            reveal_strlit("RetainedEarnings");
            assert("TotalEquity"@ != "RetainedEarnings"@) by { assert("TotalEquity"@.len() != "RetainedEarnings"@.len()); }
        },
        BalanceKeys::Loans => {
            reveal_strlit("Loans");
            reveal_strlit("FixedAssets");
            assert("Loans"@ != "FixedAssets"@) by { assert("Loans"@.len() != "FixedAssets"@.len()); }
            reveal_strlit("NonMaterialAssets");
            assert("Loans"@ != "NonMaterialAssets"@) by { assert("Loans"@.len() != "NonMaterialAssets"@.len()); }
            reveal_strlit("FinancialAssets");
            assert("Loans"@ != "FinancialAssets"@) by { assert("Loans"@.len() != "FinancialAssets"@.len()); }
            reveal_strlit("TotalNonCurrentAssets");
            assert("Loans"@ != "TotalNonCurrentAssets"@) by { assert("Loans"@.len() != "TotalNonCurrentAssets"@.len()); }
            reveal_strlit("TotalCurrentAssets");
            assert("Loans"@ != "TotalCurrentAssets"@) by { assert("Loans"@.len() != "TotalCurrentAssets"@.len()); }
            reveal_strlit("PhysicalInventory");
            assert("Loans"@ != "PhysicalInventory"@) by { assert("Loans"@.len() != "PhysicalInventory"@.len()); }
            reveal_strlit("AccountsReceivable");
            assert("Loans"@ != "AccountsReceivable"@) by { assert("Loans"@.len() != "AccountsReceivable"@.len()); }
            reveal_strlit("Cash");
            assert("Loans"@ != "Cash"@) by { assert("Loans"@.len() != "Cash"@.len()); }
            reveal_strlit("AuthorisedCapital");
            assert("Loans"@ != "AuthorisedCapital"@) by { assert("Loans"@.len() != "AuthorisedCapital"@.len()); }
            reveal_strlit("CapitalSurplus");
            assert("Loans"@ != "CapitalSurplus"@) by { assert("Loans"@.len() != "CapitalSurplus"@.len()); }
            reveal_strlit("RetainedEarnings");
            assert("Loans"@ != "RetainedEarnings"@) by { assert("Loans"@.len() != "RetainedEarnings"@.len()); }
            reveal_strlit("TotalEquity");
            assert("Loans"@ != "TotalEquity"@) by { assert("Loans"@.len() != "TotalEquity"@.len()); }
        },
        BalanceKeys::AccountsPayable => {
            reveal_strlit("AccountsPayable");
            reveal_strlit("FixedAssets");
            assert("AccountsPayable"@ != "FixedAssets"@) by { assert("AccountsPayable"@.len() != "FixedAssets"@.len()); }
            reveal_strlit("NonMaterialAssets");
            assert("AccountsPayable"@ != "NonMaterialAssets"@) by { assert("AccountsPayable"@.len() != "NonMaterialAssets"@.len()); }
            reveal_strlit("FinancialAssets");
            assert("AccountsPayable"@ != "FinancialAssets"@) by { assert("AccountsPayable"@[0] != "FinancialAssets"@[0]); }
            reveal_strlit("TotalNonCurrentAssets");
            assert("AccountsPayable"@ != "TotalNonCurrentAssets"@) by { assert("AccountsPayable"@.len() != "TotalNonCurrentAssets"@.len()); }
            reveal_strlit("TotalCurrentAssets");
            assert("AccountsPayable"@ != "TotalCurrentAssets"@) by { assert("AccountsPayable"@.len() != "TotalCurrentAssets"@.len()); }
            reveal_strlit("PhysicalInventory");
            assert("AccountsPayable"@ != "PhysicalInventory"@) by { assert("AccountsPayable"@.len() != "PhysicalInventory"@.len()); }
            reveal_strlit("AccountsReceivable");
            assert("AccountsPayable"@ != "AccountsReceivable"@) by { assert("AccountsPayable"@.len() != "AccountsReceivable"@.len()); }
            reveal_strlit("Cash");
            assert("AccountsPayable"@ != "Cash"@) by { assert("AccountsPayable"@.len() != "Cash"@.len()); }
            reveal_strlit("AuthorisedCapital");
            assert("AccountsPayable"@ != "AuthorisedCapital"@) by { assert("AccountsPayable"@.len() != "AuthorisedCapital"@.len()); }
            reveal_strlit("CapitalSurplus");
            assert("AccountsPayable"@ != "CapitalSurplus"@) by { assert("AccountsPayable"@.len() != "CapitalSurplus"@.len()); }
            reveal_strlit("RetainedEarnings");
            assert("AccountsPayable"@ != "RetainedEarnings"@) by { assert("AccountsPayable"@.len() != "RetainedEarnings"@.len()); }
            reveal_strlit("TotalEquity");
            assert("AccountsPayable"@ != "TotalEquity"@) by { assert("AccountsPayable"@.len() != "TotalEquity"@.len()); }
            reveal_strlit("Loans");
            assert("AccountsPayable"@ != "Loans"@) by { assert("AccountsPayable"@.len() != "Loans"@.len()); }
        },
        BalanceKeys::TotalLongTermLiabilities => {
            reveal_strlit("TotalLongTermLiabilities");
            reveal_strlit("FixedAssets");
            assert("TotalLongTermLiabilities"@ != "FixedAssets"@) by { assert("TotalLongTermLiabilities"@.len() != "FixedAssets"@.len()); }
            reveal_strlit("NonMaterialAssets");
            assert("TotalLongTermLiabilities"@ != "NonMaterialAssets"@) by { assert("TotalLongTermLiabilities"@.len() != "NonMaterialAssets"@.len()); }
            reveal_strlit("FinancialAssets");
            assert("TotalLongTermLiabilities"@ != "FinancialAssets"@) by { assert("TotalLongTermLiabilities"@.len() != "FinancialAssets"@.len()); }
            reveal_strlit("TotalNonCurrentAssets");
            assert("TotalLongTermLiabilities"@ != "TotalNonCurrentAssets"@) by { assert("TotalLongTermLiabilities"@.len() != "TotalNonCurrentAssets"@.len()); }
            reveal_strlit("TotalCurrentAssets");
            assert("TotalLongTermLiabilities"@ != "TotalCurrentAssets"@) by { assert("TotalLongTermLiabilities"@.len() != "TotalCurrentAssets"@.len()); }
            reveal_strlit("PhysicalInventory");
            assert("TotalLongTermLiabilities"@ != "PhysicalInventory"@) by { assert("TotalLongTermLiabilities"@.len() != "PhysicalInventory"@.len()); }
            reveal_strlit("AccountsReceivable");
            assert("TotalLongTermLiabilities"@ != "AccountsReceivable"@) by { assert("TotalLongTermLiabilities"@.len() != "AccountsReceivable"@.len()); }
            reveal_strlit("Cash");
            assert("TotalLongTermLiabilities"@ != "Cash"@) by { assert("TotalLongTermLiabilities"@.len() != "Cash"@.len()); }
            reveal_strlit("AuthorisedCapital");
            assert("TotalLongTermLiabilities"@ != "AuthorisedCapital"@) by { assert("TotalLongTermLiabilities"@.len() != "AuthorisedCapital"@.len()); }
            reveal_strlit("CapitalSurplus");
            assert("TotalLongTermLiabilities"@ != "CapitalSurplus"@) by { assert("TotalLongTermLiabilities"@.len() != "CapitalSurplus"@.len()); }
            reveal_strlit("RetainedEarnings");
            assert("TotalLongTermLiabilities"@ != "RetainedEarnings"@) by { assert("TotalLongTermLiabilities"@.len() != "RetainedEarnings"@.len()); }
            reveal_strlit("TotalEquity");
            assert("TotalLongTermLiabilities"@ != "TotalEquity"@) by { assert("TotalLongTermLiabilities"@.len() != "TotalEquity"@.len()); }
            reveal_strlit("Loans");
            assert("TotalLongTermLiabilities"@ != "Loans"@) by { assert("TotalLongTermLiabilities"@.len() != "Loans"@.len()); }
            reveal_strlit("AccountsPayable");
            assert("TotalLongTermLiabilities"@ != "AccountsPayable"@) by { assert("TotalLongTermLiabilities"@.len() != "AccountsPayable"@.len()); }
        },
        BalanceKeys::TotalCurrentLiabilities => {
            reveal_strlit("TotalCurrentLiabilities");
            reveal_strlit("FixedAssets");
            assert("TotalCurrentLiabilities"@ != "FixedAssets"@) by { assert("TotalCurrentLiabilities"@.len() != "FixedAssets"@.len()); }
            reveal_strlit("NonMaterialAssets");
            assert("TotalCurrentLiabilities"@ != "NonMaterialAssets"@) by { assert("TotalCurrentLiabilities"@.len() != "NonMaterialAssets"@.len()); }
            reveal_strlit("FinancialAssets");
            assert("TotalCurrentLiabilities"@ != "FinancialAssets"@) by { assert("TotalCurrentLiabilities"@.len() != "FinancialAssets"@.len()); }
            reveal_strlit("TotalNonCurrentAssets");
            assert("TotalCurrentLiabilities"@ != "TotalNonCurrentAssets"@) by { assert("TotalCurrentLiabilities"@.len() != "TotalNonCurrentAssets"@.len()); }
            reveal_strlit("TotalCurrentAssets");
            assert("TotalCurrentLiabilities"@ != "TotalCurrentAssets"@) by { assert("TotalCurrentLiabilities"@.len() != "TotalCurrentAssets"@.len()); }
            reveal_strlit("PhysicalInventory");
            assert("TotalCurrentLiabilities"@ != "PhysicalInventory"@) by { assert("TotalCurrentLiabilities"@.len() != "PhysicalInventory"@.len()); }
            reveal_strlit("AccountsReceivable");
            assert("TotalCurrentLiabilities"@ != "AccountsReceivable"@) by { assert("TotalCurrentLiabilities"@.len() != "AccountsReceivable"@.len()); }
            reveal_strlit("Cash");
            assert("TotalCurrentLiabilities"@ != "Cash"@) by { assert("TotalCurrentLiabilities"@.len() != "Cash"@.len()); }
            reveal_strlit("AuthorisedCapital");
            assert("TotalCurrentLiabilities"@ != "AuthorisedCapital"@) by { assert("TotalCurrentLiabilities"@.len() != "AuthorisedCapital"@.len()); }
            reveal_strlit("CapitalSurplus");
            assert("TotalCurrentLiabilities"@ != "CapitalSurplus"@) by { assert("TotalCurrentLiabilities"@.len() != "CapitalSurplus"@.len()); }
            reveal_strlit("RetainedEarnings");
            assert("TotalCurrentLiabilities"@ != "RetainedEarnings"@) by { assert("TotalCurrentLiabilities"@.len() != "RetainedEarnings"@.len()); }
            reveal_strlit("TotalEquity");
            assert("TotalCurrentLiabilities"@ != "TotalEquity"@) by { assert("TotalCurrentLiabilities"@.len() != "TotalEquity"@.len()); }
            reveal_strlit("Loans");
            assert("TotalCurrentLiabilities"@ != "Loans"@) by { assert("TotalCurrentLiabilities"@.len() != "Loans"@.len()); }
            reveal_strlit("AccountsPayable");
            assert("TotalCurrentLiabilities"@ != "AccountsPayable"@) by { assert("TotalCurrentLiabilities"@.len() != "AccountsPayable"@.len()); }
            reveal_strlit("TotalLongTermLiabilities");
            assert("TotalCurrentLiabilities"@ != "TotalLongTermLiabilities"@) by { assert("TotalCurrentLiabilities"@.len() != "TotalLongTermLiabilities"@.len()); }
        },
        BalanceKeys::Other => {
            reveal_strlit("Other");
            reveal_strlit("FixedAssets");
            assert("Other"@ != "FixedAssets"@) by { assert("Other"@.len() != "FixedAssets"@.len()); }
            reveal_strlit("NonMaterialAssets");
            assert("Other"@ != "NonMaterialAssets"@) by { assert("Other"@.len() != "NonMaterialAssets"@.len()); }
            reveal_strlit("FinancialAssets");
            assert("Other"@ != "FinancialAssets"@) by { assert("Other"@.len() != "FinancialAssets"@.len()); }
            reveal_strlit("TotalNonCurrentAssets");
            assert("Other"@ != "TotalNonCurrentAssets"@) by { assert("Other"@.len() != "TotalNonCurrentAssets"@.len()); }
            reveal_strlit("TotalCurrentAssets");
            assert("Other"@ != "TotalCurrentAssets"@) by { assert("Other"@.len() != "TotalCurrentAssets"@.len()); }
            reveal_strlit("PhysicalInventory");
            assert("Other"@ != "PhysicalInventory"@) by { assert("Other"@.len() != "PhysicalInventory"@.len()); }
            reveal_strlit("AccountsReceivable");
            assert("Other"@ != "AccountsReceivable"@) by { assert("Other"@.len() != "AccountsReceivable"@.len()); }
            reveal_strlit("Cash");
            assert("Other"@ != "Cash"@) by { assert("Other"@.len() != "Cash"@.len()); }
            reveal_strlit("AuthorisedCapital");
            assert("Other"@ != "AuthorisedCapital"@) by { assert("Other"@.len() != "AuthorisedCapital"@.len()); }
            reveal_strlit("CapitalSurplus");
            assert("Other"@ != "CapitalSurplus"@) by { assert("Other"@.len() != "CapitalSurplus"@.len()); }
            reveal_strlit("RetainedEarnings");
            assert("Other"@ != "RetainedEarnings"@) by { assert("Other"@.len() != "RetainedEarnings"@.len()); }
            reveal_strlit("TotalEquity");
            assert("Other"@ != "TotalEquity"@) by { assert("Other"@.len() != "TotalEquity"@.len()); }
            reveal_strlit("Loans");
            assert("Other"@ != "Loans"@) by { assert("Other"@[0] != "Loans"@[0]); }
            reveal_strlit("AccountsPayable");
            assert("Other"@ != "AccountsPayable"@) by { assert("Other"@.len() != "AccountsPayable"@.len()); }
            reveal_strlit("TotalLongTermLiabilities");
            assert("Other"@ != "TotalLongTermLiabilities"@) by { assert("Other"@.len() != "TotalLongTermLiabilities"@.len()); }
            reveal_strlit("TotalCurrentLiabilities");
            assert("Other"@ != "TotalCurrentLiabilities"@) by { assert("Other"@.len() != "TotalCurrentLiabilities"@.len()); }
        },
    }
}

impl BalanceKeys {
    /// The name of the variant.
    pub fn name(&self) -> (r: &'static str)
        ensures
            r@ == balance_keys_name(*self),
    {
        match self {
            BalanceKeys::FixedAssets => "FixedAssets",
            BalanceKeys::NonMaterialAssets => "NonMaterialAssets",
            BalanceKeys::FinancialAssets => "FinancialAssets",
            BalanceKeys::TotalNonCurrentAssets => "TotalNonCurrentAssets",
            BalanceKeys::TotalCurrentAssets => "TotalCurrentAssets",
            BalanceKeys::PhysicalInventory => "PhysicalInventory",
            BalanceKeys::AccountsReceivable => "AccountsReceivable",
            BalanceKeys::Cash => "Cash",
            BalanceKeys::AuthorisedCapital => "AuthorisedCapital",
            BalanceKeys::CapitalSurplus => "CapitalSurplus",
            BalanceKeys::RetainedEarnings => "RetainedEarnings",
            BalanceKeys::TotalEquity => "TotalEquity",
            BalanceKeys::Loans => "Loans",
            BalanceKeys::AccountsPayable => "AccountsPayable",
            BalanceKeys::TotalLongTermLiabilities => "TotalLongTermLiabilities",
            BalanceKeys::TotalCurrentLiabilities => "TotalCurrentLiabilities",
            BalanceKeys::Other => "Other",
        }
    }

    /// The variant whose name is `s`, matched exactly.
    pub fn from_name(s: &str) -> (r: Option<BalanceKeys>)
        ensures
            r == balance_keys_of_name(s@),
    {
        if str_eq(s, "FixedAssets") {
            Some(BalanceKeys::FixedAssets)
        } else if str_eq(s, "NonMaterialAssets") {
            Some(BalanceKeys::NonMaterialAssets)
        } else if str_eq(s, "FinancialAssets") {
            Some(BalanceKeys::FinancialAssets)
        } else if str_eq(s, "TotalNonCurrentAssets") {
            Some(BalanceKeys::TotalNonCurrentAssets)
        } else if str_eq(s, "TotalCurrentAssets") {
            Some(BalanceKeys::TotalCurrentAssets)
        } else if str_eq(s, "PhysicalInventory") {
            Some(BalanceKeys::PhysicalInventory)
        } else if str_eq(s, "AccountsReceivable") {
            Some(BalanceKeys::AccountsReceivable)
        } else if str_eq(s, "Cash") {
            Some(BalanceKeys::Cash)
        } else if str_eq(s, "AuthorisedCapital") {
            Some(BalanceKeys::AuthorisedCapital)
        } else if str_eq(s, "CapitalSurplus") {
            Some(BalanceKeys::CapitalSurplus)
        } else if str_eq(s, "RetainedEarnings") {
            Some(BalanceKeys::RetainedEarnings)
        } else if str_eq(s, "TotalEquity") {
            Some(BalanceKeys::TotalEquity)
        } else if str_eq(s, "Loans") {
            Some(BalanceKeys::Loans)
        } else if str_eq(s, "AccountsPayable") {
            Some(BalanceKeys::AccountsPayable)
        } else if str_eq(s, "TotalLongTermLiabilities") {
            Some(BalanceKeys::TotalLongTermLiabilities)
        } else if str_eq(s, "TotalCurrentLiabilities") {
            Some(BalanceKeys::TotalCurrentLiabilities)
        } else if str_eq(s, "Other") {
            Some(BalanceKeys::Other)
        } else {
            None
        }
    }

    /// All variants, in declaration order.
    pub fn all() -> (r: Vec<BalanceKeys>)
        ensures
            r@ == seq![BalanceKeys::FixedAssets, BalanceKeys::NonMaterialAssets, BalanceKeys::FinancialAssets, BalanceKeys::TotalNonCurrentAssets, BalanceKeys::TotalCurrentAssets, BalanceKeys::PhysicalInventory, BalanceKeys::AccountsReceivable, BalanceKeys::Cash, BalanceKeys::AuthorisedCapital, BalanceKeys::CapitalSurplus, BalanceKeys::RetainedEarnings, BalanceKeys::TotalEquity, BalanceKeys::Loans, BalanceKeys::AccountsPayable, BalanceKeys::TotalLongTermLiabilities, BalanceKeys::TotalCurrentLiabilities, BalanceKeys::Other],
    {
        vec![BalanceKeys::FixedAssets, BalanceKeys::NonMaterialAssets, BalanceKeys::FinancialAssets, BalanceKeys::TotalNonCurrentAssets, BalanceKeys::TotalCurrentAssets, BalanceKeys::PhysicalInventory, BalanceKeys::AccountsReceivable, BalanceKeys::Cash, BalanceKeys::AuthorisedCapital, BalanceKeys::CapitalSurplus, BalanceKeys::RetainedEarnings, BalanceKeys::TotalEquity, BalanceKeys::Loans, BalanceKeys::AccountsPayable, BalanceKeys::TotalLongTermLiabilities, BalanceKeys::TotalCurrentLiabilities, BalanceKeys::Other]
    }
}

impl GenericKeys for BalanceKeys {
    fn default_key() -> (r: Self)
        ensures
            r == BalanceKeys::Other,
    {
        BalanceKeys::Other
    }

    fn same_key(&self, other: &Self) -> (r: bool) {
        *self == *other
    }

    fn key_name(&self) -> (r: &'static str)
        ensures
            r@ == balance_keys_name(*self),
    {
        self.name()
    }

    fn key_from_name(s: &str) -> (r: Option<Self>)
        ensures
            r == balance_keys_of_name(s@),
    {
        BalanceKeys::from_name(s)
    }

    fn variants() -> (r: Vec<Self>)
        ensures
            r@ == seq![BalanceKeys::FixedAssets, BalanceKeys::NonMaterialAssets, BalanceKeys::FinancialAssets, BalanceKeys::TotalNonCurrentAssets, BalanceKeys::TotalCurrentAssets, BalanceKeys::PhysicalInventory, BalanceKeys::AccountsReceivable, BalanceKeys::Cash, BalanceKeys::AuthorisedCapital, BalanceKeys::CapitalSurplus, BalanceKeys::RetainedEarnings, BalanceKeys::TotalEquity, BalanceKeys::Loans, BalanceKeys::AccountsPayable, BalanceKeys::TotalLongTermLiabilities, BalanceKeys::TotalCurrentLiabilities, BalanceKeys::Other],
    {
        BalanceKeys::all()
    }
}

/// The lines of an income report.
#[derive(Debug, Clone, Copy, PartialEq, Eq, Structural, Hash)]
pub enum IncomeKeys {
    /// Sales revenue (выручка).
    SalesRevenue,
    /// Cost of sales (себестоимость продаж).
    CostOfSales,
    /// Gross profit.
    GrossProfit,
    /// Commercial expenses.
    CommercialExpenses,
    /// Management expenses.
    ManagementExpenses,
    /// Operating profit.
    OperationalProfit,
    /// Financial income.
    FinancialIncome,
    /// Financial expenses.
    FinancialExpenses,
    /// Other income; the key of an unrecognised line.
    OtherIncome,
    /// Other expenses.
    OtherExpenses,
    /// Profit before tax.
    ProfitBeforeTax,
    /// Profit tax.
    ProfitTax,
    /// Net profit.
    NetProfit,
}

/// The name of each variant, as reports and the database store it.
pub open spec fn income_keys_name(k: IncomeKeys) -> Seq<char> {
    match k {
        IncomeKeys::SalesRevenue => "SalesRevenue"@,
        IncomeKeys::CostOfSales => "CostOfSales"@,
        IncomeKeys::GrossProfit => "GrossProfit"@,
        IncomeKeys::CommercialExpenses => "CommercialExpenses"@,
        IncomeKeys::ManagementExpenses => "ManagementExpenses"@,
        IncomeKeys::OperationalProfit => "OperationalProfit"@,
        IncomeKeys::FinancialIncome => "FinancialIncome"@,
        IncomeKeys::FinancialExpenses => "FinancialExpenses"@,
        IncomeKeys::OtherIncome => "OtherIncome"@,
        IncomeKeys::OtherExpenses => "OtherExpenses"@,
        IncomeKeys::ProfitBeforeTax => "ProfitBeforeTax"@,
        IncomeKeys::ProfitTax => "ProfitTax"@,
        IncomeKeys::NetProfit => "NetProfit"@,
    }
}

/// The variant whose name is `s`, if any.
pub open spec fn income_keys_of_name(s: Seq<char>) -> Option<IncomeKeys> {
    if s == "SalesRevenue"@ {
        Some(IncomeKeys::SalesRevenue)
    } else if s == "CostOfSales"@ {
        Some(IncomeKeys::CostOfSales)
    } else if s == "GrossProfit"@ {
        Some(IncomeKeys::GrossProfit)
    } else if s == "CommercialExpenses"@ {
        Some(IncomeKeys::CommercialExpenses)
    } else if s == "ManagementExpenses"@ {
        Some(IncomeKeys::ManagementExpenses)
    } else if s == "OperationalProfit"@ {
        Some(IncomeKeys::OperationalProfit)
    } else if s == "FinancialIncome"@ {
        Some(IncomeKeys::FinancialIncome)
    } else if s == "FinancialExpenses"@ {
        Some(IncomeKeys::FinancialExpenses)
    } else if s == "OtherIncome"@ {
        Some(IncomeKeys::OtherIncome)
    } else if s == "OtherExpenses"@ {
        Some(IncomeKeys::OtherExpenses)
    } else if s == "ProfitBeforeTax"@ {
        Some(IncomeKeys::ProfitBeforeTax)
    } else if s == "ProfitTax"@ {
        Some(IncomeKeys::ProfitTax)
    } else if s == "NetProfit"@ {
        Some(IncomeKeys::NetProfit)
    } else {
        None
    }
}

/// Every variant reads back from its name.
pub proof fn lemma_income_keys_name_roundtrip(k: IncomeKeys)
    ensures
        income_keys_of_name(income_keys_name(k)) == Some(k),
{
    match k {
        IncomeKeys::SalesRevenue => {
            reveal_strlit("SalesRevenue");
        },
        IncomeKeys::CostOfSales => {
            reveal_strlit("CostOfSales");
            reveal_strlit("SalesRevenue");
            assert("CostOfSales"@ != "SalesRevenue"@) by { assert("CostOfSales"@.len() != "SalesRevenue"@.len()); }
        },
        IncomeKeys::GrossProfit => {
            reveal_strlit("GrossProfit");
            reveal_strlit("SalesRevenue");
            assert("GrossProfit"@ != "SalesRevenue"@) by { assert("GrossProfit"@.len() != "SalesRevenue"@.len()); }
            reveal_strlit("CostOfSales");
            assert("GrossProfit"@ != "CostOfSales"@) by { assert("GrossProfit"@[0] != "CostOfSales"@[0]); }
        },
        IncomeKeys::CommercialExpenses => {
            reveal_strlit("CommercialExpenses");
            reveal_strlit("SalesRevenue");
            assert("CommercialExpenses"@ != "SalesRevenue"@) by { assert("CommercialExpenses"@.len() != "SalesRevenue"@.len()); }
            reveal_strlit("CostOfSales");
            assert("CommercialExpenses"@ != "CostOfSales"@) by { assert("CommercialExpenses"@.len() != "CostOfSales"@.len()); }
            reveal_strlit("GrossProfit");
            assert("CommercialExpenses"@ != "GrossProfit"@) by { assert("CommercialExpenses"@.len() != "GrossProfit"@.len()); }
        },
        IncomeKeys::ManagementExpenses => {
            reveal_strlit("ManagementExpenses");
            reveal_strlit("SalesRevenue");
            assert("ManagementExpenses"@ != "SalesRevenue"@) by { assert("ManagementExpenses"@.len() != "SalesRevenue"@.len()); }
            reveal_strlit("CostOfSales");
            assert("ManagementExpenses"@ != "CostOfSales"@) by { assert("ManagementExpenses"@.len() != "CostOfSales"@.len()); }
            reveal_strlit("GrossProfit");
            assert("ManagementExpenses"@ != "GrossProfit"@) by { assert("ManagementExpenses"@.len() != "GrossProfit"@.len()); }
            reveal_strlit("CommercialExpenses");
            assert("ManagementExpenses"@ != "CommercialExpenses"@) by { assert("ManagementExpenses"@[0] != "CommercialExpenses"@[0]); }
        },
        IncomeKeys::OperationalProfit => {
            reveal_strlit("OperationalProfit");
            reveal_strlit("SalesRevenue");
            assert("OperationalProfit"@ != "SalesRevenue"@) by { assert("OperationalProfit"@.len() != "SalesRevenue"@.len()); }
            reveal_strlit("CostOfSales");
            assert("OperationalProfit"@ != "CostOfSales"@) by { assert("OperationalProfit"@.len() != "CostOfSales"@.len()); }
            reveal_strlit("GrossProfit");
            assert("OperationalProfit"@ != "GrossProfit"@) by { assert("OperationalProfit"@.len() != "GrossProfit"@.len()); }
            reveal_strlit("CommercialExpenses");
            assert("OperationalProfit"@ != "CommercialExpenses"@) by { assert("OperationalProfit"@.len() != "CommercialExpenses"@.len()); }
            reveal_strlit("ManagementExpenses");
            assert("OperationalProfit"@ != "ManagementExpenses"@) by { assert("OperationalProfit"@.len() != "ManagementExpenses"@.len()); }
        },
        IncomeKeys::FinancialIncome => {
            reveal_strlit("FinancialIncome");
            reveal_strlit("SalesRevenue");
            assert("FinancialIncome"@ != "SalesRevenue"@) by { assert("FinancialIncome"@.len() != "SalesRevenue"@.len()); }
            reveal_strlit("CostOfSales");
            assert("FinancialIncome"@ != "CostOfSales"@) by { assert("FinancialIncome"@.len() != "CostOfSales"@.len()); }
            reveal_strlit("GrossProfit");
            assert("FinancialIncome"@ != "GrossProfit"@) by { assert("FinancialIncome"@.len() != "GrossProfit"@.len()); }
            reveal_strlit("CommercialExpenses");
            assert("FinancialIncome"@ != "CommercialExpenses"@) by { assert("FinancialIncome"@.len() != "CommercialExpenses"@.len()); }
            reveal_strlit("ManagementExpenses");
            assert("FinancialIncome"@ != "ManagementExpenses"@) by { assert("FinancialIncome"@.len() != "ManagementExpenses"@.len()); }
            reveal_strlit("OperationalProfit");
            assert("FinancialIncome"@ != "OperationalProfit"@) by { assert("FinancialIncome"@.len() != "OperationalProfit"@.len()); }
        },
        IncomeKeys::FinancialExpenses => {
            reveal_strlit("FinancialExpenses");
            reveal_strlit("SalesRevenue");
            assert("FinancialExpenses"@ != "SalesRevenue"@) by { assert("FinancialExpenses"@.len() != "SalesRevenue"@.len()); }
            reveal_strlit("CostOfSales");
            assert("FinancialExpenses"@ != "CostOfSales"@) by { assert("FinancialExpenses"@.len() != "CostOfSales"@.len()); }
            reveal_strlit("GrossProfit");
            assert("FinancialExpenses"@ != "GrossProfit"@) by { assert("FinancialExpenses"@.len() != "GrossProfit"@.len()); }
            reveal_strlit("CommercialExpenses");
            assert("FinancialExpenses"@ != "CommercialExpenses"@) by { assert("FinancialExpenses"@.len() != "CommercialExpenses"@.len()); }
            reveal_strlit("ManagementExpenses");
            assert("FinancialExpenses"@ != "ManagementExpenses"@) by { assert("FinancialExpenses"@.len() != "ManagementExpenses"@.len()); }
            reveal_strlit("OperationalProfit");
            assert("FinancialExpenses"@ != "OperationalProfit"@) by { assert("FinancialExpenses"@[0] != "OperationalProfit"@[0]); }
            reveal_strlit("FinancialIncome");
            assert("FinancialExpenses"@ != "FinancialIncome"@) by { assert("FinancialExpenses"@.len() != "FinancialIncome"@.len()); }
        },
        IncomeKeys::OtherIncome => {
            reveal_strlit("OtherIncome");
            reveal_strlit("SalesRevenue");
            assert("OtherIncome"@ != "SalesRevenue"@) by { assert("OtherIncome"@.len() != "SalesRevenue"@.len()); }
            reveal_strlit("CostOfSales");
            assert("OtherIncome"@ != "CostOfSales"@) by { assert("OtherIncome"@[0] != "CostOfSales"@[0]); }
            reveal_strlit("GrossProfit");
            assert("OtherIncome"@ != "GrossProfit"@) by { assert("OtherIncome"@[0] != "GrossProfit"@[0]); }
            reveal_strlit("CommercialExpenses");
            assert("OtherIncome"@ != "CommercialExpenses"@) by { assert("OtherIncome"@.len() != "CommercialExpenses"@.len()); }
            reveal_strlit("ManagementExpenses");
            assert("OtherIncome"@ != "ManagementExpenses"@) by { assert("OtherIncome"@.len() != "ManagementExpenses"@.len()); }
            reveal_strlit("OperationalProfit");
            assert("OtherIncome"@ != "OperationalProfit"@) by { assert("OtherIncome"@.len() != "OperationalProfit"@.len()); }
            reveal_strlit("FinancialIncome");
            assert("OtherIncome"@ != "FinancialIncome"@) by { assert("OtherIncome"@.len() != "FinancialIncome"@.len()); }
            reveal_strlit("FinancialExpenses");
            assert("OtherIncome"@ != "FinancialExpenses"@) by { assert("OtherIncome"@.len() != "FinancialExpenses"@.len()); }
        },
        IncomeKeys::OtherExpenses => {
            reveal_strlit("OtherExpenses");
            reveal_strlit("SalesRevenue");
            assert("OtherExpenses"@ != "SalesRevenue"@) by { assert("OtherExpenses"@.len() != "SalesRevenue"@.len()); }
            reveal_strlit("CostOfSales");
            assert("OtherExpenses"@ != "CostOfSales"@) by { assert("OtherExpenses"@.len() != "CostOfSales"@.len()); }
            reveal_strlit("GrossProfit");
            assert("OtherExpenses"@ != "GrossProfit"@) by { assert("OtherExpenses"@.len() != "GrossProfit"@.len()); }
            reveal_strlit("CommercialExpenses");
            assert("OtherExpenses"@ != "CommercialExpenses"@) by { assert("OtherExpenses"@.len() != "CommercialExpenses"@.len()); }
            reveal_strlit("ManagementExpenses");
            assert("OtherExpenses"@ != "ManagementExpenses"@) by { assert("OtherExpenses"@.len() != "ManagementExpenses"@.len()); }
            reveal_strlit("OperationalProfit");
            assert("OtherExpenses"@ != "OperationalProfit"@) by { assert("OtherExpenses"@.len() != "OperationalProfit"@.len()); }
            reveal_strlit("FinancialIncome");
            assert("OtherExpenses"@ != "FinancialIncome"@) by { assert("OtherExpenses"@.len() != "FinancialIncome"@.len()); }
            reveal_strlit("FinancialExpenses");
            assert("OtherExpenses"@ != "FinancialExpenses"@) by { assert("OtherExpenses"@.len() != "FinancialExpenses"@.len()); }
            reveal_strlit("OtherIncome");
            assert("OtherExpenses"@ != "OtherIncome"@) by { assert("OtherExpenses"@.len() != "OtherIncome"@.len()); }
        },
        IncomeKeys::ProfitBeforeTax => {
            reveal_strlit("ProfitBeforeTax");
            reveal_strlit("SalesRevenue");
            assert("ProfitBeforeTax"@ != "SalesRevenue"@) by { assert("ProfitBeforeTax"@.len() != "SalesRevenue"@.len()); }
            reveal_strlit("CostOfSales");
            assert("ProfitBeforeTax"@ != "CostOfSales"@) by { assert("ProfitBeforeTax"@.len() != "CostOfSales"@.len()); }
            reveal_strlit("GrossProfit");
            assert("ProfitBeforeTax"@ != "GrossProfit"@) by { assert("ProfitBeforeTax"@.len() != "GrossProfit"@.len()); }
            reveal_strlit("CommercialExpenses");
            assert("ProfitBeforeTax"@ != "CommercialExpenses"@) by { assert("ProfitBeforeTax"@.len() != "CommercialExpenses"@.len()); }
            reveal_strlit("ManagementExpenses");
            assert("ProfitBeforeTax"@ != "ManagementExpenses"@) by { assert("ProfitBeforeTax"@.len() != "ManagementExpenses"@.len()); }
            reveal_strlit("OperationalProfit");
            assert("ProfitBeforeTax"@ != "OperationalProfit"@) by { assert("ProfitBeforeTax"@.len() != "OperationalProfit"@.len()); }
            reveal_strlit("FinancialIncome");
            assert("ProfitBeforeTax"@ != "FinancialIncome"@) by { assert("ProfitBeforeTax"@[0] != "FinancialIncome"@[0]); }
            reveal_strlit("FinancialExpenses");
            assert("ProfitBeforeTax"@ != "FinancialExpenses"@) by { assert("ProfitBeforeTax"@.len() != "FinancialExpenses"@.len()); }
            reveal_strlit("OtherIncome");
            assert("ProfitBeforeTax"@ != "OtherIncome"@) by { assert("ProfitBeforeTax"@.len() != "OtherIncome"@.len()); }
            reveal_strlit("OtherExpenses");
            assert("ProfitBeforeTax"@ != "OtherExpenses"@) by { assert("ProfitBeforeTax"@.len() != "OtherExpenses"@.len()); }
        },
        IncomeKeys::ProfitTax => {
            reveal_strlit("ProfitTax");
            reveal_strlit("SalesRevenue");
            assert("ProfitTax"@ != "SalesRevenue"@) by { assert("ProfitTax"@.len() != "SalesRevenue"@.len()); }
            reveal_strlit("CostOfSales");
            assert("ProfitTax"@ != "CostOfSales"@) by { assert("ProfitTax"@.len() != "CostOfSales"@.len()); }
            reveal_strlit("GrossProfit");
            assert("ProfitTax"@ != "GrossProfit"@) by { assert("ProfitTax"@.len() != "GrossProfit"@.len()); }
            reveal_strlit("CommercialExpenses");
            assert("ProfitTax"@ != "CommercialExpenses"@) by { assert("ProfitTax"@.len() != "CommercialExpenses"@.len()); }
            reveal_strlit("ManagementExpenses");
            assert("ProfitTax"@ != "ManagementExpenses"@) by { assert("ProfitTax"@.len() != "ManagementExpenses"@.len()); }
            reveal_strlit("OperationalProfit");
            assert("ProfitTax"@ != "OperationalProfit"@) by { assert("ProfitTax"@.len() != "OperationalProfit"@.len()); }
            reveal_strlit("FinancialIncome");
            assert("ProfitTax"@ != "FinancialIncome"@) by { assert("ProfitTax"@.len() != "FinancialIncome"@.len()); }
            reveal_strlit("FinancialExpenses");
            assert("ProfitTax"@ != "FinancialExpenses"@) by { assert("ProfitTax"@.len() != "FinancialExpenses"@.len()); }
            reveal_strlit("OtherIncome");
            assert("ProfitTax"@ != "OtherIncome"@) by { assert("ProfitTax"@.len() != "OtherIncome"@.len()); }
            reveal_strlit("OtherExpenses");
            assert("ProfitTax"@ != "OtherExpenses"@) by { assert("ProfitTax"@.len() != "OtherExpenses"@.len()); }
            reveal_strlit("ProfitBeforeTax");
            assert("ProfitTax"@ != "ProfitBeforeTax"@) by { assert("ProfitTax"@.len() != "ProfitBeforeTax"@.len()); }
        },
        IncomeKeys::NetProfit => {
            reveal_strlit("NetProfit");
            reveal_strlit("SalesRevenue");
            assert("NetProfit"@ != "SalesRevenue"@) by { assert("NetProfit"@.len() != "SalesRevenue"@.len()); }
            reveal_strlit("CostOfSales");
            assert("NetProfit"@ != "CostOfSales"@) by { assert("NetProfit"@.len() != "CostOfSales"@.len()); }
            reveal_strlit("GrossProfit");
            assert("NetProfit"@ != "GrossProfit"@) by { assert("NetProfit"@.len() != "GrossProfit"@.len()); }
            reveal_strlit("CommercialExpenses");
            assert("NetProfit"@ != "CommercialExpenses"@) by { assert("NetProfit"@.len() != "CommercialExpenses"@.len()); }
            reveal_strlit("ManagementExpenses");
            assert("NetProfit"@ != "ManagementExpenses"@) by { assert("NetProfit"@.len() != "ManagementExpenses"@.len()); }
            reveal_strlit("OperationalProfit");
            assert("NetProfit"@ != "OperationalProfit"@) by { assert("NetProfit"@.len() != "OperationalProfit"@.len()); }
            reveal_strlit("FinancialIncome");
            assert("NetProfit"@ != "FinancialIncome"@) by { assert("NetProfit"@.len() != "FinancialIncome"@.len()); }
            reveal_strlit("FinancialExpenses");
            assert("NetProfit"@ != "FinancialExpenses"@) by { assert("NetProfit"@.len() != "FinancialExpenses"@.len()); }
            reveal_strlit("OtherIncome");
            assert("NetProfit"@ != "OtherIncome"@) by { assert("NetProfit"@.len() != "OtherIncome"@.len()); }
            reveal_strlit("OtherExpenses");
            assert("NetProfit"@ != "OtherExpenses"@) by { assert("NetProfit"@.len() != "OtherExpenses"@.len()); }
            reveal_strlit("ProfitBeforeTax");
            assert("NetProfit"@ != "ProfitBeforeTax"@) by { assert("NetProfit"@.len() != "ProfitBeforeTax"@.len()); }
            reveal_strlit("ProfitTax");
            assert("NetProfit"@ != "ProfitTax"@) by { assert("NetProfit"@[0] != "ProfitTax"@[0]); }
        },
    }
}

impl IncomeKeys {
    /// The name of the variant.
    pub fn name(&self) -> (r: &'static str)
        ensures
            r@ == income_keys_name(*self),
    {
        match self {
            IncomeKeys::SalesRevenue => "SalesRevenue",
            IncomeKeys::CostOfSales => "CostOfSales",
            IncomeKeys::GrossProfit => "GrossProfit",
            IncomeKeys::CommercialExpenses => "CommercialExpenses",
            IncomeKeys::ManagementExpenses => "ManagementExpenses",
            IncomeKeys::OperationalProfit => "OperationalProfit",
            IncomeKeys::FinancialIncome => "FinancialIncome",
            IncomeKeys::FinancialExpenses => "FinancialExpenses",
            IncomeKeys::OtherIncome => "OtherIncome",
            IncomeKeys::OtherExpenses => "OtherExpenses",
            IncomeKeys::ProfitBeforeTax => "ProfitBeforeTax",
            IncomeKeys::ProfitTax => "ProfitTax",
            IncomeKeys::NetProfit => "NetProfit",
        }
    }

    /// The variant whose name is `s`, matched exactly.
    pub fn from_name(s: &str) -> (r: Option<IncomeKeys>)
        ensures
            r == income_keys_of_name(s@),
    {
        if str_eq(s, "SalesRevenue") {
            Some(IncomeKeys::SalesRevenue)
        } else if str_eq(s, "CostOfSales") {
            Some(IncomeKeys::CostOfSales)
        } else if str_eq(s, "GrossProfit") {
            Some(IncomeKeys::GrossProfit)
        } else if str_eq(s, "CommercialExpenses") {
            Some(IncomeKeys::CommercialExpenses)
        } else if str_eq(s, "ManagementExpenses") {
            Some(IncomeKeys::ManagementExpenses)
        } else if str_eq(s, "OperationalProfit") {
            Some(IncomeKeys::OperationalProfit)
        } else if str_eq(s, "FinancialIncome") {
            Some(IncomeKeys::FinancialIncome)
        } else if str_eq(s, "FinancialExpenses") {
            Some(IncomeKeys::FinancialExpenses)
        } else if str_eq(s, "OtherIncome") {
            Some(IncomeKeys::OtherIncome)
        } else if str_eq(s, "OtherExpenses") {
            Some(IncomeKeys::OtherExpenses)
        } else if str_eq(s, "ProfitBeforeTax") {
            Some(IncomeKeys::ProfitBeforeTax)
        } else if str_eq(s, "ProfitTax") {
            Some(IncomeKeys::ProfitTax)
        } else if str_eq(s, "NetProfit") {
            Some(IncomeKeys::NetProfit)
        } else {
            None
        }
    }

    /// All variants, in declaration order.
    pub fn all() -> (r: Vec<IncomeKeys>)
        ensures
            r@ == seq![IncomeKeys::SalesRevenue, IncomeKeys::CostOfSales, IncomeKeys::GrossProfit, IncomeKeys::CommercialExpenses, IncomeKeys::ManagementExpenses, IncomeKeys::OperationalProfit, IncomeKeys::FinancialIncome, IncomeKeys::FinancialExpenses, IncomeKeys::OtherIncome, IncomeKeys::OtherExpenses, IncomeKeys::ProfitBeforeTax, IncomeKeys::ProfitTax, IncomeKeys::NetProfit],
    {
        vec![IncomeKeys::SalesRevenue, IncomeKeys::CostOfSales, IncomeKeys::GrossProfit, IncomeKeys::CommercialExpenses, IncomeKeys::ManagementExpenses, IncomeKeys::OperationalProfit, IncomeKeys::FinancialIncome, IncomeKeys::FinancialExpenses, IncomeKeys::OtherIncome, IncomeKeys::OtherExpenses, IncomeKeys::ProfitBeforeTax, IncomeKeys::ProfitTax, IncomeKeys::NetProfit]
    }
}

impl GenericKeys for IncomeKeys {
    fn default_key() -> (r: Self)
        ensures
            r == IncomeKeys::OtherIncome,
    {
        IncomeKeys::OtherIncome
    }

    fn same_key(&self, other: &Self) -> (r: bool) {
        *self == *other
    }

    fn key_name(&self) -> (r: &'static str)
        ensures
            r@ == income_keys_name(*self),
    {
        self.name()
    }

    fn key_from_name(s: &str) -> (r: Option<Self>)
        ensures
            r == income_keys_of_name(s@),
    {
        IncomeKeys::from_name(s)
    }

    fn variants() -> (r: Vec<Self>)
        ensures
            r@ == seq![IncomeKeys::SalesRevenue, IncomeKeys::CostOfSales, IncomeKeys::GrossProfit, IncomeKeys::CommercialExpenses, IncomeKeys::ManagementExpenses, IncomeKeys::OperationalProfit, IncomeKeys::FinancialIncome, IncomeKeys::FinancialExpenses, IncomeKeys::OtherIncome, IncomeKeys::OtherExpenses, IncomeKeys::ProfitBeforeTax, IncomeKeys::ProfitTax, IncomeKeys::NetProfit],
    {
        IncomeKeys::all()
    }
}

/// The two kinds of report.
#[derive(Debug, Clone, Copy, PartialEq, Eq, Structural, Hash)]
pub enum ReportType {
    /// The balance report.
    Balance,
    /// The income report.
    Income,
}

/// The name of each variant, as reports and the database store it.
pub open spec fn report_type_name(k: ReportType) -> Seq<char> {
    match k {
        ReportType::Balance => "Balance"@,
        ReportType::Income => "Income"@,
    }
}

/// The variant whose name is `s`, if any.
pub open spec fn report_type_of_name(s: Seq<char>) -> Option<ReportType> {
    if s == "Balance"@ {
        Some(ReportType::Balance)
    } else if s == "Income"@ {
        Some(ReportType::Income)
    } else {
        None
    }
}

/// Every variant reads back from its name.
pub proof fn lemma_report_type_name_roundtrip(k: ReportType)
    ensures
        report_type_of_name(report_type_name(k)) == Some(k),
{
    match k {
        ReportType::Balance => {
            reveal_strlit("Balance");
        },
        ReportType::Income => {
            reveal_strlit("Income");
            reveal_strlit("Balance");
            assert("Income"@ != "Balance"@) by { assert("Income"@.len() != "Balance"@.len()); }
        },
    }
}

impl ReportType {
    /// The name of the variant.
    pub fn name(&self) -> (r: &'static str)
        ensures
            r@ == report_type_name(*self),
    {
        match self {
            ReportType::Balance => "Balance",
            ReportType::Income => "Income",
        }
    }

    /// The variant whose name is `s`, matched exactly.
    pub fn from_name(s: &str) -> (r: Option<ReportType>)
        ensures
            r == report_type_of_name(s@),
    {
        if str_eq(s, "Balance") {
            Some(ReportType::Balance)
        } else if str_eq(s, "Income") {
            Some(ReportType::Income)
        } else {
            None
        }
    }

    /// All variants, in declaration order.
    pub fn all() -> (r: Vec<ReportType>)
        ensures
            r@ == seq![ReportType::Balance, ReportType::Income],
    {
        vec![ReportType::Balance, ReportType::Income]
    }
}

} // verus!
