use company_reporting::keys::{BalanceKeys, IncomeKeys, ParsedLineInfo, ReportType};
use company_reporting::money::{Money, MoneyMultiplier};
use company_reporting::report_error::{ModelError, ParseError};
use company_reporting::text_parser::ReportParser;

fn bl(key: BalanceKeys, roubles: i64) -> ParsedLineInfo<BalanceKeys> {
    ParsedLineInfo { key, value: Money::from_roubles(roubles), original_line: format!("{:?}", key) }
}

fn il(key: IncomeKeys, roubles: i64) -> ParsedLineInfo<IncomeKeys> {
    ParsedLineInfo { key, value: Money::from_roubles(roubles), original_line: format!("{:?}", key) }
}

fn balanced_lines() -> Vec<ParsedLineInfo<BalanceKeys>> {
    vec![
        bl(BalanceKeys::FixedAssets, 100),
        bl(BalanceKeys::Other, 30),
        bl(BalanceKeys::Other, 20),
        bl(BalanceKeys::TotalNonCurrentAssets, 150),
        bl(BalanceKeys::PhysicalInventory, 30),
        bl(BalanceKeys::Cash, 20),
        bl(BalanceKeys::TotalCurrentAssets, 50),
        bl(BalanceKeys::AuthorisedCapital, 10),
        bl(BalanceKeys::RetainedEarnings, 90),
        bl(BalanceKeys::TotalEquity, 100),
        bl(BalanceKeys::Loans, 40),
        bl(BalanceKeys::TotalLongTermLiabilities, 40),
        bl(BalanceKeys::AccountsPayable, 60),
        bl(BalanceKeys::TotalCurrentLiabilities, 60),
    ]
}

#[test]
fn balance_report_parses() {
    let parser = ReportParser::new();
    let report = parser.parse_balance_report_batch(&balanced_lines()).unwrap();
    assert_eq!(report.assets().total().in_roubles(), 200);
    assert_eq!(report.assets().non_current().total().in_roubles(), 150);
    assert_eq!(report.assets().non_current().fixed_assets().in_roubles(), 100);
    assert_eq!(report.assets().non_current().other().in_roubles(), 50);
    assert_eq!(report.assets().current().total().in_roubles(), 50);
    assert_eq!(report.assets().current().cash().in_roubles(), 20);
    assert_eq!(report.equity().total().in_roubles(), 100);
    assert_eq!(report.equity().retained_earnings().in_roubles(), 90);
    assert_eq!(report.liabilities().total().in_roubles(), 100);
    assert_eq!(report.liabilities().long_term().loans().in_roubles(), 40);
    assert_eq!(report.liabilities().current().accounts_payable().in_roubles(), 60);
}

#[test]
fn balance_report_ignores_lines_after_the_last_section() {
    let parser = ReportParser::new();
    let mut lines = balanced_lines();
    let plain = parser.parse_balance_report_batch(&lines).unwrap();
    lines.push(bl(BalanceKeys::Cash, 12345));
    lines.push(bl(BalanceKeys::TotalEquity, 1));
    let with_tail = parser.parse_balance_report_batch(&lines).unwrap();
    assert_eq!(plain, with_tail);
}

#[test]
fn balance_report_needs_every_section() {
    let parser = ReportParser::new();
    let mut lines = balanced_lines();
    lines.pop();
    assert_eq!(
        parser.parse_balance_report_batch(&lines).unwrap_err(),
        ParseError::DelimiterNotFound(BalanceKeys::TotalCurrentLiabilities)
    );
    assert_eq!(
        parser.parse_balance_report_batch(&vec![]).unwrap_err(),
        ParseError::DelimiterNotFound(BalanceKeys::TotalNonCurrentAssets)
    );
}

#[test]
fn balance_report_refuses_a_key_out_of_its_section() {
    let parser = ReportParser::new();
    let mut lines = balanced_lines();
    lines.insert(0, bl(BalanceKeys::Cash, 5));
    assert_eq!(
        parser.parse_balance_report_batch(&lines).unwrap_err(),
        ParseError::UnexpectedKey(BalanceKeys::Cash)
    );
    let mut lines = balanced_lines();
    lines.insert(5, bl(BalanceKeys::Loans, 5));
    assert_eq!(
        parser.parse_balance_report_batch(&lines).unwrap_err(),
        ParseError::UnexpectedKey(BalanceKeys::Loans)
    );
}

#[test]
fn balance_report_checks_section_totals() {
    let parser = ReportParser::new();
    let mut lines = balanced_lines();
    lines[6] = bl(BalanceKeys::TotalCurrentAssets, 51);
    assert_eq!(
        parser.parse_balance_report_batch(&lines).unwrap_err(),
        ParseError::TotalMismatch {
            section: BalanceKeys::TotalCurrentAssets,
            calculated: Money::from_roubles(50),
            provided: Money::from_roubles(51),
        }
    );
}

#[test]
fn balance_report_first_total_line_closes_the_section() {
    let parser = ReportParser::new();
    let mut lines = balanced_lines();
    lines.insert(0, bl(BalanceKeys::TotalNonCurrentAssets, 999));
    // The first total line closes the (empty) section, whose sum is zero.
    assert_eq!(
        parser.parse_balance_report_batch(&lines).unwrap_err(),
        ParseError::TotalMismatch {
            section: BalanceKeys::TotalNonCurrentAssets,
            calculated: Money::zero(),
            provided: Money::from_roubles(999),
        }
    );
}

#[test]
fn balance_report_checks_the_balance_equation() {
    let parser = ReportParser::new();
    let mut lines = balanced_lines();
    lines[12] = bl(BalanceKeys::AccountsPayable, 70);
    lines[13] = bl(BalanceKeys::TotalCurrentLiabilities, 70);
    assert_eq!(
        parser.parse_balance_report_batch(&lines).unwrap_err(),
        ParseError::Model(ModelError::BalanceMismatch {
            assets: Money::from_roubles(200),
            equity: Money::from_roubles(100),
            liabilities: Money::from_roubles(110),
        })
    );
}

#[test]
fn balance_report_refuses_sums_that_overflow() {
    let parser = ReportParser::new();
    let lines = vec![
        bl(BalanceKeys::FixedAssets, i64::MAX),
        bl(BalanceKeys::FixedAssets, 1),
        bl(BalanceKeys::TotalNonCurrentAssets, 0),
    ];
    assert_eq!(parser.parse_balance_report_batch(&lines).unwrap_err(), ParseError::Overflow);
}

#[test]
fn income_report_checks_gross_profit() {
    let parser = ReportParser::new();
    let lines = vec![
        il(IncomeKeys::SalesRevenue, 1000),
        il(IncomeKeys::CostOfSales, -600),
        il(IncomeKeys::GrossProfit, 500),
    ];
    assert_eq!(
        parser.parse_income_report_batch(&lines).unwrap_err(),
        ParseError::TotalMismatch {
            section: IncomeKeys::GrossProfit,
            calculated: Money::from_roubles(400),
            provided: Money::from_roubles(500),
        }
    );
    let lines = vec![
        il(IncomeKeys::SalesRevenue, 1000),
        il(IncomeKeys::CostOfSales, 600),
        il(IncomeKeys::GrossProfit, 1600),
    ];
    assert_eq!(
        parser.parse_income_report_batch(&lines).unwrap_err(),
        ParseError::Model(ModelError::WrongSign(IncomeKeys::CostOfSales))
    );
}

#[test]
fn income_report_parses() {
    let parser = ReportParser::new();
    let lines = vec![
        il(IncomeKeys::SalesRevenue, 1000),
        il(IncomeKeys::CostOfSales, -600),
        il(IncomeKeys::GrossProfit, 400),
        il(IncomeKeys::CommercialExpenses, -100),
        il(IncomeKeys::OperationalProfit, 300),
        il(IncomeKeys::FinancialIncome, 10),
        il(IncomeKeys::ProfitBeforeTax, 310),
        il(IncomeKeys::ProfitTax, -60),
    ];
    let report = parser.parse_income_report_batch(&lines).unwrap();
    assert_eq!(report.gross_profit().in_roubles(), 400);
    assert_eq!(report.operational_segment().commercial_expenses().in_roubles(), -100);
    assert_eq!(report.operational_profit().in_roubles(), 300);
    assert_eq!(report.financial_segment().financial_income().in_roubles(), 10);
    assert_eq!(report.profit_before_tax().in_roubles(), 310);
    assert_eq!(report.profit_tax().in_roubles(), -60);
    assert_eq!(report.net_profit().in_roubles(), 250);
}

#[test]
fn income_report_checks_operational_signs_and_sections() {
    let parser = ReportParser::new();
    let lines = vec![
        il(IncomeKeys::SalesRevenue, 1000),
        il(IncomeKeys::CostOfSales, -600),
        il(IncomeKeys::GrossProfit, 400),
        il(IncomeKeys::ManagementExpenses, 5),
        il(IncomeKeys::OperationalProfit, 405),
        il(IncomeKeys::ProfitBeforeTax, 405),
        il(IncomeKeys::ProfitTax, 0),
    ];
    assert_eq!(
        parser.parse_income_report_batch(&lines).unwrap_err(),
        ParseError::Model(ModelError::WrongSign(IncomeKeys::ManagementExpenses))
    );
    let lines = vec![
        il(IncomeKeys::SalesRevenue, 1000),
        il(IncomeKeys::CostOfSales, -600),
        il(IncomeKeys::GrossProfit, 400),
        il(IncomeKeys::FinancialIncome, 10),
        il(IncomeKeys::OperationalProfit, 400),
    ];
    assert_eq!(
        parser.parse_income_report_batch(&lines).unwrap_err(),
        ParseError::UnexpectedKey(IncomeKeys::FinancialIncome)
    );
    let lines = vec![
        il(IncomeKeys::SalesRevenue, 1000),
        il(IncomeKeys::CostOfSales, -600),
        il(IncomeKeys::GrossProfit, 400),
    ];
    assert_eq!(
        parser.parse_income_report_batch(&lines).unwrap_err(),
        ParseError::DelimiterNotFound(IncomeKeys::OperationalProfit)
    );
}

#[test]
fn default_titles_classify_balance_lines() {
    let parser = ReportParser::new();
    let lines = parser
        .classify_balance_lines(
            &[
                "Основные средства  5  1 200  1 100".to_owned(),
                "Денежные средства и их эквиваленты  (300)  250".to_owned(),
                "Непонятная строка  7  8".to_owned(),
            ],
            MoneyMultiplier::Thousands,
        )
        .unwrap();
    assert_eq!(lines.len(), 3);
    assert_eq!(lines[0].key, BalanceKeys::FixedAssets);
    assert_eq!(lines[0].value.in_roubles(), 1_200_000);
    assert_eq!(lines[1].key, BalanceKeys::Cash);
    assert_eq!(lines[1].value.in_roubles(), -300_000);
    assert_eq!(lines[2].key, BalanceKeys::Other);
    assert_eq!(lines[2].value.in_roubles(), 7_000);
}

#[test]
fn default_titles_classify_income_lines() {
    let parser = ReportParser::new();
    let lines = parser
        .classify_income_lines(
            &[
                "Выручка от реализации  10  20".to_owned(),
                "Прочие операционные доходы  3  4".to_owned(),
                "Финансовые расходы  (2)  (1)".to_owned(),
            ],
            MoneyMultiplier::Millions,
        )
        .unwrap();
    assert_eq!(lines.len(), 3);
    assert_eq!(lines[0].key, IncomeKeys::SalesRevenue);
    assert_eq!(lines[0].value.in_roubles(), 10_000_000);
    assert_eq!(lines[1].key, IncomeKeys::OtherIncome);
    assert_eq!(lines[2].key, IncomeKeys::FinancialExpenses);
    assert_eq!(lines[2].value.in_roubles(), -2_000_000);
}

#[test]
fn key_names_read_back() {
    for k in BalanceKeys::all() {
        assert_eq!(BalanceKeys::from_name(k.name()), Some(k));
    }
    for k in IncomeKeys::all() {
        assert_eq!(IncomeKeys::from_name(k.name()), Some(k));
    }
    for k in ReportType::all() {
        assert_eq!(ReportType::from_name(k.name()), Some(k));
    }
    assert_eq!(BalanceKeys::all().len(), 17);
    assert_eq!(IncomeKeys::all().len(), 13);
    assert_eq!(BalanceKeys::from_name("Cash"), Some(BalanceKeys::Cash));
    assert_eq!(BalanceKeys::from_name("cash"), None);
    assert_eq!(IncomeKeys::from_name("NetProfit"), Some(IncomeKeys::NetProfit));
    assert_eq!(ReportType::from_name("Income"), Some(ReportType::Income));
    assert_eq!(ReportType::from_name("Other"), None);
}
