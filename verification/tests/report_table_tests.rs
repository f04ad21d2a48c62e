use company_reporting::company::Report;
use company_reporting::income_report::{FinancialSegment, GrossProfitSegment, IncomeReport, OperationalSegment};
use company_reporting::keys::{BalanceKeys, ParsedLineInfo};
use company_reporting::money::Money;
use company_reporting::period::Period;
use company_reporting::report_table::{
    balance_rows, cash, gross_profit, income_rows, net_profit, operational_expenses, operational_profit,
    profit_before_tax, report_for_period, report_periods, row_title_text, row_value, total_assets,
    total_current_liabilities, total_equity, total_liabilities, value_trend, visible_rows, DisplayedReportType,
    ReportValue, RowDescriptor, Trend, ValueDisplayMode, ViewerAction, ViewerKey, ViewerState, MAX_LEVEL,
};
use company_reporting::text_parser::ReportParser;

fn bl(key: BalanceKeys, roubles: i64) -> ParsedLineInfo<BalanceKeys> {
    ParsedLineInfo { key, value: Money::from_roubles(roubles), original_line: String::new() }
}

fn report(scale: i64) -> Report {
    let lines = vec![
        bl(BalanceKeys::FixedAssets, 150 * scale),
        bl(BalanceKeys::TotalNonCurrentAssets, 150 * scale),
        bl(BalanceKeys::Cash, 50 * scale),
        bl(BalanceKeys::TotalCurrentAssets, 50 * scale),
        bl(BalanceKeys::AuthorisedCapital, 100 * scale),
        bl(BalanceKeys::TotalEquity, 100 * scale),
        bl(BalanceKeys::Loans, 40 * scale),
        bl(BalanceKeys::TotalLongTermLiabilities, 40 * scale),
        bl(BalanceKeys::AccountsPayable, 60 * scale),
        bl(BalanceKeys::TotalCurrentLiabilities, 60 * scale),
    ];
    let balance = ReportParser::new().parse_balance_report_batch(&lines).unwrap();
    let income = IncomeReport::new(
        GrossProfitSegment::new(Money::from_roubles(1000 * scale), Money::from_roubles(-600 * scale)).unwrap(),
        OperationalSegment::new(
            Money::from_roubles(-100 * scale),
            Money::from_roubles(-50 * scale),
            Money::from_roubles(20 * scale),
            Money::from_roubles(-10 * scale),
        )
        .unwrap(),
        FinancialSegment::new(Money::from_roubles(5 * scale), Money::from_roubles(-15 * scale)).unwrap(),
        Money::from_roubles(-50 * scale),
    );
    Report { balance, income }
}

#[test]
fn figures_of_a_report() {
    let r = report(1);
    assert_eq!(total_assets(&r).in_roubles(), 200);
    assert_eq!(total_equity(&r).in_roubles(), 100);
    assert_eq!(total_liabilities(&r).in_roubles(), 100);
    assert_eq!(total_current_liabilities(&r).in_roubles(), 60);
    assert_eq!(cash(&r).in_roubles(), 50);
    assert_eq!(gross_profit(&r).in_roubles(), 400);
    assert_eq!(operational_expenses(&r).in_roubles(), -140);
    assert_eq!(operational_profit(&r).in_roubles(), 260);
    assert_eq!(profit_before_tax(&r).in_roubles(), 250);
    assert_eq!(net_profit(&r).in_roubles(), 200);
}

#[test]
fn row_values_follow_the_rows() {
    let r = report(2);
    assert_eq!(row_value(&r, ReportValue::TotalAssets), Some(Money::from_roubles(400)));
    assert_eq!(row_value(&r, ReportValue::NetProfit), Some(Money::from_roubles(400)));
    assert_eq!(row_value(&r, ReportValue::CostOfSales), Some(Money::from_roubles(-1200)));
    assert_eq!(row_value(&r, ReportValue::NetFinancialExpenses), Some(Money::from_roubles(-20)));
}

#[test]
fn row_value_is_none_when_a_sum_overflows() {
    let balance = report(1).balance;
    let income = IncomeReport::new(
        GrossProfitSegment::new(Money::from_roubles(i64::MAX), Money::from_roubles(0)).unwrap(),
        OperationalSegment::new(Money::zero(), Money::zero(), Money::from_roubles(1), Money::zero()).unwrap(),
        FinancialSegment::new(Money::zero(), Money::zero()).unwrap(),
        Money::zero(),
    );
    let r = Report { balance, income };
    assert_eq!(row_value(&r, ReportValue::GrossProfit), Some(Money::from_roubles(i64::MAX)));
    assert_eq!(row_value(&r, ReportValue::OperationalExpenses), Some(Money::from_roubles(1)));
    assert_eq!(row_value(&r, ReportValue::OperationalProfit), None);
    assert_eq!(row_value(&r, ReportValue::ProfitBeforeTax), None);
    assert_eq!(row_value(&r, ReportValue::NetProfit), None);
}

#[test]
fn row_tables() {
    let b = balance_rows();
    assert_eq!(b.len(), 26);
    assert_eq!(b[0].title, "Assets");
    assert_eq!(b[0].level, 0);
    assert_eq!(b[25].title, "Other current liabilities");
    let i = income_rows();
    assert_eq!(i.len(), 15);
    assert_eq!(i[14].title, "Net profit");
    assert_eq!(visible_rows(&b, 0).len(), 3);
    assert_eq!(visible_rows(&b, 1).len(), 7);
    assert_eq!(visible_rows(&b, 2).len(), 26);
    assert_eq!(visible_rows(&i, 0).len(), 7);
    assert_eq!(visible_rows(&i, 1).len(), 7);
}

#[test]
fn row_titles() {
    let top = RowDescriptor { title: "Assets", value: ReportValue::TotalAssets, level: 0 };
    let mid = RowDescriptor { title: "Current assets", value: ReportValue::TotalCurrentAssets, level: 1 };
    let leaf = RowDescriptor { title: "Cash", value: ReportValue::Cash, level: 2 };
    assert_eq!(row_title_text(&top, 0), "\u{25b6} Assets");
    assert_eq!(row_title_text(&top, 1), "\u{25bc} Assets");
    assert_eq!(row_title_text(&mid, 1), "  \u{25b6} Current assets");
    assert_eq!(row_title_text(&mid, 2), "  \u{25bc} Current assets");
    assert_eq!(row_title_text(&leaf, 2), "    Cash");
}

#[test]
fn trends() {
    let a = Money::from_roubles(5);
    let b = Money::from_roubles(7);
    assert_eq!(value_trend(b, Some(a)), Trend::Rising);
    assert_eq!(value_trend(a, Some(b)), Trend::Falling);
    assert_eq!(value_trend(a, Some(a)), Trend::Steady);
    assert_eq!(value_trend(a, None), Trend::Steady);
}

#[test]
fn columns_are_sorted_periods() {
    let reports = vec![
        (Period::full(2024), report(1)),
        (Period::first_half(2023), report(2)),
        (Period::full(2023), report(3)),
        (Period::full(2024), report(4)),
    ];
    assert_eq!(
        report_periods(&reports),
        vec![Period::first_half(2023), Period::full(2023), Period::full(2024)]
    );
    assert_eq!(report_for_period(&reports, Period::full(2024)), Some(0));
    assert_eq!(report_for_period(&reports, Period::full(2023)), Some(2));
    assert_eq!(report_for_period(&reports, Period::full(2025)), None);
}

#[test]
fn viewer_keys() {
    let mut s = ViewerState::new(DisplayedReportType::Income);
    assert_eq!(s.value_display_mode(), ValueDisplayMode::Absolute);
    assert_eq!(s.max_expand_level(), 0);
    assert_eq!(s.handle_key(ViewerKey::ShareOfAssets), ViewerAction::Ignore);
    assert_eq!(s.value_display_mode(), ValueDisplayMode::Absolute);
    assert_eq!(s.handle_key(ViewerKey::ChangeToPrevious), ViewerAction::Rebuild);
    assert_eq!(s.value_display_mode(), ValueDisplayMode::PercentToPrevious);
    assert_eq!(s.handle_key(ViewerKey::Left), ViewerAction::SelectPreviousColumn);
    assert_eq!(s.handle_key(ViewerKey::Right), ViewerAction::SelectNextColumn);
    assert_eq!(s.handle_key(ViewerKey::Other), ViewerAction::Ignore);
    assert_eq!(s.handle_key(ViewerKey::Quit), ViewerAction::Quit);

    let mut b = ViewerState::new(DisplayedReportType::Balance);
    assert_eq!(b.handle_key(ViewerKey::ShareOfAssets), ViewerAction::Rebuild);
    assert_eq!(b.value_display_mode(), ValueDisplayMode::PercentFromBalance);
    assert_eq!(b.handle_key(ViewerKey::Absolute), ViewerAction::Rebuild);
    assert_eq!(b.value_display_mode(), ValueDisplayMode::Absolute);
    assert_eq!(b.displayed_report_type(), DisplayedReportType::Balance);
}

#[test]
fn expand_cycles_through_the_levels() {
    let mut s = ViewerState::new(DisplayedReportType::Balance);
    let mut levels = vec![];
    for _ in 0..(MAX_LEVEL + 1) {
        assert_eq!(s.handle_key(ViewerKey::Expand), ViewerAction::Rebuild);
        levels.push(s.max_expand_level());
    }
    assert_eq!(levels, vec![1, 2, 0]);
}

#[test]
fn displayed_report_type_names() {
    assert_eq!(DisplayedReportType::from_name("Balance"), Some(DisplayedReportType::Balance));
    assert_eq!(DisplayedReportType::from_name("Income"), Some(DisplayedReportType::Income));
    assert_eq!(DisplayedReportType::from_name("income"), None);
}
