use company_reporting::commands::{
    company_key, process_edit_report, process_edited_report, process_parse_report, store_checked_lines, process_update_reports_dict, ClassifiedLines,
    CommandError, CompanyKey, EditReportArgs, ParseReportArgs, ParseReportOutcome, UpdateReportsDictArgs,
};
use company_reporting::company::{BuildReportsError, CompanyInfo, RawReport};
use company_reporting::keys::{BalanceKeys, IncomeKeys, ParsedLineInfo, ReportType};
use company_reporting::keys_dict::KeysDict;
use company_reporting::money::{Money, MoneyMultiplier};
use company_reporting::period::Period;
use company_reporting::report_error::ParseError;

fn bl(key: BalanceKeys, roubles: i64, line: &str) -> ParsedLineInfo<BalanceKeys> {
    ParsedLineInfo { key, value: Money::from_roubles(roubles), original_line: line.to_owned() }
}

fn il(key: IncomeKeys, roubles: i64, line: &str) -> ParsedLineInfo<IncomeKeys> {
    ParsedLineInfo { key, value: Money::from_roubles(roubles), original_line: line.to_owned() }
}

fn balanced_lines() -> Vec<ParsedLineInfo<BalanceKeys>> {
    vec![
        bl(BalanceKeys::FixedAssets, 150, "Основные средства  150  140"),
        bl(BalanceKeys::TotalNonCurrentAssets, 150, "Итого внеоборотные активы  150  140"),
        bl(BalanceKeys::Cash, 50, "Денежные средства  50  40"),
        bl(BalanceKeys::TotalCurrentAssets, 50, "Итого оборотные активы  50  40"),
        bl(BalanceKeys::AuthorisedCapital, 100, "Уставный капитал  100  100"),
        bl(BalanceKeys::TotalEquity, 100, "Итого капитал и резервы  100  100"),
        bl(BalanceKeys::Loans, 40, "Процентные кредиты и займы  40  30"),
        bl(BalanceKeys::TotalLongTermLiabilities, 40, "Итого долгосрочные обязательства  40  30"),
        bl(BalanceKeys::AccountsPayable, 60, "Кредиторская задолженность  60  50"),
        bl(BalanceKeys::TotalCurrentLiabilities, 60, "Итого краткосрочные обязательства  60  50"),
    ]
}

fn company() -> CompanyInfo {
    CompanyInfo::new("ООО Пример".to_owned(), "7701234567".to_owned())
}

fn parse_args(period: Period, report_type: ReportType, interactive: bool) -> ParseReportArgs {
    ParseReportArgs {
        company_inn: Some("7701234567".to_owned()),
        company_name: None,
        period,
        report_type,
        report_path: "report.pdf".to_owned(),
        page_number: 3,
        interactive,
        money_multiplier: MoneyMultiplier::Thousands,
    }
}

#[test]
fn company_key_needs_exactly_one_name() {
    let inn = Some("123".to_owned());
    let name = Some("foo".to_owned());
    assert_eq!(company_key(&inn, &None), Some(CompanyKey::Inn("123".to_owned())));
    assert_eq!(company_key(&None, &name), Some(CompanyKey::Name("foo".to_owned())));
    assert_eq!(company_key(&inn, &name), None);
    assert_eq!(company_key(&None, &None), None);
}

#[test]
fn entry_index_adds_a_period_once() {
    let mut c = company();
    let i = c.entry_index(Period::full(2023));
    assert_eq!(i, 0);
    assert_eq!(c.raw_reports().len(), 1);
    assert!(c.raw_reports()[0].1.balance.is_none() && c.raw_reports()[0].1.income.is_none());
    let j = c.entry_index(Period::first_half(2024));
    assert_eq!(j, 1);
    assert_eq!(c.entry_index(Period::full(2023)), 0);
    assert_eq!(c.raw_reports().len(), 2);
    assert_eq!(c.report_index(Period::first_half(2024)), Some(1));
    assert_eq!(c.report_index(Period::full(2024)), None);
}

#[test]
fn parse_report_stores_checked_lines() {
    let mut c = company();
    let args = parse_args(Period::full(2023), ReportType::Balance, false);
    let outcome = process_parse_report(&args, &mut c, ClassifiedLines::Balance(balanced_lines())).unwrap();
    assert!(matches!(outcome, ParseReportOutcome::Stored));
    assert_eq!(c.raw_reports().len(), 1);
    assert_eq!(c.raw_reports()[0].0, Period::full(2023));
    assert_eq!(c.raw_reports()[0].1.balance.as_ref().unwrap().len(), 10);
    assert!(c.raw_reports()[0].1.income.is_none());

    // A second balance report for the same period is refused.
    let again = process_parse_report(&args, &mut c, ClassifiedLines::Balance(balanced_lines()));
    assert_eq!(again.unwrap_err(), CommandError::ReportAlreadyPresent(ReportType::Balance));
}

#[test]
fn parse_report_refuses_lines_that_do_not_parse() {
    let mut c = company();
    let args = parse_args(Period::full(2023), ReportType::Balance, false);
    let mut lines = balanced_lines();
    lines.pop();
    let r = process_parse_report(&args, &mut c, ClassifiedLines::Balance(lines));
    assert_eq!(
        r.unwrap_err(),
        CommandError::Balance(ParseError::DelimiterNotFound(BalanceKeys::TotalCurrentLiabilities))
    );
    // The period got its (empty) raw report, nothing was stored in it.
    assert_eq!(c.raw_reports().len(), 1);
    assert!(c.raw_reports()[0].1.balance.is_none());

    let args = parse_args(Period::full(2023), ReportType::Income, false);
    let r = process_parse_report(
        &args,
        &mut c,
        ClassifiedLines::Income(vec![il(IncomeKeys::SalesRevenue, -5, "Выручка  -5  1")]),
    );
    assert_eq!(
        r.unwrap_err(),
        CommandError::Income(ParseError::DelimiterNotFound(IncomeKeys::GrossProfit))
    );
}

#[test]
fn interactive_parse_hands_lines_back_for_editing() {
    let mut c = company();
    let args = parse_args(Period::first_half(2024), ReportType::Income, true);
    let lines = vec![il(IncomeKeys::SalesRevenue, 10, "Выручка  10  9")];
    match process_parse_report(&args, &mut c, ClassifiedLines::Income(lines)).unwrap() {
        ParseReportOutcome::Edit(ClassifiedLines::Income(v)) => {
            assert_eq!(v.len(), 1);
            c.store_report_lines(Period::first_half(2024), ClassifiedLines::Income(v));
        }
        other => panic!("unexpected outcome {:?}", other),
    }
    assert_eq!(c.raw_reports().len(), 1);
    assert_eq!(c.raw_reports()[0].1.income.as_ref().unwrap()[0].value.in_roubles(), 10);
    assert!(c.raw_reports()[0].1.balance.is_none());
}

#[test]
fn edit_report_takes_the_lines_out() {
    let mut c = company();
    c.store_report_lines(Period::full(2023), ClassifiedLines::Balance(balanced_lines()));
    let args = EditReportArgs {
        company_inn: None,
        company_name: Some("ООО Пример".to_owned()),
        period: Period::full(2023),
        report_type: ReportType::Balance,
    };
    match process_edit_report(&args, &mut c).unwrap() {
        ClassifiedLines::Balance(v) => assert_eq!(v.len(), 10),
        other => panic!("unexpected lines {:?}", other),
    }
    assert!(c.raw_reports()[0].1.balance.is_none());
    assert_eq!(process_edit_report(&args, &mut c).unwrap_err(), CommandError::NoReportToEdit(ReportType::Balance));

    let other_period = EditReportArgs { period: Period::full(2020), ..args };
    assert_eq!(process_edit_report(&other_period, &mut c).unwrap_err(), CommandError::NoReportForPeriod);
}

#[test]
fn build_reports_skips_incomplete_periods() {
    let mut c = company();
    c.store_report_lines(Period::full(2023), ClassifiedLines::Balance(balanced_lines()));
    c.entry_index(Period::full(2022));
    let reports = c.build_reports().unwrap();
    assert!(reports.is_empty());
}

#[test]
fn build_reports_gives_the_failing_period() {
    let mut c = company();
    let mut bad = balanced_lines();
    bad[1] = bl(BalanceKeys::TotalNonCurrentAssets, 151, "Итого  151  1");
    c.store_report_lines(Period::full(2022), ClassifiedLines::Balance(balanced_lines()));
    c.store_report_lines(Period::full(2023), ClassifiedLines::Balance(bad));
    c.store_report_lines(Period::full(2023), ClassifiedLines::Income(vec![]));
    assert_eq!(
        c.build_reports().unwrap_err(),
        BuildReportsError::Balance(
            Period::full(2023),
            ParseError::TotalMismatch {
                section: BalanceKeys::TotalNonCurrentAssets,
                calculated: Money::from_roubles(150),
                provided: Money::from_roubles(151),
            }
        )
    );
    let mut c = company();
    c.store_report_lines(Period::full(2022), ClassifiedLines::Balance(balanced_lines()));
    c.store_report_lines(Period::full(2022), ClassifiedLines::Income(vec![]));
    assert_eq!(
        c.build_reports().unwrap_err(),
        BuildReportsError::Income(Period::full(2022), ParseError::DelimiterNotFound(IncomeKeys::GrossProfit))
    );
}

#[test]
fn update_dict_learns_titles() {
    let mut c = company();
    c.store_report_lines(Period::full(2023), ClassifiedLines::Balance(balanced_lines()));
    c.store_report_lines(
        Period::full(2023),
        ClassifiedLines::Income(vec![il(IncomeKeys::SalesRevenue, 1, "Выручка от продаж  1  2")]),
    );
    let companies = vec![c];

    let mut balance_dict = KeysDict::<BalanceKeys>::new();
    balance_dict.insert("основные средства".to_owned(), BalanceKeys::Other);
    let mut income_dict = KeysDict::<IncomeKeys>::new();
    process_update_reports_dict(
        &UpdateReportsDictArgs { force: false },
        &companies,
        &mut balance_dict,
        &mut income_dict,
    );
    // A known title keeps its key without force.
    assert_eq!(balance_dict.get("основные средства"), Some(BalanceKeys::Other));
    assert_eq!(balance_dict.get("денежные средства"), Some(BalanceKeys::Cash));
    assert_eq!(balance_dict.get("итого капитал и резервы"), Some(BalanceKeys::TotalEquity));
    assert_eq!(balance_dict.len(), 10);
    assert_eq!(income_dict.get("выручка от продаж"), Some(IncomeKeys::SalesRevenue));
    assert_eq!(income_dict.len(), 1);

    process_update_reports_dict(
        &UpdateReportsDictArgs { force: true },
        &companies,
        &mut balance_dict,
        &mut income_dict,
    );
    // With force the stored line's key wins.
    assert_eq!(balance_dict.get("основные средства"), Some(BalanceKeys::FixedAssets));
    assert_eq!(balance_dict.len(), 10);
}

#[test]
fn keys_dict_reads_back_what_was_written() {
    let mut d = KeysDict::<BalanceKeys>::new();
    assert_eq!(d.get("запасы"), None);
    d.insert("запасы".to_owned(), BalanceKeys::PhysicalInventory);
    assert_eq!(d.get("запасы"), Some(BalanceKeys::PhysicalInventory));
    d.insert("запасы".to_owned(), BalanceKeys::Other);
    assert_eq!(d.get("запасы"), Some(BalanceKeys::Other));
    d.insert_if_absent("запасы".to_owned(), BalanceKeys::Cash);
    assert_eq!(d.get("запасы"), Some(BalanceKeys::Other));
    d.insert_if_absent("касса".to_owned(), BalanceKeys::Cash);
    assert_eq!(d.get("касса"), Some(BalanceKeys::Cash));
    assert_eq!(d.len(), 2);
    assert_eq!(d.entries().len(), 2);
}

#[test]
fn raw_report_default_is_empty() {
    let r = RawReport::default();
    assert!(r.balance.is_none());
    assert!(r.income.is_none());
}

#[test]
fn report_periods_are_sorted() {
    let mut c = company();
    c.entry_index(Period::full(2024));
    c.entry_index(Period::first_half(2023));
    c.entry_index(Period::second_half(2023));
    assert_eq!(
        c.report_periods(),
        vec![Period::first_half(2023), Period::second_half(2023), Period::full(2024)]
    );
}

fn income_lines() -> Vec<ParsedLineInfo<IncomeKeys>> {
    vec![
        il(IncomeKeys::SalesRevenue, 1000, "Выручка  1000  900"),
        il(IncomeKeys::CostOfSales, -600, "Себестоимость  (600)  (500)"),
        il(IncomeKeys::GrossProfit, 400, "Валовая прибыль  400  400"),
        il(IncomeKeys::OperationalProfit, 400, "Операционная прибыль  400  400"),
        il(IncomeKeys::ProfitBeforeTax, 400, "Прибыль до налогообложения  400  400"),
        il(IncomeKeys::ProfitTax, -80, "Налог  (80)  (80)"),
    ]
}

#[test]
fn build_reports_parses_complete_periods() {
    let mut c = company();
    c.store_report_lines(Period::full(2023), ClassifiedLines::Balance(balanced_lines()));
    c.store_report_lines(Period::full(2023), ClassifiedLines::Income(income_lines()));
    c.store_report_lines(Period::first_half(2024), ClassifiedLines::Balance(balanced_lines()));
    c.store_report_lines(Period::full(2022), ClassifiedLines::Income(income_lines()));
    c.store_report_lines(Period::full(2022), ClassifiedLines::Balance(balanced_lines()));
    let reports = c.build_reports().unwrap();
    assert_eq!(reports.len(), 2);
    assert_eq!(reports[0].0, Period::full(2023));
    assert_eq!(reports[1].0, Period::full(2022));
    assert_eq!(reports[0].1.income.net_profit().in_roubles(), 320);
    assert_eq!(reports[1].1.balance.assets().total().in_roubles(), 200);
}

#[test]
fn income_report_is_stored_once_it_parses() {
    let mut c = company();
    let args = parse_args(Period::full(2021), ReportType::Income, false);
    let outcome = process_parse_report(&args, &mut c, ClassifiedLines::Income(income_lines())).unwrap();
    assert!(matches!(outcome, ParseReportOutcome::Stored));
    assert_eq!(c.raw_reports()[0].1.income.as_ref().unwrap().len(), 6);
}

#[test]
fn edited_report_is_stored_only_once_it_parses() {
    let mut c = company();
    c.store_report_lines(Period::full(2023), ClassifiedLines::Balance(balanced_lines()));
    let args = EditReportArgs {
        company_inn: Some("7701234567".to_owned()),
        company_name: None,
        period: Period::full(2023),
        report_type: ReportType::Balance,
    };
    let taken = match process_edit_report(&args, &mut c).unwrap() {
        ClassifiedLines::Balance(v) => v,
        other => panic!("unexpected lines {:?}", other),
    };
    assert!(c.raw_reports()[0].1.balance.is_none());

    // An edit that breaks the report is refused and changes nothing.
    let mut broken = taken.clone();
    broken.pop();
    let r = process_edited_report(&args, &mut c, ClassifiedLines::Balance(broken));
    assert_eq!(
        r.unwrap_err(),
        CommandError::Balance(ParseError::DelimiterNotFound(BalanceKeys::TotalCurrentLiabilities))
    );
    assert_eq!(c.raw_reports().len(), 1);
    assert!(c.raw_reports()[0].1.balance.is_none());

    // The lines as they were parse again and are stored back.
    process_edited_report(&args, &mut c, ClassifiedLines::Balance(taken)).unwrap();
    assert_eq!(c.raw_reports().len(), 1);
    assert_eq!(c.raw_reports()[0].1.balance.as_ref().unwrap().len(), 10);
    assert_eq!(c.raw_reports()[0].1.balance.as_ref().unwrap()[0].value.in_roubles(), 150);
    assert_eq!(c.name(), "ООО Пример");
    assert_eq!(c.inn(), "7701234567");
}

#[test]
fn checked_lines_go_to_their_period() {
    let mut c = company();
    let r = store_checked_lines(&mut c, Period::full(2021), ClassifiedLines::Income(vec![]));
    assert_eq!(r.unwrap_err(), CommandError::Income(ParseError::DelimiterNotFound(IncomeKeys::GrossProfit)));
    assert!(c.raw_reports().is_empty());
    store_checked_lines(&mut c, Period::full(2021), ClassifiedLines::Income(income_lines())).unwrap();
    assert_eq!(c.raw_reports().len(), 1);
    assert_eq!(c.raw_reports()[0].0, Period::full(2021));
    assert_eq!(c.raw_reports()[0].1.income.as_ref().unwrap().len(), 6);
    assert!(c.raw_reports()[0].1.balance.is_none());
}
