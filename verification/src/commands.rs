//! What the commands decide: which company they name, where the lines of a
//! new report go, which lines an edit takes, and what the title dictionaries
//! learn from stored reports. Reading and writing the database, recognising
//! pages and talking to the user are left to the program around the library.
use vstd::prelude::*;
use crate::company::{lemma_with_slot_has_period, period_index, with_slot, CompanyInfo, RawReport};
use crate::keys::{BalanceKeys, IncomeKeys, ParsedLineInfo, ReportType};
use crate::keys_dict::KeysDict;
use crate::money::MoneyMultiplier;
use crate::period::Period;
use crate::report_error::ParseError;
use crate::reports_dict::{
    company_balance_lines, company_income_lines, learn_balance_titles, learn_income_titles, learn_lines,
};
use crate::text_parser::{balance_report_of, income_report_of, ReportParser};

verus! {

/// How a command names a company.
#[derive(Debug, Clone, PartialEq, Eq)]
pub enum CompanyKey {
    Inn(String),
    Name(String),
}

/// The company that a command names: exactly one of the INN and the name
/// must be given.
pub fn company_key(inn: &Option<String>, name: &Option<String>) -> (r: Option<CompanyKey>)
    ensures
        match (inn, name) {
            (Some(i), None) => r matches Some(CompanyKey::Inn(s)) && s@ == i@,
            (None, Some(n)) => r matches Some(CompanyKey::Name(s)) && s@ == n@,
            _ => r is None,
        },
{
    match (inn, name) {
        (Some(i), None) => Some(CompanyKey::Inn(i.clone())),
        (None, Some(n)) => Some(CompanyKey::Name(n.clone())),
        _ => None,
    }
}

/// The arguments of the command that teaches the title dictionaries.
pub struct UpdateReportsDictArgs {
    /// Whether a stored line's key replaces the key a title already has.
    pub force: bool,
}

/// The arguments of the command that parses a report page.
pub struct ParseReportArgs {
    pub company_inn: Option<String>,
    pub company_name: Option<String>,
    pub period: Period,
    pub report_type: ReportType,
    pub report_path: String,
    pub page_number: i32,
    pub interactive: bool,
    pub money_multiplier: MoneyMultiplier,
}

/// The arguments of the command that edits a stored report.
pub struct EditReportArgs {
    pub company_inn: Option<String>,
    pub company_name: Option<String>,
    pub period: Period,
    pub report_type: ReportType,
}

/// Why a command refuses to go on.
#[derive(Debug, Clone, Copy, PartialEq, Eq)]
pub enum CommandError {
    /// The period already has a report of this type.
    ReportAlreadyPresent(ReportType),
    /// The company has no report for the period.
    NoReportForPeriod,
    /// The period has no report of this type to edit.
    NoReportToEdit(ReportType),
    /// The balance lines do not parse.
    Balance(ParseError<BalanceKeys>),
    /// The income lines do not parse.
    Income(ParseError<IncomeKeys>),
}

/// The classified lines of one report.
#[derive(Debug)]
pub enum ClassifiedLines {
    Balance(Vec<ParsedLineInfo<BalanceKeys>>),
    Income(Vec<ParsedLineInfo<IncomeKeys>>),
}

/// The type of report that lines are for.
pub open spec fn lines_type(lines: ClassifiedLines) -> ReportType {
    match lines {
        ClassifiedLines::Balance(_) => ReportType::Balance,
        ClassifiedLines::Income(_) => ReportType::Income,
    }
}

/// What became of the lines of a parsed page.
#[derive(Debug)]
pub enum ParseReportOutcome {
    /// The lines parse into a report and were stored.
    Stored,
    /// The lines go to the user for editing before they are stored.
    Edit(ClassifiedLines),
}

/// Whether a raw report has a report of the given type.
pub open spec fn has_report(rr: RawReport, t: ReportType) -> bool {
    match t {
        ReportType::Balance => rr.balance is Some,
        ReportType::Income => rr.income is Some,
    }
}

/// The position of the raw report of `period` once it has one.
pub open spec fn slot_index(raw: Seq<(Period, RawReport)>, period: Period) -> int {
    period_index(with_slot(raw, period), period)->Some_0
}

/// A raw report with the lines of one type put in.
pub open spec fn with_lines(rr: RawReport, lines: ClassifiedLines) -> RawReport {
    match lines {
        ClassifiedLines::Balance(v) => RawReport { balance: Some(v), income: rr.income },
        ClassifiedLines::Income(v) => RawReport { balance: rr.balance, income: Some(v) },
    }
}

/// The raw reports with `lines` stored for `period`.
pub open spec fn stored(raw: Seq<(Period, RawReport)>, period: Period, lines: ClassifiedLines) -> Seq<(Period, RawReport)> {
    let s = with_slot(raw, period);
    let i = slot_index(raw, period);
    s.update(i, (period, with_lines(s[i].1, lines)))
}

impl CompanyInfo {
    /// Makes sure the company has a raw report for `period`, and that it has
    /// no report of type `report_type` yet. Gives the raw report's position.
    pub fn prepare_report_slot(&mut self, period: Period, report_type: ReportType) -> (r: Result<usize, CommandError>)
        ensures
            final(self).company_name() == old(self).company_name(),
            final(self).company_inn() == old(self).company_inn(),
            final(self).reports() == with_slot(old(self).reports(), period),
            slot_index(old(self).reports(), period) < final(self).reports().len(),
            r == (if has_report(final(self).reports()[slot_index(old(self).reports(), period)].1, report_type) {
                Err::<usize, CommandError>(CommandError::ReportAlreadyPresent(report_type))
            } else {
                Ok::<usize, CommandError>(slot_index(old(self).reports(), period) as usize)
            }),
    {
        let i = self.entry_index(period);
        let present = match report_type {
            ReportType::Balance => self.raw_reports()[i].1.balance.is_some(),
            ReportType::Income => self.raw_reports()[i].1.income.is_some(),
        };
        if present {
            Err(CommandError::ReportAlreadyPresent(report_type))
        } else {
            Ok(i)
        }
    }

    /// Stores lines as the report of their type for `period`, adding a raw
    /// report for the period when there is none.
    pub fn store_report_lines(&mut self, period: Period, lines: ClassifiedLines)
        ensures
            final(self).company_name() == old(self).company_name(),
            final(self).company_inn() == old(self).company_inn(),
            final(self).reports() == stored(old(self).reports(), period, lines),
    {
        let i = self.entry_index(period);
        let ghost s = self.reports();
        proof {
            crate::company::lemma_period_index_from(s, period, 0);
        }
        let rr = self.replace_report(i, RawReport::default());
        let updated = match lines {
            ClassifiedLines::Balance(v) => RawReport { balance: Some(v), income: rr.income },
            ClassifiedLines::Income(v) => RawReport { balance: rr.balance, income: Some(v) },
        };
        self.replace_report(i, updated);
        assert(self.reports() =~= s.update(i as int, (period, with_lines(s[i as int].1, lines))));
    }
}

/// Checks the lines of a parsed page and stores them for the period, or,
/// for an interactive parse, hands them back for editing. The period's raw
/// report is added first if it has none; a report of the same type must not
/// be there yet.
pub fn process_parse_report(args: &ParseReportArgs, company: &mut CompanyInfo, lines: ClassifiedLines) -> (r: Result<ParseReportOutcome, CommandError>)
    requires
        lines_type(lines) == args.report_type,
    ensures
        final(company).company_name() == old(company).company_name(),
        final(company).company_inn() == old(company).company_inn(),
        ({
            let raw1 = with_slot(old(company).reports(), args.period);
            let i = slot_index(old(company).reports(), args.period);
            if has_report(raw1[i].1, args.report_type) {
                r == Err::<ParseReportOutcome, CommandError>(CommandError::ReportAlreadyPresent(args.report_type))
                    && final(company).reports() == raw1
            } else if args.interactive {
                r == Ok::<ParseReportOutcome, CommandError>(ParseReportOutcome::Edit(lines))
                    && final(company).reports() == raw1
            } else {
                match lines {
                    ClassifiedLines::Balance(v) => match balance_report_of(v@) {
                        Err(e) => r == Err::<ParseReportOutcome, CommandError>(CommandError::Balance(e))
                            && final(company).reports() == raw1,
                        Ok(_) => r == Ok::<ParseReportOutcome, CommandError>(ParseReportOutcome::Stored)
                            && final(company).reports() == stored(old(company).reports(), args.period, lines),
                    },
                    ClassifiedLines::Income(v) => match income_report_of(v@) {
                        Err(e) => r == Err::<ParseReportOutcome, CommandError>(CommandError::Income(e))
                            && final(company).reports() == raw1,
                        Ok(_) => r == Ok::<ParseReportOutcome, CommandError>(ParseReportOutcome::Stored)
                            && final(company).reports() == stored(old(company).reports(), args.period, lines),
                    },
                }
            }
        }),
{
    company.prepare_report_slot(args.period, args.report_type)?;
    proof {
        lemma_slot_stable(old(company).reports(), args.period);
    }
    if args.interactive {
        return Ok(ParseReportOutcome::Edit(lines));
    }
    let checked = check_lines(&lines);
    match checked {
        Err(e) => Err(e),
        Ok(()) => {
            company.store_report_lines(args.period, lines);
            Ok(ParseReportOutcome::Stored)
        },
    }
}

/// Whether classified lines parse into a report of their type: `Ok` when
/// they do, otherwise the parse error.
pub open spec fn lines_check(lines: ClassifiedLines) -> Result<(), CommandError> {
    match lines {
        ClassifiedLines::Balance(v) => match balance_report_of(v@) {
            Err(e) => Err(CommandError::Balance(e)),
            Ok(_) => Ok(()),
        },
        ClassifiedLines::Income(v) => match income_report_of(v@) {
            Err(e) => Err(CommandError::Income(e)),
            Ok(_) => Ok(()),
        },
    }
}

/// Runs the batch parser of the lines' type on them.
fn check_lines(lines: &ClassifiedLines) -> (r: Result<(), CommandError>)
    ensures
        r == lines_check(*lines),
{
    let parser = ReportParser::new();
    match lines {
        ClassifiedLines::Balance(v) => match parser.parse_balance_report_batch(v) {
            Ok(_) => Ok(()),
            Err(e) => Err(CommandError::Balance(e)),
        },
        ClassifiedLines::Income(v) => match parser.parse_income_report_batch(v) {
            Ok(_) => Ok(()),
            Err(e) => Err(CommandError::Income(e)),
        },
    }
}

/// Stores lines for `period` once they parse into a report of their type;
/// leaves the company as it is when they do not.
pub fn store_checked_lines(company: &mut CompanyInfo, period: Period, lines: ClassifiedLines) -> (r: Result<(), CommandError>)
    ensures
        r == lines_check(lines),
        r is Ok ==> final(company).reports() == stored(old(company).reports(), period, lines)
            && final(company).company_name() == old(company).company_name()
            && final(company).company_inn() == old(company).company_inn(),
        r is Err ==> *final(company) == *old(company),
{
    match check_lines(&lines) {
        Err(e) => Err(e),
        Ok(()) => {
            company.store_report_lines(period, lines);
            Ok(())
        },
    }
}

/// Stores the lines that came back from editing a report, once they parse
/// into a report of the edited type; leaves the company as it is when they
/// do not, so that they can be edited again.
pub fn process_edited_report(args: &EditReportArgs, company: &mut CompanyInfo, edited: ClassifiedLines) -> (r: Result<(), CommandError>)
    requires
        lines_type(edited) == args.report_type,
    ensures
        r == lines_check(edited),
        r is Ok ==> final(company).reports() == stored(old(company).reports(), args.period, edited)
            && final(company).company_name() == old(company).company_name()
            && final(company).company_inn() == old(company).company_inn(),
        r is Err ==> *final(company) == *old(company),
{
    store_checked_lines(company, args.period, edited)
}

/// Raw reports with the same periods in the same places find a period at the
/// same place.
proof fn lemma_period_index_same_periods(a: Seq<(Period, RawReport)>, b: Seq<(Period, RawReport)>, period: Period, k: int)
    requires
        a.len() == b.len(),
        forall|j: int| 0 <= j < a.len() ==> (#[trigger] a[j]).0 == b[j].0,
        0 <= k,
    ensures
        crate::company::period_index_from(a, period, k) == crate::company::period_index_from(b, period, k),
    decreases a.len() - k,
{
    if k < a.len() {
        assert(a[k].0 == b[k].0);
        lemma_period_index_same_periods(a, b, period, k + 1);
    }
}

/// Storing back the lines that an edit took out, unchanged, gives the
/// company's reports as they were before the edit.
pub proof fn lemma_store_undoes_take(raw: Seq<(Period, RawReport)>, period: Period, t: ReportType)
    requires
        period_index(raw, period) matches Some(i) && has_report(raw[i].1, t),
    ensures
        ({
            let i = period_index(raw, period)->Some_0;
            let rr = raw[i].1;
            match t {
                ReportType::Balance => stored(
                    raw.update(i, (period, RawReport { balance: None, income: rr.income })),
                    period,
                    ClassifiedLines::Balance(rr.balance->Some_0),
                ) == raw,
                ReportType::Income => stored(
                    raw.update(i, (period, RawReport { balance: rr.balance, income: None })),
                    period,
                    ClassifiedLines::Income(rr.income->Some_0),
                ) == raw,
            }
        }),
{
    let i = period_index(raw, period)->Some_0;
    crate::company::lemma_period_index_from(raw, period, 0);
    let rr = raw[i].1;
    let taken = match t {
        ReportType::Balance => raw.update(i, (period, RawReport { balance: None, income: rr.income })),
        ReportType::Income => raw.update(i, (period, RawReport { balance: rr.balance, income: None })),
    };
    assert forall|j: int| 0 <= j < raw.len() implies (#[trigger] raw[j]).0 == taken[j].0 by {}
    lemma_period_index_same_periods(raw, taken, period, 0);
    assert(with_slot(taken, period) == taken);
    assert(slot_index(taken, period) == i);
    match t {
        ReportType::Balance => {
            assert(stored(taken, period, ClassifiedLines::Balance(rr.balance->Some_0)) =~= raw);
        },
        ReportType::Income => {
            assert(stored(taken, period, ClassifiedLines::Income(rr.income->Some_0)) =~= raw);
        },
    }
}

/// Adding the slot of a period a second time changes nothing.
proof fn lemma_slot_stable(raw: Seq<(Period, RawReport)>, period: Period)
    ensures
        with_slot(with_slot(raw, period), period) == with_slot(raw, period),
        slot_index(with_slot(raw, period), period) == slot_index(raw, period),
        forall|lines: ClassifiedLines| #[trigger] stored(with_slot(raw, period), period, lines) == stored(raw, period, lines),
{
    lemma_with_slot_has_period(raw, period);
}

/// Takes the lines of the report to edit out of the company, leaving no
/// report of that type for the period until they are stored again.
pub fn process_edit_report(args: &EditReportArgs, company: &mut CompanyInfo) -> (r: Result<ClassifiedLines, CommandError>)
    ensures
        final(company).company_name() == old(company).company_name(),
        final(company).company_inn() == old(company).company_inn(),
        match period_index(old(company).reports(), args.period) {
            None => r == Err::<ClassifiedLines, CommandError>(CommandError::NoReportForPeriod)
                && final(company).reports() == old(company).reports(),
            Some(i) => {
                let rr = old(company).reports()[i].1;
                match args.report_type {
                    ReportType::Balance => match rr.balance {
                        None => r == Err::<ClassifiedLines, CommandError>(CommandError::NoReportToEdit(ReportType::Balance))
                            && final(company).reports() == old(company).reports(),
                        Some(v) => r == Ok::<ClassifiedLines, CommandError>(ClassifiedLines::Balance(v))
                            && final(company).reports() == old(company).reports().update(
                            i,
                            (args.period, RawReport { balance: None, income: rr.income }),
                        ),
                    },
                    ReportType::Income => match rr.income {
                        None => r == Err::<ClassifiedLines, CommandError>(CommandError::NoReportToEdit(ReportType::Income))
                            && final(company).reports() == old(company).reports(),
                        Some(v) => r == Ok::<ClassifiedLines, CommandError>(ClassifiedLines::Income(v))
                            && final(company).reports() == old(company).reports().update(
                            i,
                            (args.period, RawReport { balance: rr.balance, income: None }),
                        ),
                    },
                }
            },
        },
{
    proof {
        crate::company::lemma_period_index_from(company.reports(), args.period, 0);
    }
    let i = match company.report_index(args.period) {
        Some(i) => i,
        None => {
            return Err(CommandError::NoReportForPeriod);
        },
    };
    let present = match args.report_type {
        ReportType::Balance => company.raw_reports()[i].1.balance.is_some(),
        ReportType::Income => company.raw_reports()[i].1.income.is_some(),
    };
    if !present {
        return Err(CommandError::NoReportToEdit(args.report_type));
    }
    let rr = company.replace_report(i, RawReport::default());
    match args.report_type {
        ReportType::Balance => {
            let RawReport { balance, income } = rr;
            company.replace_report(i, RawReport { balance: None, income });
            match balance {
                Some(v) => Ok(ClassifiedLines::Balance(v)),
                None => Err(CommandError::NoReportToEdit(ReportType::Balance)),
            }
        },
        ReportType::Income => {
            let RawReport { balance, income } = rr;
            company.replace_report(i, RawReport { balance, income: None });
            match income {
                Some(v) => Ok(ClassifiedLines::Income(v)),
                None => Err(CommandError::NoReportToEdit(ReportType::Income)),
            }
        },
    }
}

/// Teaches the balance and income title dictionaries the titles of the
/// companies' stored lines.
pub fn process_update_reports_dict(
    args: &UpdateReportsDictArgs,
    companies: &[CompanyInfo],
    balance_dict: &mut KeysDict<BalanceKeys>,
    income_dict: &mut KeysDict<IncomeKeys>,
)
    ensures
        final(balance_dict)@ == learn_lines(old(balance_dict)@, company_balance_lines(companies@), args.force),
        final(income_dict)@ == learn_lines(old(income_dict)@, company_income_lines(companies@), args.force),
{
    learn_balance_titles(balance_dict, companies, args.force);
    learn_income_titles(income_dict, companies, args.force);
}

} // verus!
