//! A company and the reports kept for it.
use vstd::prelude::*;
use crate::balance_report::{BalanceReport, BalanceReportView};
use crate::income_report::{IncomeReport, IncomeReportView};
use crate::keys::{BalanceKeys, IncomeKeys, ParsedLineInfo};
use crate::period::{period_views, strictly_ascending, Period};
use crate::report_error::ParseError;
use crate::text_parser::{balance_report_of, income_report_of, ReportParser};

verus! {

/// The classified lines kept for one period: a balance report, an income
/// report, or both.
#[derive(Debug)]
pub struct RawReport {
    pub balance: Option<Vec<ParsedLineInfo<BalanceKeys>>>,
    pub income: Option<Vec<ParsedLineInfo<IncomeKeys>>>,
}

impl Default for RawReport {
    fn default() -> (r: RawReport)
        ensures
            r.balance is None,
            r.income is None,
    {
        RawReport { balance: None, income: None }
    }
}

/// A company, with its raw reports by period. No period has two raw
/// reports.
#[derive(Debug)]
pub struct CompanyInfo {
    name: String,
    inn: String,
    raw_reports: Vec<(Period, RawReport)>,
}

impl CompanyInfo {
    #[verifier::type_invariant]
    spec fn periods_distinct(self) -> bool {
        distinct_periods(self.raw_reports@)
    }

    /// The company's name.
    pub closed spec fn company_name(self) -> String {
        self.name
    }

    /// The company's INN.
    pub closed spec fn company_inn(self) -> String {
        self.inn
    }

    /// The raw reports, by period.
    pub closed spec fn reports(self) -> Seq<(Period, RawReport)> {
        self.raw_reports@
    }

    /// A company with no reports yet.
    pub fn new(name: String, inn: String) -> (r: CompanyInfo)
        ensures
            r.company_name() == name,
            r.company_inn() == inn,
            r.reports() == Seq::<(Period, RawReport)>::empty(),
    {
        CompanyInfo { name, inn, raw_reports: Vec::new() }
    }

    /// The company's name.
    pub fn name(&self) -> (r: &String)
        ensures
            *r == self.company_name(),
    {
        &self.name
    }

    /// The company's INN.
    pub fn inn(&self) -> (r: &String)
        ensures
            *r == self.company_inn(),
    {
        &self.inn
    }

    /// The raw reports, by period; no period occurs twice.
    pub fn raw_reports(&self) -> (r: &Vec<(Period, RawReport)>)
        ensures
            r@ == self.reports(),
            distinct_periods(r@),
    {
        proof {
            use_type_invariant(self);
        }
        &self.raw_reports
    }

    /// Replaces the raw report at `i`, keeping its period; gives the one it
    /// replaces.
    pub(crate) fn replace_report(&mut self, i: usize, rr: RawReport) -> (old_rr: RawReport)
        requires
            i < old(self).reports().len(),
        ensures
            old_rr == old(self).reports()[i as int].1,
            final(self).reports() == old(self).reports().update(i as int, (old(self).reports()[i as int].0, rr)),
            final(self).company_name() == old(self).company_name(),
            final(self).company_inn() == old(self).company_inn(),
    {
        proof {
            use_type_invariant(&*self);
        }
        let ghost before = self.raw_reports@;
        let mut raw: Vec<(Period, RawReport)> = Vec::new();
        std::mem::swap(&mut raw, &mut self.raw_reports);
        let (period, old_rr) = raw.remove(i);
        raw.insert(i, (period, rr));
        assert(raw@ =~= before.update(i as int, (before[i as int].0, rr)));
        assert(distinct_periods(raw@)) by {
            assert forall|a: int, b: int| 0 <= a < b < raw@.len() implies (#[trigger] raw@[a]).0 != (
            #[trigger] raw@[b]).0 by {
                assert(raw@[a].0 == before[a].0 && raw@[b].0 == before[b].0);
            }
        }
        self.raw_reports = raw;
        old_rr
    }
}

/// The parsed balance and income reports of one period.
#[derive(Debug)]
pub struct Report {
    pub balance: BalanceReport,
    pub income: IncomeReport,
}

/// The amounts of a [`Report`].
pub struct ReportView {
    pub balance: BalanceReportView,
    pub income: IncomeReportView,
}

impl View for Report {
    type V = ReportView;

    open spec fn view(&self) -> ReportView {
        ReportView { balance: self.balance@, income: self.income@ }
    }
}

/// Why the reports of a company cannot be built: the period whose report
/// fails, and how.
#[derive(Debug, Clone, Copy, PartialEq, Eq)]
pub enum BuildReportsError {
    Balance(Period, ParseError<BalanceKeys>),
    Income(Period, ParseError<IncomeKeys>),
}

/// The reports that raw reports give, in order. A period without a balance
/// report is skipped, and so is one without an income report once its
/// balance report has parsed. The first report that fails to parse fails
/// the whole.
pub open spec fn reports_of(raw: Seq<(Period, RawReport)>) -> Result<Seq<(Period, ReportView)>, BuildReportsError>
    decreases raw.len(),
{
    if raw.len() == 0 {
        Ok(Seq::empty())
    } else {
        match reports_of(raw.drop_last()) {
            Err(e) => Err(e),
            Ok(acc) => {
                let (period, rr) = raw.last();
                match rr.balance {
                    None => Ok(acc),
                    Some(b) => match balance_report_of(b@) {
                        Err(error) => Err(BuildReportsError::Balance(period, error)),
                        Ok(balance) => match rr.income {
                            None => Ok(acc),
                            Some(i) => match income_report_of(i@) {
                                Err(error) => Err(BuildReportsError::Income(period, error)),
                                Ok(income) => Ok(acc.push((period, ReportView { balance, income }))),
                            },
                        },
                    },
                }
            },
        }
    }
}

proof fn lemma_reports_of_err_extends(raw: Seq<(Period, RawReport)>, k: int)
    requires
        0 <= k <= raw.len(),
        reports_of(raw.take(k)) is Err,
    ensures
        reports_of(raw) == reports_of(raw.take(k)),
    decreases raw.len() - k,
{
    if k < raw.len() {
        assert(raw.take(k + 1).drop_last() =~= raw.take(k));
        lemma_reports_of_err_extends(raw, k + 1);
    } else {
        assert(raw.take(k) =~= raw);
    }
}

/// Whether built reports are what the specification gives, one for one.
pub open spec fn reports_match(got: Seq<(Period, Report)>, expected: Seq<(Period, ReportView)>) -> bool {
    &&& got.len() == expected.len()
    &&& forall|i: int| 0 <= i < got.len() ==> (#[trigger] got[i]).0 == expected[i].0 && got[i].1@ == expected[i].1
}

impl CompanyInfo {
    /// Parses the raw report of each period that has both a balance and an
    /// income report.
    pub fn build_reports(&self) -> (r: Result<Vec<(Period, Report)>, BuildReportsError>)
        ensures
            match reports_of(self.reports()) {
                Err(e) => r == Err::<Vec<(Period, Report)>, BuildReportsError>(e),
                Ok(expected) => r matches Ok(v) && reports_match(v@, expected),
            },
            r matches Ok(v) ==> distinct_periods(v@),
    {
        proof {
            use_type_invariant(self);
            lemma_reports_of_periods(self.raw_reports@);
        }
        let mut result: Vec<(Period, Report)> = Vec::new();
        let parser = ReportParser::new();
        let mut i: usize = 0;
        assert(self.raw_reports@.take(0) =~= Seq::<(Period, RawReport)>::empty());
        while i < self.raw_reports.len()
            invariant
                i <= self.raw_reports@.len(),
                reports_of(self.raw_reports@.take(i as int)) matches Ok(expected) && reports_match(
                    result@,
                    expected,
                ),
            decreases self.raw_reports@.len() - i,
        {
            let ghost prefix = self.raw_reports@.take(i + 1);
            assert(prefix.drop_last() =~= self.raw_reports@.take(i as int));
            assert(prefix.last() == self.raw_reports@[i as int]);
            let ghost before = result@;
            let (period, raw_report) = &self.raw_reports[i];
            match &raw_report.balance {
                None => {},
                Some(lines) => match parser.parse_balance_report_batch(lines) {
                    Err(error) => {
                        proof {
                            lemma_reports_of_err_extends(self.raw_reports@, i + 1);
                        }
                        return Err(BuildReportsError::Balance(*period, error));
                    },
                    Ok(balance) => match &raw_report.income {
                        None => {},
                        Some(lines) => match parser.parse_income_report_batch(lines) {
                            Err(error) => {
                                proof {
                                    lemma_reports_of_err_extends(self.raw_reports@, i + 1);
                                }
                                return Err(BuildReportsError::Income(*period, error));
                            },
                            Ok(income) => {
                                result.push((*period, Report { balance, income }));
                                assert forall|j: int| 0 <= j < before.len() implies result@[j] == before[j] by {}
                            },
                        },
                    },
                },
            }
            i = i + 1;
        }
        assert(self.raw_reports@.take(i as int) =~= self.raw_reports@);
        Ok(result)
    }
}

/// The position of the first raw report of `period` at or after `i`.
pub open spec fn period_index_from(raw: Seq<(Period, RawReport)>, period: Period, i: int) -> Option<int>
    decreases raw.len() - i,
{
    if i < 0 || i >= raw.len() {
        None
    } else if raw[i].0 == period {
        Some(i)
    } else {
        period_index_from(raw, period, i + 1)
    }
}

/// The position of the raw report of `period`, if the company has one.
pub open spec fn period_index(raw: Seq<(Period, RawReport)>, period: Period) -> Option<int> {
    period_index_from(raw, period, 0)
}

pub proof fn lemma_period_index_from(raw: Seq<(Period, RawReport)>, period: Period, i: int)
    requires
        0 <= i,
    ensures
        period_index_from(raw, period, i) matches Some(j) ==> i <= j < raw.len() && raw[j].0 == period,
        period_index_from(raw, period, i) is None ==> forall|j: int| i <= j < raw.len() ==> raw[j].0 != period,
    decreases raw.len() - i,
{
    if 0 <= i < raw.len() && raw[i].0 != period {
        lemma_period_index_from(raw, period, i + 1);
    }
}

impl CompanyInfo {
    /// The position of the raw report of `period`.
    pub fn report_index(&self, period: Period) -> (r: Option<usize>)
        ensures
            r matches Some(i) ==> period_index(self.reports(), period) == Some(i as int),
            r is None ==> period_index(self.reports(), period) is None,
    {
        let mut i: usize = 0;
        while i < self.raw_reports.len()
            invariant
                i <= self.raw_reports@.len(),
                period_index(self.raw_reports@, period) == period_index_from(self.raw_reports@, period, i as int),
            decreases self.raw_reports@.len() - i,
        {
            if self.raw_reports[i].0 == period {
                return Some(i);
            }
            i = i + 1;
        }
        None
    }

    /// The position of the raw report of `period`, adding an empty one at
    /// the end when there is none.
    pub fn entry_index(&mut self, period: Period) -> (r: usize)
        ensures
            final(self).company_name() == old(self).company_name(),
            final(self).company_inn() == old(self).company_inn(),
            final(self).reports() == with_slot(old(self).reports(), period),
            period_index(final(self).reports(), period) == Some(r as int),
            r < final(self).reports().len(),
    {
        proof {
            use_type_invariant(&*self);
            lemma_period_index_from(self.raw_reports@, period, 0);
            lemma_with_slot_distinct(self.raw_reports@, period);
        }
        match self.report_index(period) {
            Some(i) => i,
            None => {
                let ghost before = self.raw_reports@;
                let mut raw: Vec<(Period, RawReport)> = Vec::new();
                std::mem::swap(&mut raw, &mut self.raw_reports);
                let n = raw.len();
                raw.push((period, RawReport::default()));
                proof {
                    assert(raw@ =~= before.push((period, RawReport { balance: None, income: None })));
                    lemma_period_index_extends(raw@, period, n as int);
                }
                self.raw_reports = raw;
                n
            },
        }
    }
}

/// The raw reports with one for `period`: an empty one is added at the end
/// when there is none.
pub open spec fn with_slot(raw: Seq<(Period, RawReport)>, period: Period) -> Seq<(Period, RawReport)> {
    match period_index(raw, period) {
        Some(_) => raw,
        None => raw.push((period, RawReport { balance: None, income: None })),
    }
}

/// A report found after reports of other periods is the first of its period.
proof fn lemma_period_index_extends(raw: Seq<(Period, RawReport)>, period: Period, n: int)
    requires
        0 <= n < raw.len(),
        raw[n].0 == period,
        forall|j: int| 0 <= j < n ==> raw[j].0 != period,
    ensures
        period_index(raw, period) == Some(n),
{
    assert forall|k: int| 0 <= k <= n implies period_index_from(raw, period, k) == Some(n) by {
        lemma_period_index_walk(raw, period, n, k);
    }
}

proof fn lemma_period_index_walk(raw: Seq<(Period, RawReport)>, period: Period, n: int, k: int)
    requires
        0 <= k <= n < raw.len(),
        raw[n].0 == period,
        forall|j: int| 0 <= j < n ==> raw[j].0 != period,
    ensures
        period_index_from(raw, period, k) == Some(n),
    decreases n - k,
{
    if k < n {
        lemma_period_index_walk(raw, period, n, k + 1);
    }
}

/// Once a slot is added, the period has a raw report.
pub proof fn lemma_with_slot_has_period(raw: Seq<(Period, RawReport)>, period: Period)
    ensures
        period_index(with_slot(raw, period), period) is Some,
        with_slot(with_slot(raw, period), period) == with_slot(raw, period),
{
    lemma_period_index_from(raw, period, 0);
    if period_index(raw, period) is None {
        let s = raw.push((period, RawReport { balance: None, income: None }));
        assert forall|j: int| 0 <= j < raw.len() implies s[j].0 != period by {
            assert(s[j] == raw[j]);
        }
        lemma_period_index_extends(s, period, raw.len() as int);
    }
}

/// The periods that raw reports are kept for.
pub open spec fn raw_periods(raw: Seq<(Period, RawReport)>) -> Set<(i32, crate::period::PeriodType)> {
    Set::new(|v: (i32, crate::period::PeriodType)| exists|i: int| 0 <= i < raw.len() && raw[i].0@ == v)
}

impl CompanyInfo {
    /// The periods the company has raw reports for, in ascending order, each
    /// once.
    pub fn report_periods(&self) -> (r: Vec<Period>)
        ensures
            strictly_ascending(r@),
            period_views(r@) == raw_periods(self.reports()),
    {
        let mut out: Vec<Period> = Vec::new();
        let mut i: usize = 0;
        assert(period_views(out@) =~= raw_periods(self.raw_reports@.take(0)));
        while i < self.raw_reports.len()
            invariant
                i <= self.raw_reports@.len(),
                strictly_ascending(out@),
                period_views(out@) == raw_periods(self.raw_reports@.take(i as int)),
            decreases self.raw_reports@.len() - i,
        {
            let p = self.raw_reports[i].0;
            Period::insert_ascending(&mut out, p);
            proof {
                let raw = self.raw_reports@;
                let prefix = raw.take(i + 1);
                assert(raw_periods(prefix) =~= raw_periods(raw.take(i as int)).insert(p@)) by {
                    assert forall|v| raw_periods(prefix).contains(v) implies raw_periods(raw.take(i as int)).insert(
                        p@,
                    ).contains(v) by {
                        let k = choose|k: int| 0 <= k < prefix.len() && prefix[k].0@ == v;
                        if k < i {
                            assert(raw.take(i as int)[k] == prefix[k]);
                        }
                    }
                    assert forall|v| raw_periods(raw.take(i as int)).insert(p@).contains(v) implies raw_periods(
                        prefix,
                    ).contains(v) by {
                        if v == p@ {
                            assert(prefix[i as int] == raw[i as int]);
                        } else {
                            let k = choose|k: int| 0 <= k < i && raw.take(i as int)[k].0@ == v;
                            assert(prefix[k] == raw[k]);
                        }
                    }
                }
            }
            i = i + 1;
        }
        assert(self.raw_reports@.take(i as int) =~= self.raw_reports@);
        out
    }
}

/// Whether no period occurs twice.
pub open spec fn distinct_periods<V>(s: Seq<(Period, V)>) -> bool {
    forall|i: int, j: int| 0 <= i < j < s.len() ==> (#[trigger] s[i]).0 != (#[trigger] s[j]).0
}

/// Adding the slot of a period keeps the periods distinct.
pub proof fn lemma_with_slot_distinct(raw: Seq<(Period, RawReport)>, period: Period)
    requires
        distinct_periods(raw),
    ensures
        distinct_periods(with_slot(raw, period)),
{
    lemma_period_index_from(raw, period, 0);
    if period_index(raw, period) is None {
        let s = raw.push((period, RawReport { balance: None, income: None }));
        assert forall|i: int, j: int| 0 <= i < j < s.len() implies (#[trigger] s[i]).0 != (#[trigger] s[j]).0 by {
            if j == raw.len() {
                assert(s[i] == raw[i]);
            } else {
                assert(s[i] == raw[i] && s[j] == raw[j]);
            }
        }
    }
}

/// Every period of the built reports is a period of the raw reports, and no
/// period occurs twice in them when none does in the raw reports.
pub proof fn lemma_reports_of_periods(raw: Seq<(Period, RawReport)>)
    ensures
        reports_of(raw) matches Ok(v) ==> forall|j: int|
            0 <= j < v.len() ==> exists|k: int| 0 <= k < raw.len() && #[trigger] raw[k].0 == (#[trigger] v[j]).0,
        distinct_periods(raw) ==> (reports_of(raw) matches Ok(v) ==> distinct_periods(v)),
    decreases raw.len(),
{
    if raw.len() > 0 {
        let p = raw.drop_last();
        lemma_reports_of_periods(p);
        if let Ok(v) = reports_of(raw) {
            let acc = reports_of(p)->Ok_0;
            assert forall|j: int| 0 <= j < v.len() implies exists|k: int|
                0 <= k < raw.len() && #[trigger] raw[k].0 == (#[trigger] v[j]).0 by {
                if j < acc.len() {
                    assert(v[j] == acc[j]);
                    let k = choose|k: int| 0 <= k < p.len() && #[trigger] p[k].0 == acc[j].0;
                    assert(raw[k] == p[k]);
                } else {
                    assert(raw[raw.len() - 1].0 == v[j].0);
                }
            }
            if distinct_periods(raw) {
                assert(distinct_periods(p)) by {
                    assert forall|i: int, j: int| 0 <= i < j < p.len() implies (#[trigger] p[i]).0 != (#[trigger] p[j]).0 by {
                        assert(p[i] == raw[i] && p[j] == raw[j]);
                    }
                }
                assert forall|i: int, j: int| 0 <= i < j < v.len() implies (#[trigger] v[i]).0 != (#[trigger] v[j]).0 by {
                    if j < acc.len() {
                        assert(v[i] == acc[i] && v[j] == acc[j]);
                    } else {
                        assert(v[i] == acc[i]);
                        let k = choose|k: int| 0 <= k < p.len() && #[trigger] p[k].0 == acc[i].0;
                        assert(raw[k] == p[k]);
                        assert(raw[raw.len() - 1].0 == v[j].0);
                    }
                }
            }
        }
    }
}

} // verus!
