//! Trend backfill planning: how each of a report's three trend slots is
//! filled, with backfill bounded to one level.

use vstd::prelude::*;
use crate::model::{Period, Trend, ReportData};
use crate::calendar::{Date, Month};
use crate::queue::Locator;

verus! {

/// How one trend slot is filled.
#[derive(Clone, Copy, Debug, PartialEq, Eq, Structural)]
pub enum TrendStep {
    /// The earlier report exists: use its figures.
    Use(Trend),
    /// No report and no backfill: the slot stays zero.
    Zero,
    /// Generate the missing month report first, then use it.
    Backfill(Month),
}

/// A stored report fills a slot. A missing month report is generated, but
/// only by a run that is not itself a backfill; weeks are never backfilled.
pub open spec fn trend_step_of(period: Period, nested: bool, found: Option<Trend>, target: Month) -> TrendStep {
    match found {
        Some(t) => TrendStep::Use(t),
        None => if period == Period::Month && !nested {
            TrendStep::Backfill(target)
        } else {
            TrendStep::Zero
        },
    }
}

/// Decides how to fill one trend slot.
pub fn trend_step(period: Period, nested: bool, found: Option<Trend>, target: Month) -> (r: TrendStep)
    ensures
        r == trend_step_of(period, nested, found, target),
{
    match found {
        Some(t) => TrendStep::Use(t),
        None => if period == Period::Month && !nested {
            TrendStep::Backfill(target)
        } else {
            TrendStep::Zero
        },
    }
}

/// Backfill is bounded: a run started by a backfill never starts another,
/// and a week report never starts one.
pub proof fn law_backfill_depth_bounded(period: Period, nested: bool, found: Option<Trend>, target: Month)
    ensures
        nested || period == Period::Week ==> !(trend_step_of(period, nested, found, target) is Backfill),
{
}

/// The trend figures of an earlier report.
pub open spec fn trend_of_spec(r: ReportData) -> Trend {
    Trend { count: r.total_count, expense: r.total_expense }
}

pub fn trend_of(r: &ReportData) -> (t: Trend)
    ensures
        t == trend_of_spec(*r),
{
    Trend { count: r.total_count, expense: r.total_expense }
}

/// The zero trend of a slot without an earlier report.
pub fn zero_trend() -> (t: Trend)
    ensures
        t == (Trend { count: 0, expense: 0 }),
{
    Trend { count: 0, expense: 0 }
}

/// The anchor of a backfill run: the first day of the month.
pub fn backfill_anchor(m: Month) -> (r: Option<Date>)
    ensures
        r matches Some(d) ==> d.wf() && d == (Date { year: m.year, month: m.month, day: 1 }),
        r is None <==> !(Date { year: m.year, month: m.month, day: 1 }).wf(),
{
    Date::new(m.year, m.month, 1)
}

/// Where the report of `period` for `account` with document id `id` is
/// stored: the period's database, the account's collection.
pub fn report_locator(period: Period, account: &str, id: &str) -> (r: Locator)
    ensures
        r.store@ == "report_"@ + crate::model::period_name(period),
        r.collection@ == account@,
        r.id@ == id@,
{
    Locator {
        store: String::from_str(crate::queue::store_name(period)),
        collection: String::from_str(account),
        id: String::from_str(id),
    }
}

} // verus!
