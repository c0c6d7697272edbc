//! Calendar dates and the canonical period labels that key stored reports.

use vstd::prelude::*;
use crate::model::Period;

verus! {

pub open spec fn is_leap(y: int) -> bool {
    (y % 4 == 0 && y % 100 != 0) || y % 400 == 0
}

pub open spec fn days_in_month(y: int, m: int) -> int {
    if m == 2 {
        if is_leap(y) {
            29
        } else {
            28
        }
    } else if m == 4 || m == 6 || m == 9 || m == 11 {
        30
    } else {
        31
    }
}

/// A day of the Gregorian calendar in years 1 to 9999, so that every label
/// has a four-digit year.
#[derive(Clone, Copy, Debug, PartialEq, Eq, Structural)]
pub struct Date {
    pub year: i32,
    pub month: u32,
    pub day: u32,
}

impl Date {
    pub open spec fn wf(&self) -> bool {
        &&& 1 <= self.year <= 9999
        &&& 1 <= self.month <= 12
        &&& 1 <= self.day <= days_in_month(self.year as int, self.month as int)
    }

    /// The date `year-month-day`, if it exists and its year is in range.
    pub fn new(year: i32, month: u32, day: u32) -> (r: Option<Date>)
        ensures
            r matches Some(d) ==> d.wf() && d == (Date { year, month, day }),
            r is None <==> !(Date { year, month, day }).wf(),
    {
        if year < 1 || year > 9999 || month < 1 || month > 12 || day < 1 {
            return None;
        }
        let leap = (year % 4 == 0 && year % 100 != 0) || year % 400 == 0;
        let days: u32 = if month == 2 {
            if leap {
                29
            } else {
                28
            }
        } else if month == 4 || month == 6 || month == 9 || month == 11 {
            30
        } else {
            31
        };
        if day > days {
            None
        } else {
            Some(Date { year, month, day })
        }
    }
}

/// A calendar month; years may reach back to 0 when walking back from
/// early dates.
#[derive(Clone, Copy, Debug, PartialEq, Eq, Structural)]
pub struct Month {
    pub year: i32,
    pub month: u32,
}

pub open spec fn month_ok(m: Month) -> bool {
    0 <= m.year <= 9999 && 1 <= m.month <= 12
}

pub open spec fn prev_month_of(m: Month) -> Month {
    if m.month == 1 {
        Month { year: (m.year - 1) as i32, month: 12 }
    } else {
        Month { year: m.year, month: (m.month - 1) as u32 }
    }
}

/// The month `n` months before `m`.
pub open spec fn months_before(m: Month, n: nat) -> Month
    decreases n,
{
    if n == 0 {
        m
    } else {
        prev_month_of(months_before(m, (n - 1) as nat))
    }
}

/// The month before `m`.
pub fn prev_month(m: Month) -> (r: Month)
    requires
        month_ok(m),
        m.year >= 1 || m.month > 1,
    ensures
        r == prev_month_of(m),
        month_ok(r),
{
    if m.month == 1 {
        Month { year: m.year - 1, month: 12 }
    } else {
        Month { year: m.year, month: m.month - 1 }
    }
}

pub open spec fn digit_text(d: int) -> Seq<char> {
    if d == 0 {
        "0"@
    } else if d == 1 {
        "1"@
    } else if d == 2 {
        "2"@
    } else if d == 3 {
        "3"@
    } else if d == 4 {
        "4"@
    } else if d == 5 {
        "5"@
    } else if d == 6 {
        "6"@
    } else if d == 7 {
        "7"@
    } else if d == 8 {
        "8"@
    } else {
        "9"@
    }
}

/// `n` in decimal, zero-padded (or cut) to its last `w` digits.
pub open spec fn padded(n: nat, w: nat) -> Seq<char>
    decreases w,
{
    if w == 0 {
        Seq::empty()
    } else {
        padded(n / 10, (w - 1) as nat) + digit_text((n % 10) as int)
    }
}

fn digit(d: u32) -> (r: &'static str)
    requires
        d < 10,
    ensures
        r@ == digit_text(d as int),
{
    if d == 0 {
        "0"
    } else if d == 1 {
        "1"
    } else if d == 2 {
        "2"
    } else if d == 3 {
        "3"
    } else if d == 4 {
        "4"
    } else if d == 5 {
        "5"
    } else if d == 6 {
        "6"
    } else if d == 7 {
        "7"
    } else if d == 8 {
        "8"
    } else {
        "9"
    }
}

/// The last `w` decimal digits of `n`, zero-padded.
pub fn pad(n: u32, w: u32) -> (r: String)
    ensures
        r@ == padded(n as nat, w as nat),
    decreases w,
{
    if w == 0 {
        String::new()
    } else {
        let mut r = pad(n / 10, w - 1);
        r.append(digit(n % 10));
        r
    }
}

/// The label of a month report: year and month, `YYYYMM`.
pub open spec fn month_label_of(m: Month) -> Seq<char> {
    padded(m.year as nat, 4) + padded(m.month as nat, 2)
}

pub fn month_label(m: Month) -> (r: String)
    requires
        month_ok(m),
    ensures
        r@ == month_label_of(m),
{
    let mut r = pad(m.year as u32, 4);
    r.append(pad(m.month, 2).as_str());
    r
}

/// The first day of a month, `YYYY-MM-01`, as the upstream's month filter.
pub open spec fn month_filter_of(m: Month) -> Seq<char> {
    padded(m.year as nat, 4) + "-"@ + padded(m.month as nat, 2) + "-01"@
}

pub fn month_filter(m: Month) -> (r: String)
    requires
        month_ok(m),
    ensures
        r@ == month_filter_of(m),
{
    let mut r = pad(m.year as u32, 4);
    r.append("-");
    r.append(pad(m.month, 2).as_str());
    r.append("-01");
    r
}

/// The label of the week (Sunday-first week of the year, `%Y%U`) of the day
/// `days_back` days before `year-month-day`, if that day exists.
pub uninterp spec fn week_label_of(year: int, month: int, day: int, days_back: int) -> Option<Seq<char>>;

/// Relies on chrono's `NaiveDate::from_ymd_opt` and
/// `NaiveDate::checked_sub_days`, which step back over calendar days, and on
/// its `%Y%U` format for the week label.
#[verifier::external_body]
fn week_label(d: &Date, days_back: u64) -> (r: Option<String>)
    ensures
        r matches Some(s) ==> week_label_of(d.year as int, d.month as int, d.day as int, days_back as int)
            == Some(s@),
        r is None ==> week_label_of(d.year as int, d.month as int, d.day as int, days_back as int) is None,
{
    match chrono::NaiveDate::from_ymd_opt(d.year, d.month, d.day) {
        Some(n) => match n.checked_sub_days(chrono::Days::new(days_back)) {
            Some(p) => Some(p.format("%Y%U").to_string()),
            None => None,
        },
        None => None,
    }
}

/// The month a date lies in.
pub open spec fn month_of(d: Date) -> Month {
    Month { year: d.year, month: d.month }
}

/// The label under which the report of `period` at `anchor` is stored.
pub open spec fn period_label_of(period: Period, anchor: Date) -> Option<Seq<char>> {
    match period {
        Period::Week => week_label_of(anchor.year as int, anchor.month as int, anchor.day as int, 0),
        Period::Month => Some(month_label_of(month_of(anchor))),
    }
}

/// The label of the report of `period` at `anchor`.
pub fn period_label(period: Period, anchor: &Date) -> (r: Option<String>)
    requires
        anchor.wf(),
    ensures
        r matches Some(s) ==> period_label_of(period, *anchor) == Some(s@),
        r is None ==> period_label_of(period, *anchor) is None,
{
    match period {
        Period::Week => week_label(anchor, 0),
        Period::Month => Some(month_label(Month { year: anchor.year, month: anchor.month })),
    }
}

/// The labels of the three periods before `anchor`, most recent first: the
/// weeks 7, 14 and 21 days earlier, or the three preceding months.
pub open spec fn trend_label_of(period: Period, anchor: Date, i: int) -> Option<Seq<char>> {
    match period {
        Period::Week => week_label_of(anchor.year as int, anchor.month as int, anchor.day as int, 7 * (i + 1)),
        Period::Month => Some(month_label_of(months_before(month_of(anchor), (i + 1) as nat))),
    }
}

/// The month `i + 1` months before the anchor's month.
pub open spec fn trend_month_of(anchor: Date, i: int) -> Month {
    months_before(month_of(anchor), (i + 1) as nat)
}

/// The month of trend slot `i`: `i + 1` months before the anchor's month.
pub fn trend_month(anchor: &Date, i: u64) -> (r: Month)
    requires
        anchor.wf(),
        i < 3,
    ensures
        r == trend_month_of(*anchor, i as int),
        month_ok(r),
{
    let mut m = Month { year: anchor.year, month: anchor.month };
    let mut k: u64 = 0;
    while k <= i
        invariant
            anchor.wf(),
            i < 3,
            k <= i + 1,
            m == months_before(month_of(*anchor), k as nat),
        decreases i + 1 - k,
    {
        proof {
            lemma_months_before_year(month_of(*anchor), k as nat);
        }
        m = prev_month(m);
        k = k + 1;
    }
    proof {
        lemma_months_before_year(month_of(*anchor), k as nat);
    }
    m
}

/// The labels of the three earlier periods that make up a report's trend.
pub fn trend_labels(period: Period, anchor: &Date) -> (r: Vec<Option<String>>)
    requires
        anchor.wf(),
    ensures
        r@.len() == 3,
        forall|i: int|
            0 <= i < 3 ==> match #[trigger] r@[i] {
                Some(s) => trend_label_of(period, *anchor, i) == Some(s@),
                None => trend_label_of(period, *anchor, i) is None,
            },
{
    let mut r: Vec<Option<String>> = Vec::new();
    let mut m = Month { year: anchor.year, month: anchor.month };
    let mut i: u64 = 0;
    while i < 3
        invariant
            anchor.wf(),
            i <= 3,
            r@.len() == i,
            m == months_before(month_of(*anchor), i as nat),
            forall|k: int|
                0 <= k < i ==> match #[trigger] r@[k] {
                    Some(s) => trend_label_of(period, *anchor, k) == Some(s@),
                    None => trend_label_of(period, *anchor, k) is None,
                },
        decreases 3 - i,
    {
        proof {
            lemma_months_before_year(month_of(*anchor), i as nat);
        }
        m = prev_month(m);
        let label = match period {
            Period::Week => week_label(anchor, 7 * (i + 1)),
            Period::Month => Some(month_label(m)),
        };
        r.push(label);
        i = i + 1;
    }
    r
}

proof fn lemma_months_before_year(m: Month, n: nat)
    requires
        month_ok(m),
        m.year >= 1,
        n <= 3,
    ensures
        month_ok(months_before(m, n)),
        months_before(m, n).year == m.year || (months_before(m, n).year == m.year - 1
            && months_before(m, n).month + n >= 13),
    decreases n,
{
    if n > 0 {
        lemma_months_before_year(m, (n - 1) as nat);
    }
}

/// The months from which the report of `period` at `anchor` is requested:
/// the week filter, or the first day of the anchor's month.
pub open spec fn date_filter_of(period: Period, anchor: Date) -> Seq<char> {
    match period {
        Period::Week => "3"@,
        Period::Month => month_filter_of(month_of(anchor)),
    }
}

/// The upstream's date filter for the report of `period` at `anchor`.
pub fn date_filter(period: Period, anchor: &Date) -> (r: String)
    requires
        anchor.wf(),
    ensures
        r@ == date_filter_of(period, *anchor),
{
    match period {
        Period::Week => String::from_str("3"),
        Period::Month => month_filter(Month { year: anchor.year, month: anchor.month }),
    }
}

} // verus!
