//! The transaction aggregator: it walks the upstream's pages, books each
//! transaction line and produces the report document.

use vstd::prelude::*;
use crate::model::{Category, Meal, WorkerError, Trend, Expense, Trans, ReportData};
use crate::page::{RawPage, page_valid, code_is_zero, int_field, line_matches, validate_page};
use crate::ledger::{
    Transaction, Posted, is_topup, count_where, total_where, topups, expenses, in_category,
    from_merchant, meal_slot, meal_index, in_meal, top_expense, top_merchant, booked_category,
    consistently_booked, totals_fit, fits_i64, fits_u64, lemma_push_all, lemma_booked_found, lemma_categories_partition,
};

verus! {

/// Running count and amount of one merchant.
pub struct Tally {
    pub name: String,
    pub count: u64,
    pub amount: i64,
}

/// A merchant account and the category its expenses are booked under.
pub struct Booking {
    pub acc: String,
    pub category: Category,
}

/// What an aggregation run has done so far.
pub struct AggregationView {
    /// The balance, once the first page has been read.
    pub balance: Option<i64>,
    /// The cursor of the next page to request.
    pub cursor: Seq<char>,
    /// Whether the upstream has signalled the last page.
    pub done: bool,
    /// The transactions booked so far, in order.
    pub posted: Seq<Posted>,
}

/// State of one aggregation run over one account and period.
pub struct Aggregation {
    balance: Option<i64>,
    cursor: String,
    done: bool,
    total_topup: i64,
    expenses: Meal,
    cafeteria: Meal,
    groceries: Meal,
    logistics: Meal,
    other: Meal,
    breakfast: Meal,
    lunch: Meal,
    dinner: Meal,
    midnight_snack: Meal,
    top_expense: Option<Transaction>,
    top_count: Option<Tally>,
    tallies: Vec<Tally>,
    bookings: Vec<Booking>,
    posted: Ghost<Seq<Posted>>,
}

/// `m` holds the count and total of the transactions of `h` that satisfy `p`.
pub open spec fn counts(m: Meal, h: Seq<Posted>, p: spec_fn(Posted) -> bool) -> bool {
    m.count == count_where(h, p) && m.amount == total_where(h, p)
}

/// The category a transaction is booked under: the account's earlier
/// category if the run has one, else the resolved one.
pub open spec fn chosen_category(h: Seq<Posted>, t: Transaction, resolved: Category) -> Category {
    match booked_category(h, t.merchant_acc@) {
        Some(c) => c,
        None => resolved,
    }
}

/// The balance that a first page reports: its first line's, or zero.
pub open spec fn first_balance(p: RawPage) -> i64 {
    if p.lines@.len() > 0 {
        match int_field(p.lines@[0].cardbal) {
            Some(b) => b,
            None => 0,
        }
    } else {
        0
    }
}

/// `r` is the report of a run in state `v`, under label `date` with `trend`:
/// each figure is the fold over the posted transactions that it names.
pub open spec fn report_matches(r: ReportData, v: AggregationView, date: Seq<char>, trend: [Trend; 3]) -> bool {
    let h = v.posted;
    &&& r.date@ == date
    &&& r.balance == match v.balance {
        Some(b) => b,
        None => 0,
    }
    &&& r.total_expense == total_where(h, expenses())
    &&& r.total_count == count_where(h, expenses())
    &&& r.total_topup == total_where(h, topups())
    &&& r.trend == trend
    &&& counts(Meal { count: r.cafeteria_count, amount: r.cafeteria_amount }, h, in_category(Category::Cafeteria))
    &&& counts(Meal { count: r.groceries_count, amount: r.groceries_amount }, h, in_category(Category::Groceries))
    &&& counts(Meal { count: r.logistics_count, amount: r.logistics_amount }, h, in_category(Category::Logistics))
    &&& counts(Meal { count: r.other_count, amount: r.other_amount }, h, in_category(Category::Other))
    &&& counts(r.breakfast, h, in_meal(0))
    &&& counts(r.lunch, h, in_meal(1))
    &&& counts(r.dinner, h, in_meal(2))
    &&& counts(r.midnight_snack, h, in_meal(3))
    &&& match top_expense(h) {
        Some(t) => r.top_expense.time@ == t.time_text@ && r.top_expense.location@ == t.merchant@
            && r.top_expense.amount == t.amount,
        None => r.top_expense.time@.len() == 0 && r.top_expense.location@.len() == 0
            && r.top_expense.amount == 0,
    }
    &&& match top_merchant(h) {
        Some(l) => r.top_count.location@ == l.0 && r.top_count.amount == l.1 && r.top_count.count == l.2,
        None => r.top_count.location@.len() == 0 && r.top_count.amount == 0 && r.top_count.count == 0,
    }
}

impl View for Aggregation {
    type V = AggregationView;

    closed spec fn view(&self) -> AggregationView {
        AggregationView {
            balance: self.balance,
            cursor: self.cursor@,
            done: self.done,
            posted: self.posted@,
        }
    }
}

impl Aggregation {
    /// The run's invariant: every counter is the fold that it names.
    pub closed spec fn wf(&self) -> bool {
        let h = self.posted@;
        &&& self.counters_ok(h)
        &&& self.leaders_ok(h)
        &&& self.tallies_ok(h)
        &&& self.bookings_ok(h)
    }

    closed spec fn counters_ok(&self, h: Seq<Posted>) -> bool {
        &&& totals_fit(h)
        &&& self.total_topup == total_where(h, topups())
        &&& counts(self.expenses, h, expenses())
        &&& counts(self.cafeteria, h, in_category(Category::Cafeteria))
        &&& counts(self.groceries, h, in_category(Category::Groceries))
        &&& counts(self.logistics, h, in_category(Category::Logistics))
        &&& counts(self.other, h, in_category(Category::Other))
        &&& counts(self.breakfast, h, in_meal(0))
        &&& counts(self.lunch, h, in_meal(1))
        &&& counts(self.dinner, h, in_meal(2))
        &&& counts(self.midnight_snack, h, in_meal(3))
    }

    closed spec fn leaders_ok(&self, h: Seq<Posted>) -> bool {
        &&& self.top_expense == top_expense(h)
        &&& match (self.top_count, top_merchant(h)) {
            (None, None) => true,
            (Some(t), Some(l)) => t.name@ == l.0 && t.amount == l.1 && t.count == l.2,
            _ => false,
        }
    }

    closed spec fn tallies_ok(&self, h: Seq<Posted>) -> bool {
        tallies_inv(self.tallies@, h)
    }

    closed spec fn bookings_ok(&self, h: Seq<Posted>) -> bool {
        bookings_inv(self.bookings@, h)
    }

    /// A run that has read nothing; the first page has cursor `1`.
    pub fn new() -> (r: Aggregation)
        ensures
            r.wf(),
            r@.balance is None,
            r@.cursor == "1"@,
            !r@.done,
            r@.posted == Seq::<Posted>::empty(),
    {
        let zero = Meal { count: 0, amount: 0 };
        let r = Aggregation {
            balance: None,
            cursor: String::from_str("1"),
            done: false,
            total_topup: 0,
            expenses: zero,
            cafeteria: zero,
            groceries: zero,
            logistics: zero,
            other: zero,
            breakfast: zero,
            lunch: zero,
            dinner: zero,
            midnight_snack: zero,
            top_expense: None,
            top_count: None,
            tallies: Vec::new(),
            bookings: Vec::new(),
            posted: Ghost(Seq::empty()),
        };
        r
    }

    /// The category that this run has booked the merchant account under.
    pub fn known_category(&self, acc: &str) -> (r: Option<Category>)
        requires
            self.wf(),
        ensures
            r == booked_category(self@.posted, acc@),
    {
        let mut i: usize = 0;
        while i < self.bookings.len()
            invariant
                self.wf(),
                i <= self.bookings@.len(),
                forall|k: int| 0 <= k < i ==> #[trigger] self.bookings@[k].acc@ != acc@,
            decreases self.bookings@.len() - i,
        {
            if crate::text::same_text(self.bookings[i].acc.as_str(), acc) {
                return Some(self.bookings[i].category);
            }
            i = i + 1;
        }
        None
    }

    #[verifier::rlimit(100)]
    #[verifier::spinoff_prover]
    /// Books one transaction line. An expense at a merchant account that the
    /// run has already booked keeps that account's category; otherwise
    /// `resolved` is used. When a statistic would leave its machine integer
    /// the line is refused and nothing changes.
    pub fn post(&mut self, t: Transaction, resolved: Category) -> (r: Result<Category, WorkerError>)
        requires
            old(self).wf(),
        ensures
            final(self).wf(),
            r is Ok <==> totals_fit(
                old(self)@.posted.push((t, chosen_category(old(self)@.posted, t, resolved))),
            ),
            r matches Ok(c) ==> c == chosen_category(old(self)@.posted, t, resolved)
                && final(self)@ == (AggregationView { posted: old(self)@.posted.push((t, c)), ..old(self)@ }),
            r is Err ==> final(self)@ == old(self)@ && r matches Err(WorkerError::ParseError(_)),
    {
        let known = self.known_category(t.merchant_acc.as_str());
        let cat = match known {
            Some(c) => c,
            None => resolved,
        };
        let ghost h = self.posted@;
        let ghost e: Posted = (t, cat);
        let ghost h2 = h.push(e);
        proof {
            lemma_push_all(h, e);
            lemma_booked_found(h, t.merchant_acc@);
        }
        if t.signed_amount > 0 {
            let a = self.total_topup as i128 + t.amount as i128;
            if a < i64::MIN as i128 || a > i64::MAX as i128 {
                assert(total_where(h2, topups()) == total_where(h, topups()) + t.amount);
                return Err(overflow());
            }
            self.total_topup = a as i64;
            self.posted = Ghost(h2);
            proof {
                assert(top_expense(h2) == top_expense(h));
                assert(top_merchant(h2) == top_merchant(h));
                assert forall|acc: Seq<char>| #[trigger] booked_category(h2, acc) == booked_category(h, acc) by {}
                assert forall|i: int| 0 <= i < h.len() implies #[trigger] h2[i] == h[i] by {}
                assert(total_where(h2, topups()) == total_where(h, topups()) + t.amount);
                assert(self.counters_ok(h2));
                assert(self.leaders_ok(h2));
                assert(self.tallies_ok(h2)) by {
                    assert forall|i: int| 0 <= i < self.tallies@.len() implies {
                        let x = #[trigger] self.tallies@[i];
                        x.count == count_where(h2, from_merchant(x.name@)) && x.amount == total_where(h2, from_merchant(x.name@))
                    } by {}
                }
                assert(self.bookings_ok(h2)) by {
                    assert forall|i: int| 0 <= i < self.bookings@.len() implies booked_category(
                        h2, #[trigger] self.bookings@[i].acc@) == Some(self.bookings@[i].category) by {}
                }
            }
            return Ok(cat);
        }
        let ne = match bump(self.expenses, t.amount) {
            Some(m) => m,
            None => {
                assert(count_where(h2, expenses()) == count_where(h, expenses()) + 1);
                assert(total_where(h2, expenses()) == total_where(h, expenses()) + t.amount);
                return Err(overflow());
            },
        };
        let bucket = match cat {
            Category::Cafeteria => self.cafeteria,
            Category::Groceries => self.groceries,
            Category::Logistics => self.logistics,
            Category::Other => self.other,
        };
        let nb = match bump(bucket, t.amount) {
            Some(m) => m,
            None => {
                assert(count_where(h2, in_category(cat)) == count_where(h, in_category(cat)) + 1);
                assert(total_where(h2, in_category(cat)) == total_where(h, in_category(cat)) + t.amount);
                assert(!crate::ledger::fits_counter(h2, in_category(cat)));
                return Err(overflow());
            },
        };
        let slot = if cat == Category::Cafeteria {
            meal_index(t.time)
        } else {
            None
        };
        let nm = match slot {
            Some(k) => {
                let m = if k == 0 {
                    self.breakfast
                } else if k == 1 {
                    self.lunch
                } else if k == 2 {
                    self.dinner
                } else {
                    self.midnight_snack
                };
                match bump(m, t.amount) {
                    Some(m) => Some(m),
                    None => {
                        assert(count_where(h2, in_meal(k as int)) == count_where(h, in_meal(k as int)) + 1);
                        assert(total_where(h2, in_meal(k as int)) == total_where(h, in_meal(k as int)) + t.amount);
                        assert(!crate::ledger::fits_counter(h2, in_meal(k as int)));
                        return Err(overflow());
                    },
                }
            },
            None => None,
        };
        let ti = self.find_tally(t.merchant.as_str());
        let old_tally = match ti {
            Some(i) => Meal { count: self.tallies[i].count, amount: self.tallies[i].amount },
            None => Meal { count: 0, amount: 0 },
        };
        assert(counts(old_tally, h, from_merchant(t.merchant@)));
        let nt = match bump(old_tally, t.amount) {
            Some(m) => m,
            None => {
                assert(count_where(h2, from_merchant(t.merchant@)) == count_where(h, from_merchant(t.merchant@)) + 1);
                assert(total_where(h2, from_merchant(t.merchant@)) == total_where(h, from_merchant(t.merchant@)) + t.amount);
                assert(!crate::ledger::fits_counter(h2, from_merchant(t.merchant@)));
                return Err(overflow());
            },
        };
        proof {
            assert(totals_fit(h2)) by {
                assert forall|c: Category| crate::ledger::fits_counter(h2, #[trigger] in_category(c)) by {
                    if c != cat {
                        assert(count_where(h2, in_category(c)) == count_where(h, in_category(c)));
                        assert(total_where(h2, in_category(c)) == total_where(h, in_category(c)));
                    }
                }
                assert forall|k: int| crate::ledger::fits_counter(h2, #[trigger] in_meal(k)) by {
                    assert(count_where(h2, in_meal(k)) == count_where(h, in_meal(k)) + if in_meal(k)(e) { 1int } else { 0int });
                    assert(total_where(h2, in_meal(k)) == total_where(h, in_meal(k)) + if in_meal(k)(e) { t.amount as int } else { 0int });
                }
                assert forall|name: Seq<char>| crate::ledger::fits_counter(h2, #[trigger] from_merchant(name)) by {
                    assert(count_where(h2, from_merchant(name)) == count_where(h, from_merchant(name)) + if from_merchant(name)(e) { 1int } else { 0int });
                    assert(total_where(h2, from_merchant(name)) == total_where(h, from_merchant(name)) + if from_merchant(name)(e) { t.amount as int } else { 0int });
                }
            }
        }
        self.expenses = ne;
        match cat {
            Category::Cafeteria => self.cafeteria = nb,
            Category::Groceries => self.groceries = nb,
            Category::Logistics => self.logistics = nb,
            Category::Other => self.other = nb,
        }
        match (slot, nm) {
            (Some(0), Some(m)) => self.breakfast = m,
            (Some(1), Some(m)) => self.lunch = m,
            (Some(2), Some(m)) => self.dinner = m,
            (Some(_), Some(m)) => self.midnight_snack = m,
            _ => {},
        }
        let leader = match &self.top_count {
            Some(l) => l.count,
            None => 0,
        };
        if nt.count > leader {
            self.top_count = Some(Tally { name: t.merchant.clone(), count: nt.count, amount: nt.amount });
        }
        match ti {
            Some(i) => {
                self.tallies.set(i, Tally { name: t.merchant.clone(), count: nt.count, amount: nt.amount });
            },
            None => {
                self.tallies.push(Tally { name: t.merchant.clone(), count: nt.count, amount: nt.amount });
            },
        }
        let top = match &self.top_expense {
            Some(x) => x.amount,
            None => 0,
        };
        if t.amount > top {
            self.top_expense = Some(t.copy());
        }
        if known.is_none() {
            self.bookings.push(Booking { acc: t.merchant_acc.clone(), category: cat });
        }
        self.posted = Ghost(h2);
        proof {
            assert(e.0 == t && e.1 == cat);
            assert(!is_topup(t));
            let mk: int = match slot {
                Some(k) => k as int,
                None => -1,
            };
            assert forall|k: int| in_meal(k)(e) <==> (slot is Some && k == mk) by {
                if cat == Category::Cafeteria {
                    assert(in_meal(k)(e) == (meal_slot(t.time as int) == Some(k)));
                } else {
                    assert(!in_meal(k)(e));
                }
            }
            assert(self.counters_ok(h2)) by {
                assert forall|c: Category| #[trigger] count_where(h2, in_category(c)) == count_where(h, in_category(c)) + if c == cat { 1int } else { 0int } by {}
                assert forall|c: Category| #[trigger] total_where(h2, in_category(c)) == total_where(h, in_category(c)) + if c == cat { t.amount as int } else { 0int } by {}
                assert forall|k: int| #[trigger] count_where(h2, in_meal(k)) == count_where(h, in_meal(k)) + if slot is Some && k == mk { 1int } else { 0int } by {}
                assert forall|k: int| #[trigger] total_where(h2, in_meal(k)) == total_where(h, in_meal(k)) + if slot is Some && k == mk { t.amount as int } else { 0int } by {}
            }
            assert(self.leaders_ok(h2));
            match ti {
                Some(i) => lemma_tally_updated(old(self).tallies@, self.tallies@, h, e, i as int, self.tallies@[i as int]),
                None => lemma_tally_added(old(self).tallies@, self.tallies@, h, e, self.tallies@.last()),
            }
            if known is None {
                assert(self.bookings@.drop_last() =~= old(self).bookings@);
            }
            lemma_bookings_step(old(self).bookings@, self.bookings@, h, e, known);
        }
        Ok(cat)
    }

    /// Takes in one upstream page: the balance comes from the first page
    /// only (its first line, or zero on an empty page), the cursor moves to
    /// the page's next-page value, and the listing ends when that value is
    /// `0`. The page's transactions are handed back for booking; on an
    /// invalid page nothing changes.
    pub fn accept_page(&mut self, p: &RawPage) -> (r: Result<Vec<Transaction>, WorkerError>)
        requires
            old(self).wf(),
        ensures
            final(self).wf(),
            r is Ok <==> page_valid(*p),
            p.retcode is None ==> r matches Err(WorkerError::ParseError(_)),
            p.retcode is Some && !code_is_zero(p.retcode) ==> (r matches Err(
                WorkerError::CardSystemError(m),
            ) && m@ == match p.errmsg {
                Some(e) => e@,
                None => Seq::<char>::empty(),
            }),
            code_is_zero(p.retcode) && !page_valid(*p) ==> r matches Err(WorkerError::ParseError(_)),
            r is Err ==> final(self)@ == old(self)@,
            r matches Ok(lines) ==> {
                &&& lines@.len() == p.lines@.len()
                &&& forall|i: int| 0 <= i < lines@.len() ==> line_matches(p.lines@[i], #[trigger] lines@[i])
                &&& p.nextpage matches Some(n) && final(self)@.cursor == n@
                &&& final(self)@.done == (final(self)@.cursor == "0"@)
                &&& final(self)@.posted == old(self)@.posted
                &&& final(self)@.balance == match old(self)@.balance {
                    Some(b) => Some(b),
                    None => Some(first_balance(*p)),
                }
            },
    {
        let q = validate_page(p)?;
        if self.balance.is_none() {
            self.balance = Some(match q.balance {
                Some(b) => b,
                None => 0,
            });
        }
        self.done = crate::text::same_text(q.next.as_str(), "0");
        self.cursor = q.next;
        Ok(q.lines)
    }

    /// The report document of the run so far, under the period label `date`
    /// and with the given trend.
    pub fn finish(&self, date: String, trend: [Trend; 3]) -> (r: ReportData)
        requires
            self.wf(),
        ensures
            report_matches(r, self@, date@, trend),
            r.balanced(),
    {
        let top_expense = match &self.top_expense {
            Some(t) => Expense { time: t.time_text.clone(), location: t.merchant.clone(), amount: t.amount },
            None => Expense { time: String::new(), location: String::new(), amount: 0 },
        };
        let top_count = match &self.top_count {
            Some(t) => Trans { location: t.name.clone(), amount: t.amount, count: t.count },
            None => Trans { location: String::new(), amount: 0, count: 0 },
        };
        proof {
            lemma_categories_partition(self.posted@);
        }
        ReportData {
            date,
            balance: match self.balance {
                Some(b) => b,
                None => 0,
            },
            total_expense: self.expenses.amount,
            total_topup: self.total_topup,
            total_count: self.expenses.count,
            top_expense,
            top_count,
            trend,
            cafeteria_count: self.cafeteria.count,
            cafeteria_amount: self.cafeteria.amount,
            groceries_count: self.groceries.count,
            groceries_amount: self.groceries.amount,
            logistics_count: self.logistics.count,
            logistics_amount: self.logistics.amount,
            other_count: self.other.count,
            other_amount: self.other.amount,
            breakfast: self.breakfast,
            lunch: self.lunch,
            dinner: self.dinner,
            midnight_snack: self.midnight_snack,
        }
    }

    /// The cursor of the next page to request.
    pub fn cursor(&self) -> (r: &String)
        ensures
            r@ == self@.cursor,
    {
        &self.cursor
    }

    /// Whether the upstream has signalled the last page.
    pub fn done(&self) -> (r: bool)
        ensures
            r == self@.done,
    {
        self.done
    }

    fn find_tally(&self, name: &str) -> (r: Option<usize>)
        ensures
            r matches Some(i) ==> i < self.tallies@.len() && self.tallies@[i as int].name@ == name@,
            r is None ==> forall|k: int|
                0 <= k < self.tallies@.len() ==> #[trigger] self.tallies@[k].name@ != name@,
    {
        let mut i: usize = 0;
        while i < self.tallies.len()
            invariant
                i <= self.tallies@.len(),
                forall|k: int| 0 <= k < i ==> #[trigger] self.tallies@[k].name@ != name@,
            decreases self.tallies@.len() - i,
        {
            if crate::text::same_text(self.tallies[i].name.as_str(), name) {
                return Some(i);
            }
            i = i + 1;
        }
        None
    }
}

/// Each tally is the count and total of its merchant; names are unique, and a
/// merchant without a tally has no expense.
pub open spec fn tallies_inv(v: Seq<Tally>, h: Seq<Posted>) -> bool {
    &&& forall|i: int|
        0 <= i < v.len() ==> {
            let t = #[trigger] v[i];
            t.count == count_where(h, from_merchant(t.name@)) && t.amount == total_where(
                h,
                from_merchant(t.name@),
            )
        }
    &&& forall|i: int, j: int| 0 <= i < j < v.len() ==> #[trigger] v[i].name@ != #[trigger] v[j].name@
    &&& forall|name: Seq<char>|
        (forall|i: int| 0 <= i < v.len() ==> #[trigger] v[i].name@ != name) ==> count_where(
            h,
            #[trigger] from_merchant(name),
        ) == 0 && total_where(h, from_merchant(name)) == 0
}

/// Bookings are exactly the categories that the run has booked accounts under.
pub open spec fn bookings_inv(v: Seq<Booking>, h: Seq<Posted>) -> bool {
    &&& consistently_booked(h)
    &&& forall|i: int|
        0 <= i < v.len() ==> booked_category(h, #[trigger] v[i].acc@) == Some(v[i].category)
    &&& forall|acc: Seq<char>|
        (forall|i: int| 0 <= i < v.len() ==> #[trigger] v[i].acc@ != acc) ==> #[trigger] booked_category(
            h,
            acc,
        ) is None
}

proof fn lemma_tally_updated(old_t: Seq<Tally>, new_t: Seq<Tally>, h: Seq<Posted>, e: Posted, i: int, x: Tally)
    requires
        tallies_inv(old_t, h),
        !is_topup(e.0),
        0 <= i < old_t.len(),
        old_t[i].name@ == e.0.merchant@,
        new_t == old_t.update(i, x),
        x.name@ == e.0.merchant@,
        x.count == count_where(h.push(e), from_merchant(x.name@)),
        x.amount == total_where(h.push(e), from_merchant(x.name@)),
    ensures
        tallies_inv(new_t, h.push(e)),
{
    lemma_push_all(h, e);
    let h2 = h.push(e);
    assert forall|j: int| 0 <= j < new_t.len() implies {
        let t = #[trigger] new_t[j];
        t.count == count_where(h2, from_merchant(t.name@)) && t.amount == total_where(h2, from_merchant(t.name@))
    } by {
        if j != i {
            assert(new_t[j] == old_t[j]);
            if j < i {
                assert(old_t[j].name@ != old_t[i].name@);
            } else {
                assert(old_t[i].name@ != old_t[j].name@);
            }
            assert(!from_merchant(old_t[j].name@)(e));
        }
    }
    assert forall|name: Seq<char>|
        (forall|j: int| 0 <= j < new_t.len() ==> #[trigger] new_t[j].name@ != name) implies count_where(
            h2,
            #[trigger] from_merchant(name),
        ) == 0 && total_where(h2, from_merchant(name)) == 0 by {
        assert(new_t[i].name@ != name);
        assert forall|j: int| 0 <= j < old_t.len() implies #[trigger] old_t[j].name@ != name by {
            if j != i {
                assert(new_t[j] == old_t[j]);
            }
        }
        assert(!from_merchant(name)(e));
    }
}

proof fn lemma_tally_added(old_t: Seq<Tally>, new_t: Seq<Tally>, h: Seq<Posted>, e: Posted, x: Tally)
    requires
        tallies_inv(old_t, h),
        !is_topup(e.0),
        forall|j: int| 0 <= j < old_t.len() ==> #[trigger] old_t[j].name@ != e.0.merchant@,
        new_t == old_t.push(x),
        x.name@ == e.0.merchant@,
        x.count == count_where(h.push(e), from_merchant(x.name@)),
        x.amount == total_where(h.push(e), from_merchant(x.name@)),
    ensures
        tallies_inv(new_t, h.push(e)),
{
    lemma_push_all(h, e);
    let h2 = h.push(e);
    let n = old_t.len() as int;
    assert forall|j: int| 0 <= j < new_t.len() implies {
        let t = #[trigger] new_t[j];
        t.count == count_where(h2, from_merchant(t.name@)) && t.amount == total_where(h2, from_merchant(t.name@))
    } by {
        if j < n {
            assert(new_t[j] == old_t[j]);
            assert(!from_merchant(old_t[j].name@)(e));
        }
    }
    assert forall|a: int, b: int| 0 <= a < b < new_t.len() implies #[trigger] new_t[a].name@ != #[trigger] new_t[b].name@ by {
        if b < n {
            assert(new_t[a] == old_t[a] && new_t[b] == old_t[b]);
        } else {
            assert(new_t[a] == old_t[a]);
        }
    }
    assert forall|name: Seq<char>|
        (forall|j: int| 0 <= j < new_t.len() ==> #[trigger] new_t[j].name@ != name) implies count_where(
            h2,
            #[trigger] from_merchant(name),
        ) == 0 && total_where(h2, from_merchant(name)) == 0 by {
        assert(new_t[n].name@ != name);
        assert forall|j: int| 0 <= j < old_t.len() implies #[trigger] old_t[j].name@ != name by {
            assert(new_t[j] == old_t[j]);
        }
        assert(!from_merchant(name)(e));
    }
}

proof fn lemma_bookings_step(old_b: Seq<Booking>, new_b: Seq<Booking>, h: Seq<Posted>, e: Posted, known: Option<Category>)
    requires
        bookings_inv(old_b, h),
        !is_topup(e.0),
        known == booked_category(h, e.0.merchant_acc@),
        known matches Some(c) ==> e.1 == c && new_b == old_b,
        known is None ==> new_b.len() == old_b.len() + 1 && new_b.drop_last() == old_b
            && new_b.last().acc@ == e.0.merchant_acc@ && new_b.last().category == e.1,
    ensures
        bookings_inv(new_b, h.push(e)),
{
    lemma_push_all(h, e);
    lemma_booked_found(h, e.0.merchant_acc@);
    let h2 = h.push(e);
    let acc = e.0.merchant_acc@;
    assert forall|a: Seq<char>| #[trigger] booked_category(h2, a) == if a == acc {
        Some(e.1)
    } else {
        booked_category(h, a)
    } by {}
    assert forall|i: int| 0 <= i < h.len() implies #[trigger] h2[i] == h[i] by {}
    assert(h2[h.len() as int] == e);
    assert forall|i: int, j: int|
        0 <= i < h2.len() && 0 <= j < h2.len() && !is_topup(h2[i].0) && !is_topup(h2[j].0)
            && h2[i].0.merchant_acc@ == h2[j].0.merchant_acc@ implies #[trigger] h2[i].1 == #[trigger] h2[j].1 by {
        if i < h.len() && j < h.len() {
            assert(h2[i] == h[i] && h2[j] == h[j]);
        } else if i < h.len() {
            assert(h2[i] == h[i]);
            if let Some(c) = known {
                let k = choose|k: int|
                    0 <= k < h.len() && !is_topup(h[k].0) && h[k].0.merchant_acc@ == acc && #[trigger] h[k].1 == c;
                assert(h[i].1 == h[k].1);
            }
        } else if j < h.len() {
            assert(h2[j] == h[j]);
            if let Some(c) = known {
                let k = choose|k: int|
                    0 <= k < h.len() && !is_topup(h[k].0) && h[k].0.merchant_acc@ == acc && #[trigger] h[k].1 == c;
                assert(h[j].1 == h[k].1);
            }
        }
    }
    if known is None {
        let n = old_b.len() as int;
        assert forall|i: int| 0 <= i < new_b.len() implies booked_category(h2, #[trigger] new_b[i].acc@) == Some(new_b[i].category) by {
            if i < n {
                assert(new_b[i] == old_b[i]);
            }
        }
        assert forall|a: Seq<char>|
            (forall|i: int| 0 <= i < new_b.len() ==> #[trigger] new_b[i].acc@ != a) implies #[trigger] booked_category(h2, a) is None by {
            assert(new_b[n].acc@ != a);
            assert forall|i: int| 0 <= i < old_b.len() implies #[trigger] old_b[i].acc@ != a by {
                assert(new_b[i] == old_b[i]);
            }
        }
    }
}

fn overflow() -> (e: WorkerError)
    ensures
        e matches WorkerError::ParseError(_),
{
    WorkerError::ParseError(String::from_str("amount out of range"))
}

/// `m` with one more transaction of `amount`, if that still fits.
fn bump(m: Meal, amount: i64) -> (r: Option<Meal>)
    ensures
        r matches Some(n) ==> n.count == m.count + 1 && n.amount == m.amount + amount,
        r is None <==> !(fits_u64(m.count + 1) && fits_i64(m.amount + amount)),
{
    let a = m.amount as i128 + amount as i128;
    if m.count == u64::MAX || a < i64::MIN as i128 || a > i64::MAX as i128 {
        None
    } else {
        Some(Meal { count: m.count + 1, amount: a as i64 })
    }
}

/// Every report's totals agree with its category buckets: the expense count
/// is the sum of the four category counts, and the expense total the sum of
/// the four category amounts.
pub proof fn law_report_balanced(r: ReportData, v: AggregationView, date: Seq<char>, trend: [Trend; 3])
    requires
        report_matches(r, v, date, trend),
    ensures
        r.balanced(),
{
    lemma_categories_partition(v.posted);
}

/// Within one run, two expenses at the same merchant account are booked
/// under the same category.
pub proof fn law_category_stable(a: &Aggregation, i: int, j: int)
    requires
        a.wf(),
        0 <= i < a@.posted.len(),
        0 <= j < a@.posted.len(),
        !is_topup(a@.posted[i].0),
        !is_topup(a@.posted[j].0),
        a@.posted[i].0.merchant_acc@ == a@.posted[j].0.merchant_acc@,
    ensures
        a@.posted[i].1 == a@.posted[j].1,
{
    let h = a@.posted;
    assert(consistently_booked(h));
    assert(h[i].1 == h[j].1);
}

/// The form fields of one page request: the account, the page cursor, the
/// transaction type, and the period's date filter.
pub fn request_form(account: &str, period: crate::model::Period, anchor: &crate::calendar::Date, cursor: &str) -> (r: Vec<(String, String)>)
    requires
        anchor.wf(),
    ensures
        r@.len() == 4,
        r@[0].0@ == "account"@ && r@[0].1@ == account@,
        r@[1].0@ == "curpage"@ && r@[1].1@ == cursor@,
        r@[2].0@ == "typeStatus"@ && r@[2].1@ == "1"@,
        r@[3].0@ == "dateStatus"@ && r@[3].1@ == crate::calendar::date_filter_of(period, *anchor),
{
    let mut r: Vec<(String, String)> = Vec::new();
    r.push((String::from_str("account"), String::from_str(account)));
    r.push((String::from_str("curpage"), String::from_str(cursor)));
    r.push((String::from_str("typeStatus"), String::from_str("1")));
    r.push((String::from_str("dateStatus"), crate::calendar::date_filter(period, anchor)));
    r
}

} // verus!
