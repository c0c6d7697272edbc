//! What a run of the aggregator has seen, and the statistics it reports,
//! stated as folds over the sequence of posted transactions.

use vstd::prelude::*;
use crate::model::Category;

verus! {

/// One validated upstream transaction line. Amounts are in cents; `time` is
/// the timestamp `yyyymmddhhmmss` read as a number.
#[derive(Clone, Debug, PartialEq, Eq)]
pub struct Transaction {
    pub signed_amount: i64,
    pub amount: i64,
    pub time: i64,
    pub time_text: String,
    pub merchant: String,
    pub merchant_acc: String,
}

impl Transaction {
    /// A field-by-field copy.
    pub fn copy(&self) -> (r: Transaction)
        ensures
            r == *self,
    {
        Transaction {
            signed_amount: self.signed_amount,
            amount: self.amount,
            time: self.time,
            time_text: self.time_text.clone(),
            merchant: self.merchant.clone(),
            merchant_acc: self.merchant_acc.clone(),
        }
    }

    /// Whether the line is a top-up rather than an expense.
    pub fn is_topup(&self) -> (r: bool)
        ensures
            r == is_topup(*self),
    {
        self.signed_amount > 0
    }
}

/// A transaction together with the category it was booked under.
pub type Posted = (Transaction, Category);

/// A positive signed amount is a top-up; anything else is an expense.
pub open spec fn is_topup(t: Transaction) -> bool {
    t.signed_amount > 0
}

/// How many posted transactions satisfy `p`.
pub open spec fn count_where(h: Seq<Posted>, p: spec_fn(Posted) -> bool) -> int
    decreases h.len(),
{
    if h.len() == 0 {
        0
    } else {
        count_where(h.drop_last(), p) + if p(h.last()) {
            1int
        } else {
            0int
        }
    }
}

/// The summed amount of the posted transactions that satisfy `p`.
pub open spec fn total_where(h: Seq<Posted>, p: spec_fn(Posted) -> bool) -> int
    decreases h.len(),
{
    if h.len() == 0 {
        0
    } else {
        total_where(h.drop_last(), p) + if p(h.last()) {
            h.last().0.amount as int
        } else {
            0int
        }
    }
}

pub open spec fn topups() -> spec_fn(Posted) -> bool {
    |e: Posted| is_topup(e.0)
}

pub open spec fn expenses() -> spec_fn(Posted) -> bool {
    |e: Posted| !is_topup(e.0)
}

pub open spec fn in_category(c: Category) -> spec_fn(Posted) -> bool {
    |e: Posted| !is_topup(e.0) && e.1 == c
}

pub open spec fn from_merchant(name: Seq<char>) -> spec_fn(Posted) -> bool {
    |e: Posted| !is_topup(e.0) && e.0.merchant@ == name
}

/// Meal windows over the time of day `hhmmss`, each closed at its start and
/// open at its end: breakfast 06-09, lunch 11-14, dinner 17-20, midnight
/// snack 22-24.
pub open spec fn meal_slot(time: int) -> Option<int> {
    let t = time % 1000000;
    if time < 0 {
        None
    } else if 60000 <= t < 90000 {
        Some(0)
    } else if 110000 <= t < 140000 {
        Some(1)
    } else if 170000 <= t < 200000 {
        Some(2)
    } else if 220000 <= t < 240000 {
        Some(3)
    } else {
        None
    }
}

/// The meal window of a timestamp, if any.
pub fn meal_index(time: i64) -> (r: Option<usize>)
    ensures
        r matches Some(k) ==> meal_slot(time as int) == Some(k as int) && k < 4,
        r is None ==> meal_slot(time as int) is None,
{
    if time < 0 {
        return None;
    }
    let t = time % 1000000;
    if 60000 <= t && t < 90000 {
        Some(0)
    } else if 110000 <= t && t < 140000 {
        Some(1)
    } else if 170000 <= t && t < 200000 {
        Some(2)
    } else if 220000 <= t && t < 240000 {
        Some(3)
    } else {
        None
    }
}

pub open spec fn in_meal(k: int) -> spec_fn(Posted) -> bool {
    |e: Posted|
        !is_topup(e.0) && e.1 == Category::Cafeteria && meal_slot(e.0.time as int) == Some(k)
}

/// The largest expense so far: a later one replaces it only when strictly
/// larger (and larger than zero).
pub open spec fn top_expense(h: Seq<Posted>) -> Option<Transaction>
    decreases h.len(),
{
    if h.len() == 0 {
        None
    } else {
        let prev = top_expense(h.drop_last());
        let t = h.last().0;
        if !is_topup(t) && t.amount > top_amount(prev) {
            Some(t)
        } else {
            prev
        }
    }
}

pub open spec fn top_amount(t: Option<Transaction>) -> int {
    match t {
        Some(t) => t.amount as int,
        None => 0,
    }
}

/// The merchant with the most expenses, with its running total and count at
/// the moment it took the lead. A merchant takes the lead only when its count
/// strictly exceeds the leader's, so on a tie the earlier leader stays.
pub open spec fn top_merchant(h: Seq<Posted>) -> Option<(Seq<char>, int, int)>
    decreases h.len(),
{
    if h.len() == 0 {
        None
    } else {
        let prev = top_merchant(h.drop_last());
        let t = h.last().0;
        let n = count_where(h, from_merchant(t.merchant@));
        if !is_topup(t) && n > leader_count(prev) {
            Some((t.merchant@, total_where(h, from_merchant(t.merchant@)), n))
        } else {
            prev
        }
    }
}

pub open spec fn leader_count(l: Option<(Seq<char>, int, int)>) -> int {
    match l {
        Some(l) => l.2,
        None => 0,
    }
}

/// The category under which the run has booked expenses at a merchant
/// account, if any. Top-ups are not classified.
pub open spec fn booked_category(h: Seq<Posted>, acc: Seq<char>) -> Option<Category>
    decreases h.len(),
{
    if h.len() == 0 {
        None
    } else if !is_topup(h.last().0) && h.last().0.merchant_acc@ == acc {
        Some(h.last().1)
    } else {
        booked_category(h.drop_last(), acc)
    }
}

pub open spec fn fits_i64(v: int) -> bool {
    i64::MIN <= v <= i64::MAX
}

pub open spec fn fits_u64(v: int) -> bool {
    0 <= v <= u64::MAX
}

pub open spec fn fits_counter(h: Seq<Posted>, p: spec_fn(Posted) -> bool) -> bool {
    fits_u64(count_where(h, p)) && fits_i64(total_where(h, p))
}

/// Every statistic of `h` fits the report's machine integers.
pub open spec fn totals_fit(h: Seq<Posted>) -> bool {
    &&& fits_i64(total_where(h, topups()))
    &&& fits_counter(h, expenses())
    &&& forall|c: Category| fits_counter(h, #[trigger] in_category(c))
    &&& forall|k: int| fits_counter(h, #[trigger] in_meal(k))
    &&& forall|name: Seq<char>| fits_counter(h, #[trigger] from_merchant(name))
}

/// Expenses at one merchant account carry one category.
pub open spec fn consistently_booked(h: Seq<Posted>) -> bool {
    forall|i: int, j: int|
        0 <= i < h.len() && 0 <= j < h.len() && !is_topup(h[i].0) && !is_topup(h[j].0)
            && h[i].0.merchant_acc@ == h[j].0.merchant_acc@ ==> #[trigger] h[i].1 == #[trigger] h[j].1
}

pub proof fn lemma_booked_found(h: Seq<Posted>, acc: Seq<char>)
    ensures
        booked_category(h, acc) matches Some(c) ==> exists|k: int|
            0 <= k < h.len() && !is_topup(h[k].0) && h[k].0.merchant_acc@ == acc && #[trigger] h[k].1 == c,
        booked_category(h, acc) is None ==> forall|k: int|
            0 <= k < h.len() && !is_topup(#[trigger] h[k].0) ==> h[k].0.merchant_acc@ != acc,
    decreases h.len(),
{
    if h.len() > 0 {
        let g = h.drop_last();
        lemma_booked_found(g, acc);
        if !is_topup(h.last().0) && h.last().0.merchant_acc@ == acc {
            assert(h[h.len() - 1] == h.last());
        } else {
            assert forall|k: int| 0 <= k < g.len() implies h[k] == #[trigger] g[k] by {}
            if booked_category(g, acc) is None {
                assert forall|k: int| 0 <= k < h.len() && !is_topup(#[trigger] h[k].0) implies h[k].0.merchant_acc@ != acc by {
                    if k < g.len() {
                        assert(h[k] == g[k]);
                    }
                }
            } else {
                let c = booked_category(g, acc)->Some_0;
                let k = choose|k: int|
                    0 <= k < g.len() && !is_topup(g[k].0) && g[k].0.merchant_acc@ == acc && #[trigger] g[k].1 == c;
                assert(h[k] == g[k]);
            }
        }
    }
}

/// Every expense falls in exactly one category, so the category counts and
/// amounts add up to the expense count and amount.
pub proof fn lemma_categories_partition(h: Seq<Posted>)
    ensures
        count_where(h, expenses()) == count_where(h, in_category(Category::Cafeteria))
            + count_where(h, in_category(Category::Groceries)) + count_where(
            h,
            in_category(Category::Logistics),
        ) + count_where(h, in_category(Category::Other)),
        total_where(h, expenses()) == total_where(h, in_category(Category::Cafeteria))
            + total_where(h, in_category(Category::Groceries)) + total_where(
            h,
            in_category(Category::Logistics),
        ) + total_where(h, in_category(Category::Other)),
    decreases h.len(),
{
    if h.len() > 0 {
        lemma_categories_partition(h.drop_last());
    }
}

pub proof fn lemma_push_all(h: Seq<Posted>, e: Posted)
    ensures
        h.push(e).drop_last() == h,
        h.push(e).last() == e,
        forall|p: spec_fn(Posted) -> bool|
            #[trigger] count_where(h.push(e), p) == count_where(h, p) + if p(e) {
                1int
            } else {
                0int
            },
        forall|p: spec_fn(Posted) -> bool|
            #[trigger] total_where(h.push(e), p) == total_where(h, p) + if p(e) {
                e.0.amount as int
            } else {
                0int
            },
{
    assert(h.push(e).drop_last() =~= h);
}

} // verus!
