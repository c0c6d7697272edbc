//! Shared vocabulary: report periods, spending categories, errors and the
//! finished report document. Amounts are integer minor units (cents).

use vstd::prelude::*;

verus! {

/// Reporting granularity.
#[derive(Clone, Copy, Debug, PartialEq, Eq, Structural)]
pub enum Period {
    Week,
    Month,
}

/// The name under which a period appears in keys and store names.
pub open spec fn period_name(p: Period) -> Seq<char> {
    match p {
        Period::Week => "week"@,
        Period::Month => "month"@,
    }
}

impl Period {
    /// The period's name, `week` or `month`.
    pub fn name(&self) -> (r: &'static str)
        ensures
            r@ == period_name(*self),
    {
        match self {
            Period::Week => "week",
            Period::Month => "month",
        }
    }
}

/// Reads a period name; anything but `week` or `month` is `InvalidPeriod`.
pub fn parse_period(s: &str) -> (r: Result<Period, WorkerError>)
    ensures
        s@ == "week"@ ==> r == Ok::<Period, WorkerError>(Period::Week),
        s@ == "month"@ ==> r == Ok::<Period, WorkerError>(Period::Month),
        s@ != "week"@ && s@ != "month"@ ==> (r matches Err(WorkerError::InvalidPeriod(m)) && m@
            == s@),
{
    proof {
        reveal_strlit("week");
        reveal_strlit("month");
        assert("week"@.len() != "month"@.len());
    }
    if crate::text::same_text(s, "week") {
        Ok(Period::Week)
    } else if crate::text::same_text(s, "month") {
        Ok(Period::Month)
    } else {
        Err(WorkerError::InvalidPeriod(String::from_str(s)))
    }
}

/// Spending category of a merchant.
#[derive(Clone, Copy, Debug, PartialEq, Eq, Structural)]
pub enum Category {
    Cafeteria,
    Groceries,
    Logistics,
    Other,
}

/// The tag under which a category is stored.
pub open spec fn category_tag(c: Category) -> Seq<char> {
    match c {
        Category::Cafeteria => "CAF"@,
        Category::Groceries => "GRO"@,
        Category::Logistics => "LOG"@,
        Category::Other => "OTH"@,
    }
}

/// The category that a stored tag names, if any.
pub open spec fn category_of_tag(s: Seq<char>) -> Option<Category> {
    if s == "CAF"@ {
        Some(Category::Cafeteria)
    } else if s == "GRO"@ {
        Some(Category::Groceries)
    } else if s == "LOG"@ {
        Some(Category::Logistics)
    } else if s == "OTH"@ {
        Some(Category::Other)
    } else {
        None
    }
}

impl Category {
    /// The stored tag: `CAF`, `GRO`, `LOG` or `OTH`.
    pub fn tag(&self) -> (r: &'static str)
        ensures
            r@ == category_tag(*self),
    {
        match self {
            Category::Cafeteria => "CAF",
            Category::Groceries => "GRO",
            Category::Logistics => "LOG",
            Category::Other => "OTH",
        }
    }

    /// Reads a stored tag.
    pub fn from_tag(s: &str) -> (r: Option<Category>)
        ensures
            r == category_of_tag(s@),
    {
        proof {
            reveal_strlit("CAF");
            reveal_strlit("GRO");
            reveal_strlit("LOG");
            reveal_strlit("OTH");
        }
        if crate::text::same_text(s, "CAF") {
            Some(Category::Cafeteria)
        } else if crate::text::same_text(s, "GRO") {
            Some(Category::Groceries)
        } else if crate::text::same_text(s, "LOG") {
            Some(Category::Logistics)
        } else if crate::text::same_text(s, "OTH") {
            Some(Category::Other)
        } else {
            None
        }
    }
}

/// Why a report job failed.
#[derive(Clone, Debug, PartialEq, Eq)]
pub enum WorkerError {
    /// The requested period is neither week nor month.
    InvalidPeriod(String),
    /// The upstream card system answered with a non-zero return code.
    CardSystemError(String),
    /// No upstream session could be derived from the auth token.
    AuthError(String),
    /// An upstream response lacked a field or held a malformed number.
    ParseError(String),
    /// A store operation failed.
    StoreError(String),
}

/// The text of an error as delivered to clients.
pub open spec fn error_message(e: WorkerError) -> Seq<char> {
    match e {
        WorkerError::InvalidPeriod(m) => "Invalid period: "@ + m@,
        WorkerError::CardSystemError(m) => "Card system error: "@ + m@,
        WorkerError::AuthError(m) => "Authentication error: "@ + m@,
        WorkerError::ParseError(m) => "Parse error: "@ + m@,
        WorkerError::StoreError(m) => "Store error: "@ + m@,
    }
}

impl WorkerError {
    /// The error's message, its kind followed by its detail.
    pub fn message(&self) -> (r: String)
        ensures
            r@ == error_message(*self),
    {
        let (head, detail) = match self {
            WorkerError::InvalidPeriod(m) => ("Invalid period: ", m),
            WorkerError::CardSystemError(m) => ("Card system error: ", m),
            WorkerError::AuthError(m) => ("Authentication error: ", m),
            WorkerError::ParseError(m) => ("Parse error: ", m),
            WorkerError::StoreError(m) => ("Store error: ", m),
        };
        let mut r = String::from_str(head);
        r.append(detail.as_str());
        r
    }
}

/// Count and expense of one earlier period.
#[derive(Clone, Copy, Debug, PartialEq, Eq, Structural)]
pub struct Trend {
    pub count: u64,
    pub expense: i64,
}

/// Count and amount of one meal-time bucket.
#[derive(Clone, Copy, Debug, PartialEq, Eq, Structural)]
pub struct Meal {
    pub count: u64,
    pub amount: i64,
}

/// The single largest expense.
#[derive(Clone, Debug, PartialEq, Eq)]
pub struct Expense {
    pub time: String,
    pub location: String,
    pub amount: i64,
}

/// The merchant with the most expenses: its running amount and count when it
/// took the lead.
#[derive(Clone, Debug, PartialEq, Eq)]
pub struct Trans {
    pub location: String,
    pub amount: i64,
    pub count: u64,
}

/// The persisted aggregate of one account over one period instance.
#[derive(Clone, Debug, PartialEq, Eq)]
pub struct ReportData {
    pub date: String,
    pub balance: i64,
    pub total_expense: i64,
    pub total_topup: i64,
    pub total_count: u64,
    pub top_expense: Expense,
    pub top_count: Trans,
    pub trend: [Trend; 3],
    pub cafeteria_count: u64,
    pub cafeteria_amount: i64,
    pub groceries_count: u64,
    pub groceries_amount: i64,
    pub logistics_count: u64,
    pub logistics_amount: i64,
    pub other_count: u64,
    pub other_amount: i64,
    pub breakfast: Meal,
    pub lunch: Meal,
    pub dinner: Meal,
    pub midnight_snack: Meal,
}

impl ReportData {
    /// Totals agree with the category buckets.
    pub open spec fn balanced(&self) -> bool {
        &&& self.total_count == self.cafeteria_count + self.groceries_count
            + self.logistics_count + self.other_count
        &&& self.total_expense == self.cafeteria_amount + self.groceries_amount
            + self.logistics_amount + self.other_amount
    }
}

} // verus!
