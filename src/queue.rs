//! The job ledger: the keys and values that the job queue store holds, what
//! a client's poll sees and changes there, and what a finished job writes.

use vstd::prelude::*;
use crate::model::{WorkerError, error_message};
use crate::text::{
    has_prefix, first_index_from, find_char, slice, starts_with, lemma_first_index_at,
    lemma_first_index_found,
};

verus! {

pub open spec fn request_key_of(account: Seq<char>, period: Seq<char>) -> Seq<char> {
    "request:"@ + account + ":"@ + period
}

pub open spec fn result_key_of(account: Seq<char>, period: Seq<char>) -> Seq<char> {
    "result:"@ + account + ":"@ + period
}

pub open spec fn pending_value_of(token: Seq<char>) -> Seq<char> {
    "waiting:"@ + token
}

pub open spec fn error_value_of(message: Seq<char>) -> Seq<char> {
    "error:"@ + message
}

fn join4(a: &str, b: &str, c: &str, d: &str) -> (r: String)
    ensures
        r@ == a@ + b@ + c@ + d@,
{
    let mut r = String::from_str(a);
    r.append(b);
    r.append(c);
    r.append(d);
    r
}

/// The key of a pending job: `request:{account}:{period}`.
pub fn request_key(account: &str, period: &str) -> (r: String)
    ensures
        r@ == request_key_of(account@, period@),
{
    join4("request:", account, ":", period)
}

/// The key of a job's result pointer: `result:{account}:{period}`.
pub fn result_key(account: &str, period: &str) -> (r: String)
    ensures
        r@ == result_key_of(account@, period@),
{
    join4("result:", account, ":", period)
}

/// The value of a pending job: `waiting:{token}`.
pub fn pending_value(token: &str) -> (r: String)
    ensures
        r@ == pending_value_of(token@),
{
    let mut r = String::from_str("waiting:");
    r.append(token);
    r
}

/// Where a finished report is stored.
#[derive(Clone, Debug, PartialEq, Eq)]
pub struct Locator {
    pub store: String,
    pub collection: String,
    pub id: String,
}

impl View for Locator {
    type V = (Seq<char>, Seq<char>, Seq<char>);

    open spec fn view(&self) -> (Seq<char>, Seq<char>, Seq<char>) {
        (self.store@, self.collection@, self.id@)
    }
}

pub open spec fn locator_text(l: (Seq<char>, Seq<char>, Seq<char>)) -> Seq<char> {
    l.0 + "/"@ + l.1 + "/"@ + l.2
}

/// Reads `{store}/{collection}/{id}`: the store runs to the first `/`, the
/// collection to the next one, and the id is the rest.
pub open spec fn locator_of(v: Seq<char>) -> Option<(Seq<char>, Seq<char>, Seq<char>)> {
    match first_index_from(v, '/', 0) {
        Some(i) => match first_index_from(v, '/', i + 1) {
            Some(j) => Some((v.subrange(0, i), v.subrange(i + 1, j), v.subrange(j + 1, v.len() as int))),
            None => None,
        },
        None => None,
    }
}

impl Locator {
    /// The pointer text `{store}/{collection}/{id}`.
    pub fn to_text(&self) -> (r: String)
        ensures
            r@ == locator_text(self@),
    {
        let mut r = String::from_str(self.store.as_str());
        r.append("/");
        r.append(self.collection.as_str());
        r.append("/");
        r.append(self.id.as_str());
        r
    }

    /// Reads a pointer text.
    pub fn parse(v: &str) -> (r: Option<Locator>)
        ensures
            r matches Some(l) ==> locator_of(v@) == Some(l@),
            r is None ==> locator_of(v@) is None,
    {
        let n = v.unicode_len();
        let i = match find_char(v, '/', 0) {
            Some(i) => i,
            None => return None,
        };
        proof {
            lemma_first_index_found(v@, '/', 0);
        }
        let j = match find_char(v, '/', i + 1) {
            Some(j) => j,
            None => return None,
        };
        proof {
            lemma_first_index_found(v@, '/', i + 1);
        }
        Some(Locator { store: slice(v, 0, i), collection: slice(v, i + 1, j), id: slice(v, j + 1, n) })
    }
}

/// The database of a period's reports.
pub fn store_name(period: crate::model::Period) -> (r: &'static str)
    ensures
        r@ == "report_"@ + crate::model::period_name(period),
{
    proof {
        reveal_strlit("report_week");
        reveal_strlit("report_month");
        reveal_strlit("report_");
        reveal_strlit("week");
        reveal_strlit("month");
    }
    let r = match period {
        crate::model::Period::Week => "report_week",
        crate::model::Period::Month => "report_month",
    };
    proof {
        assert(r@ =~= "report_"@ + crate::model::period_name(period));
    }
    r
}

/// What a client sees when it polls.
#[derive(Clone, Debug, PartialEq, Eq)]
pub enum Status {
    /// The request has just been queued.
    Created,
    /// A job for the request is pending.
    Processing,
    /// The report is ready at this locator.
    Finished(Locator),
    /// The job failed with this message.
    Error(String),
}

pub enum StatusView {
    Created,
    Processing,
    Finished((Seq<char>, Seq<char>, Seq<char>)),
    Error(Seq<char>),
}

impl View for Status {
    type V = StatusView;

    open spec fn view(&self) -> StatusView {
        match self {
            Status::Created => StatusView::Created,
            Status::Processing => StatusView::Processing,
            Status::Finished(l) => StatusView::Finished(l@),
            Status::Error(m) => StatusView::Error(m@),
        }
    }
}

/// The HTTP status code and message that a client receives for a poll:
/// Created and Processing are both 201 ("queued"), Finished is 200 and an
/// error is 500 with its message.
pub open spec fn response_of(s: StatusView) -> (u16, Seq<char>) {
    match s {
        StatusView::Created => (201, "Report generation queued"@),
        StatusView::Processing => (201, "Report is being generated"@),
        StatusView::Finished(_) => (200, "Success"@),
        StatusView::Error(m) => (500, m),
    }
}

/// The response code and message for a poll's status.
pub fn report_response(s: &Status) -> (r: (u16, String))
    ensures
        (r.0, r.1@) == response_of(s@),
{
    match s {
        Status::Created => (201, String::from_str("Report generation queued")),
        Status::Processing => (201, String::from_str("Report is being generated")),
        Status::Finished(_) => (200, String::from_str("Success")),
        Status::Error(m) => (500, m.clone()),
    }
}

/// A write to the job queue store that a poll asks for.
#[derive(Clone, Debug, PartialEq, Eq)]
pub enum StoreAction {
    Nothing,
    /// Set `key` to `value`.
    Write(String, String),
    /// Delete `key`.
    Delete(String),
}

pub enum StoreActionView {
    Nothing,
    Write(Seq<char>, Seq<char>),
    Delete(Seq<char>),
}

impl View for StoreAction {
    type V = StoreActionView;

    open spec fn view(&self) -> StoreActionView {
        match self {
            StoreAction::Nothing => StoreActionView::Nothing,
            StoreAction::Write(k, v) => StoreActionView::Write(k@, v@),
            StoreAction::Delete(k) => StoreActionView::Delete(k@),
        }
    }
}

pub open spec fn malformed_pointer_message() -> Seq<char> {
    "malformed result pointer"@
}

/// A poll of `(account, period)`: a pending job means Processing; an error
/// pointer is delivered once and deleted; a report pointer means Finished;
/// with neither, a job is queued and the request is Created. A pointer that
/// is neither is delivered as an error and deleted too.
pub open spec fn poll_spec(
    pending: bool,
    result: Option<Seq<char>>,
    account: Seq<char>,
    period: Seq<char>,
    token: Seq<char>,
) -> (StatusView, StoreActionView) {
    if pending {
        (StatusView::Processing, StoreActionView::Nothing)
    } else {
        match result {
            None => (
                StatusView::Created,
                StoreActionView::Write(request_key_of(account, period), pending_value_of(token)),
            ),
            Some(v) => if has_prefix(v, "error:"@) {
                (
                    StatusView::Error(v.skip("error:"@.len() as int)),
                    StoreActionView::Delete(result_key_of(account, period)),
                )
            } else {
                match locator_of(v) {
                    Some(l) => (StatusView::Finished(l), StoreActionView::Nothing),
                    None => (
                        StatusView::Error(malformed_pointer_message()),
                        StoreActionView::Delete(result_key_of(account, period)),
                    ),
                }
            },
        }
    }
}

/// Decides a client's poll from what the store holds: whether the pending
/// job key exists, and the result pointer if any.
pub fn poll(account: &str, period: &str, token: &str, pending: bool, result: Option<&str>) -> (r: (
    Status,
    StoreAction,
))
    ensures
        (r.0@, r.1@) == poll_spec(
            pending,
            match result {
                Some(v) => Some(v@),
                None => None,
            },
            account@,
            period@,
            token@,
        ),
{
    if pending {
        return (Status::Processing, StoreAction::Nothing);
    }
    match result {
        None => (
            Status::Created,
            StoreAction::Write(request_key(account, period), pending_value(token)),
        ),
        Some(v) => {
            if starts_with(v, "error:") {
                let n = v.unicode_len();
                proof {
                    reveal_strlit("error:");
                }
                let m = slice(v, 6, n);
                proof {
                    assert(m@ =~= v@.skip("error:"@.len() as int));
                }
                (Status::Error(m), StoreAction::Delete(result_key(account, period)))
            } else {
                match Locator::parse(v) {
                    Some(l) => (Status::Finished(l), StoreAction::Nothing),
                    None => (
                        Status::Error(String::from_str("malformed result pointer")),
                        StoreAction::Delete(result_key(account, period)),
                    ),
                }
            }
        },
    }
}

/// Reads a pending job key `request:{account}:{period}`: the account runs to
/// the next `:`, the period is the rest.
pub open spec fn request_parts(k: Seq<char>) -> Option<(Seq<char>, Seq<char>)> {
    if has_prefix(k, "request:"@) {
        match first_index_from(k, ':', "request:"@.len() as int) {
            Some(i) => Some((k.subrange("request:"@.len() as int, i), k.subrange(i + 1, k.len() as int))),
            None => None,
        }
    } else {
        None
    }
}

/// The token of a pending job value `waiting:{token}`.
pub open spec fn token_of(v: Seq<char>) -> Option<Seq<char>> {
    if has_prefix(v, "waiting:"@) {
        Some(v.skip("waiting:"@.len() as int))
    } else {
        None
    }
}

/// A pending job as the worker dequeues it.
#[derive(Clone, Debug, PartialEq, Eq)]
pub struct Job {
    pub account: String,
    pub period: String,
    pub token: String,
}

/// Reads a pending job from its key and value.
pub fn take_job(key: &str, value: &str) -> (r: Option<Job>)
    ensures
        r matches Some(j) ==> request_parts(key@) == Some((j.account@, j.period@)) && token_of(value@)
            == Some(j.token@),
        r is None ==> request_parts(key@) is None || token_of(value@) is None,
{
    proof {
        reveal_strlit("request:");
        reveal_strlit("waiting:");
    }
    if !starts_with(key, "request:") || !starts_with(value, "waiting:") {
        return None;
    }
    let n = key.unicode_len();
    let i = match find_char(key, ':', 8) {
        Some(i) => i,
        None => return None,
    };
    proof {
        lemma_first_index_found(key@, ':', 8);
    }
    let account = slice(key, 8, i);
    let period = slice(key, i + 1, n);
    let vn = value.unicode_len();
    let token = slice(value, 8, vn);
    proof {
        assert(token@ =~= value@.skip(8));
    }
    Some(Job { account, period, token })
}

/// The pointer text a finished job leaves: the locator, or `error:` and the
/// error's message.
pub open spec fn outcome_text(o: Result<Locator, WorkerError>) -> Seq<char> {
    match o {
        Ok(l) => locator_text(l@),
        Err(e) => error_value_of(error_message(e)),
    }
}

/// The result pointer value for a finished job.
pub fn outcome_value(o: &Result<Locator, WorkerError>) -> (r: String)
    ensures
        r@ == outcome_text(*o),
{
    match o {
        Ok(l) => l.to_text(),
        Err(e) => {
            let mut r = String::from_str("error:");
            let m = e.message();
            r.append(m.as_str());
            r
        },
    }
}

/// The job queue store as a map from key to value.
pub type StoreView = Map<Seq<char>, Seq<char>>;

pub open spec fn apply_action(m: StoreView, a: StoreActionView) -> StoreView {
    match a {
        StoreActionView::Nothing => m,
        StoreActionView::Write(k, v) => m.insert(k, v),
        StoreActionView::Delete(k) => m.remove(k),
    }
}

/// A poll of `(account, period)` against the store `m`.
pub open spec fn poll_store(m: StoreView, account: Seq<char>, period: Seq<char>, token: Seq<char>) -> (
    StatusView,
    StoreActionView,
) {
    let rk = result_key_of(account, period);
    poll_spec(
        m.dom().contains(request_key_of(account, period)),
        if m.dom().contains(rk) {
            Some(m[rk])
        } else {
            None
        },
        account,
        period,
        token,
    )
}

/// The store after the worker has handled the job of `(account, period)`:
/// the pending key deleted and the result pointer set to `value`.
pub open spec fn settle(m: StoreView, account: Seq<char>, period: Seq<char>, value: Seq<char>) -> StoreView {
    m.remove(request_key_of(account, period)).insert(result_key_of(account, period), value)
}

pub open spec fn free_of(s: Seq<char>, c: char) -> bool {
    forall|i: int| 0 <= i < s.len() ==> s[i] != c
}

proof fn lemma_keys_differ(account: Seq<char>, period: Seq<char>)
    ensures
        request_key_of(account, period) != result_key_of(account, period),
{
    reveal_strlit("request:");
    reveal_strlit("result:");
    assert(request_key_of(account, period)[2] == 'q');
    assert(result_key_of(account, period)[2] == 's');
}

/// The key written when a request is queued reads back as that account and
/// period, when the account holds no `:`.
pub proof fn law_request_key_round_trip(account: Seq<char>, period: Seq<char>)
    requires
        free_of(account, ':'),
    ensures
        request_parts(request_key_of(account, period)) == Some((account, period)),
{
    reveal_strlit("request:");
    reveal_strlit(":");
    let k = request_key_of(account, period);
    let n = account.len() as int;
    assert(k.subrange(0, 8) =~= "request:"@);
    assert forall|j: int| 8 <= j < 8 + n implies k[j] != ':' by {
        assert(k[j] == account[j - 8]);
    }
    assert(k[8 + n] == ':');
    lemma_first_index_at(k, ':', 8, 8 + n);
    assert(k.subrange(8, 8 + n) =~= account);
    assert(k.subrange(8 + n + 1, k.len() as int) =~= period);
}

/// A request for a key that is already pending changes nothing: the poll
/// reports Processing and asks for no write, so no second job appears.
pub proof fn law_no_duplicate_job(m: StoreView, account: Seq<char>, period: Seq<char>, token: Seq<char>)
    requires
        m.dom().contains(request_key_of(account, period)),
    ensures
        poll_store(m, account, period, token).0 == StatusView::Processing,
        apply_action(m, poll_store(m, account, period, token).1) == m,
{
}

/// A dequeued job always settles: once the worker has deleted the pending
/// key and written the outcome, a poll reports Finished with the report's
/// locator or Error with the error's message, never Created or Processing.
/// The locator's store holds neither `/` nor `:`, and its collection no `/`.
pub proof fn law_job_settles(
    m: StoreView,
    account: Seq<char>,
    period: Seq<char>,
    token: Seq<char>,
    o: Result<Locator, WorkerError>,
)
    requires
        o matches Ok(l) ==> free_of(l.store@, '/') && free_of(l.store@, ':') && free_of(
            l.collection@,
            '/',
        ),
    ensures
        poll_store(settle(m, account, period, outcome_text(o)), account, period, token).0 == match o {
            Ok(l) => StatusView::Finished(l@),
            Err(e) => StatusView::Error(error_message(e)),
        },
{
    lemma_keys_differ(account, period);
    let m2 = settle(m, account, period, outcome_text(o));
    assert(!m2.dom().contains(request_key_of(account, period)));
    assert(m2[result_key_of(account, period)] == outcome_text(o));
    reveal_strlit("error:");
    reveal_strlit("/");
    match o {
        Ok(l) => {
            let t = locator_text(l@);
            let s = l.store@;
            let c = l.collection@;
            let n = s.len() as int;
            assert(t[n] == '/');
            assert forall|j: int| 0 <= j < n implies t[j] != '/' && t[j] == s[j] by {}
            lemma_first_index_at(t, '/', 0, n);
            assert forall|j: int| n + 1 <= j < n + 1 + c.len() implies t[j] != '/' by {
                assert(t[j] == c[j - n - 1]);
            }
            assert(t[n + 1 + c.len()] == '/');
            lemma_first_index_at(t, '/', n + 1, n + 1 + c.len());
            assert(t.subrange(0, n) =~= s);
            assert(t.subrange(n + 1, n + 1 + c.len()) =~= c);
            assert(t.subrange(n + 1 + c.len() + 1, t.len() as int) =~= l.id@);
            if has_prefix(t, "error:"@) {
                if n > 5 {
                    assert(t[5] == s[5]);
                    assert(t.subrange(0, 6)[5] == ':');
                } else {
                    assert(t.subrange(0, 6)[n] == t[n]);
                }
            }
        },
        Err(e) => {
            let t = outcome_text(o);
            assert(t.subrange(0, 6) =~= "error:"@);
            assert(t.skip(6) =~= error_message(e));
        },
    }
}

/// An error is delivered once: the first poll after a failed job reports the
/// error and deletes the pointer, so the next poll finds the request free to
/// be queued again (Created).
pub proof fn law_error_self_heals(
    m: StoreView,
    account: Seq<char>,
    period: Seq<char>,
    token: Seq<char>,
    e: WorkerError,
)
    ensures
        ({
            let m2 = settle(m, account, period, outcome_text(Err(e)));
            let first = poll_store(m2, account, period, token);
            &&& first.0 == StatusView::Error(error_message(e))
            &&& poll_store(apply_action(m2, first.1), account, period, token).0 == StatusView::Created
        }),
{
    law_job_settles(m, account, period, token, Err(e));
    lemma_keys_differ(account, period);
    reveal_strlit("error:");
    let t = outcome_text(Err::<Locator, WorkerError>(e));
    assert(t.subrange(0, 6) =~= "error:"@);
}

} // verus!
