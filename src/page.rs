//! One page of the upstream transaction listing: its raw fields as the
//! envelope carried them, and their validation.

use vstd::prelude::*;
use crate::model::WorkerError;
use crate::ledger::Transaction;
use crate::numeric::{i64_of, parse_i64};

verus! {

/// One transaction line as the upstream wrote it; a field that was absent
/// or not a string is `None`.
#[derive(Clone, Debug, PartialEq, Eq)]
pub struct RawLine {
    pub sign_tranamt: Option<String>,
    pub tranamt: Option<String>,
    pub occtime: Option<String>,
    pub mercname: Option<String>,
    pub mercacc: Option<String>,
    pub cardbal: Option<String>,
}

/// One upstream page as the envelope carried it.
#[derive(Clone, Debug, PartialEq, Eq)]
pub struct RawPage {
    pub retcode: Option<String>,
    pub errmsg: Option<String>,
    pub nextpage: Option<String>,
    pub lines: Vec<RawLine>,
}

/// A validated page.
pub struct Page {
    /// The cursor of the page after this one; `0` ends the listing.
    pub next: String,
    /// The card balance that the first line reports, if there is a line.
    pub balance: Option<i64>,
    pub lines: Vec<Transaction>,
}

/// The integer that an optional field writes.
pub open spec fn int_field(f: Option<String>) -> Option<i64> {
    match f {
        Some(s) => i64_of(s@),
        None => None,
    }
}

pub open spec fn line_valid(r: RawLine) -> bool {
    &&& int_field(r.sign_tranamt) is Some
    &&& int_field(r.tranamt) is Some
    &&& int_field(r.occtime) is Some
    &&& r.mercname is Some
    &&& r.mercacc is Some
}

/// `t` is what the raw line `r` says.
pub open spec fn line_matches(r: RawLine, t: Transaction) -> bool {
    &&& int_field(r.sign_tranamt) == Some(t.signed_amount)
    &&& int_field(r.tranamt) == Some(t.amount)
    &&& int_field(r.occtime) == Some(t.time)
    &&& r.occtime matches Some(s) && s@ == t.time_text@
    &&& r.mercname matches Some(s) && s@ == t.merchant@
    &&& r.mercacc matches Some(s) && s@ == t.merchant_acc@
}

pub open spec fn code_is_zero(f: Option<String>) -> bool {
    f matches Some(s) && s@ == "0"@
}

pub open spec fn balance_valid(p: RawPage) -> bool {
    p.lines@.len() > 0 ==> int_field(p.lines@[0].cardbal) is Some
}

/// Whether a page is a success page with every field well-formed.
pub open spec fn page_valid(p: RawPage) -> bool {
    &&& code_is_zero(p.retcode)
    &&& p.nextpage is Some
    &&& forall|i: int| 0 <= i < p.lines@.len() ==> line_valid(#[trigger] p.lines@[i])
    &&& balance_valid(p)
}

fn parse_field(f: &Option<String>) -> (r: Result<i64, WorkerError>)
    ensures
        r matches Ok(v) ==> int_field(*f) == Some(v),
        r is Err ==> int_field(*f) is None && r matches Err(WorkerError::ParseError(_)),
{
    match f {
        Some(s) => match parse_i64(s.as_str()) {
            Some(v) => Ok(v),
            None => Err(WorkerError::ParseError(String::from_str("malformed number"))),
        },
        None => Err(WorkerError::ParseError(String::from_str("missing number"))),
    }
}

fn text_field(f: &Option<String>) -> (r: Result<String, WorkerError>)
    ensures
        r matches Ok(v) ==> f matches Some(s) && s@ == v@,
        r is Err ==> f is None && r matches Err(WorkerError::ParseError(_)),
{
    match f {
        Some(s) => Ok(s.clone()),
        None => Err(WorkerError::ParseError(String::from_str("missing text field"))),
    }
}

/// Validates one raw line.
pub fn validate_line(r: &RawLine) -> (res: Result<Transaction, WorkerError>)
    ensures
        res is Ok <==> line_valid(*r),
        res matches Ok(t) ==> line_matches(*r, t),
        res is Err ==> res matches Err(WorkerError::ParseError(_)),
{
    let signed_amount = parse_field(&r.sign_tranamt)?;
    let amount = parse_field(&r.tranamt)?;
    let time = parse_field(&r.occtime)?;
    let time_text = text_field(&r.occtime)?;
    let merchant = text_field(&r.mercname)?;
    let merchant_acc = text_field(&r.mercacc)?;
    Ok(Transaction { signed_amount, amount, time, time_text, merchant, merchant_acc })
}

/// Validates a page. A missing return code is a `ParseError`; a non-zero one
/// is a `CardSystemError` carrying the upstream message; then a missing
/// next-page cursor, a malformed line or a malformed balance is a
/// `ParseError`.
pub fn validate_page(p: &RawPage) -> (res: Result<Page, WorkerError>)
    ensures
        res is Ok <==> page_valid(*p),
        p.retcode is None ==> res matches Err(WorkerError::ParseError(_)),
        p.retcode is Some && !code_is_zero(p.retcode) ==> (res matches Err(
            WorkerError::CardSystemError(m),
        ) && m@ == match p.errmsg {
            Some(e) => e@,
            None => Seq::<char>::empty(),
        }),
        code_is_zero(p.retcode) && !page_valid(*p) ==> res matches Err(WorkerError::ParseError(_)),
        res matches Ok(q) ==> {
            &&& p.nextpage matches Some(n) && n@ == q.next@
            &&& q.lines@.len() == p.lines@.len()
            &&& forall|i: int| 0 <= i < q.lines@.len() ==> line_matches(p.lines@[i], #[trigger] q.lines@[i])
            &&& q.balance == if p.lines@.len() > 0 {
                int_field(p.lines@[0].cardbal)
            } else {
                None
            }
        },
{
    let code = match &p.retcode {
        Some(c) => c,
        None => {
            return Err(WorkerError::ParseError(String::from_str("missing return code")));
        },
    };
    if !crate::text::same_text(code.as_str(), "0") {
        let m = match &p.errmsg {
            Some(e) => e.clone(),
            None => String::new(),
        };
        proof {
            assert(m@ =~= match p.errmsg {
                Some(e) => e@,
                None => Seq::<char>::empty(),
            });
        }
        return Err(WorkerError::CardSystemError(m));
    }
    let next = match &p.nextpage {
        Some(n) => n.clone(),
        None => {
            return Err(WorkerError::ParseError(String::from_str("missing next page")));
        },
    };
    let mut lines: Vec<Transaction> = Vec::new();
    let mut i: usize = 0;
    while i < p.lines.len()
        invariant
            code_is_zero(p.retcode),
            p.nextpage is Some,
            i <= p.lines@.len(),
            lines@.len() == i,
            forall|k: int| 0 <= k < i ==> line_valid(#[trigger] p.lines@[k]),
            forall|k: int| 0 <= k < i ==> line_matches(p.lines@[k], #[trigger] lines@[k]),
        decreases p.lines@.len() - i,
    {
        let t = validate_line(&p.lines[i])?;
        lines.push(t);
        i = i + 1;
    }
    let balance = if p.lines.len() > 0 {
        Some(parse_field(&p.lines[0].cardbal)?)
    } else {
        None
    };
    Ok(Page { next, balance, lines })
}

/// The JSON payload inside the upstream's envelope: the response without
/// its nine-character header and its one trailing character.
pub open spec fn envelope_payload(body: Seq<char>) -> Option<Seq<char>> {
    if body.len() >= 10 {
        Some(body.subrange(9, body.len() - 1))
    } else {
        None
    }
}

/// Takes the JSON payload out of an upstream response; a response too short
/// to hold the envelope is a `ParseError`.
pub fn unwrap_envelope(body: &str) -> (r: Result<String, WorkerError>)
    ensures
        r matches Ok(p) ==> envelope_payload(body@) == Some(p@),
        r is Err ==> envelope_payload(body@) is None && r matches Err(WorkerError::ParseError(_)),
{
    let n = body.unicode_len();
    if n < 10 {
        return Err(WorkerError::ParseError(String::from_str("response too short")));
    }
    Ok(crate::text::slice(body, 9, n - 1))
}

} // verus!
