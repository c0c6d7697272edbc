use std::collections::HashMap;

use std::cell::RefCell;

use ecard_report::aggregate::Aggregation;
use ecard_report::model::{parse_period, Category, Period, ReportData, Trend, WorkerError};
use ecard_report::page::{RawLine, RawPage};
use ecard_report::tagger::resolve_tag;
use ecard_report::queue::{
    outcome_value, pending_value, poll, report_response, request_key, result_key, store_name, take_job, Locator,
    Status, StoreAction,
};
use ecard_report::trend::report_locator;

type Store = HashMap<String, String>;

fn client_poll(store: &mut Store, account: &str, period: &str, token: &str) -> Status {
    let pending = store.contains_key(&request_key(account, period));
    let result = store.get(&result_key(account, period)).cloned();
    let (status, action) = poll(account, period, token, pending, result.as_deref());
    match action {
        StoreAction::Nothing => {}
        StoreAction::Write(k, v) => {
            store.insert(k, v);
        }
        StoreAction::Delete(k) => {
            store.remove(&k);
        }
    }
    status
}

/// One worker tick: dequeue every pending job and write its outcome.
fn worker_tick(store: &mut Store, outcome: &dyn Fn(&str, &str) -> Result<Locator, WorkerError>) {
    let keys: Vec<String> = store.keys().filter(|k| k.starts_with("request:")).cloned().collect();
    for key in keys {
        let value = store.remove(&key).unwrap();
        let job = take_job(&key, &value).unwrap();
        let o = outcome(&job.account, &job.period);
        store.insert(result_key(&job.account, &job.period), outcome_value(&o));
    }
}

#[test]
fn keys_and_values_have_the_ledger_format() {
    assert_eq!(request_key("2021001", "week"), "request:2021001:week");
    assert_eq!(result_key("2021001", "month"), "result:2021001:month");
    assert_eq!(pending_value("TGT-abc"), "waiting:TGT-abc");
    assert_eq!(store_name(Period::Week), "report_week");
    assert_eq!(store_name(Period::Month), "report_month");
}

#[test]
fn take_job_reads_key_and_token() {
    let j = take_job("request:2021001:month", "waiting:TGT-1:x").unwrap();
    assert_eq!(j.account, "2021001");
    assert_eq!(j.period, "month");
    assert_eq!(j.token, "TGT-1:x");
    assert!(take_job("result:2021001:month", "waiting:t").is_none());
    assert!(take_job("request:2021001", "waiting:t").is_none());
    assert!(take_job("request:2021001:week", "done:t").is_none());
}

#[test]
fn locator_text_round_trip() {
    let l = report_locator(Period::Week, "2021001", "65a1b2");
    assert_eq!(l.to_text(), "report_week/2021001/65a1b2");
    assert_eq!(Locator::parse("report_week/2021001/65a1b2"), Some(l));
    assert_eq!(Locator::parse("report_week/2021001"), None);
}

#[test]
fn resubmitting_while_processing_adds_no_job() {
    let mut store = Store::new();
    assert_eq!(client_poll(&mut store, "a1", "week", "t1"), Status::Created);
    assert_eq!(store.len(), 1);
    let before = store.clone();
    assert_eq!(client_poll(&mut store, "a1", "week", "t2"), Status::Processing);
    assert_eq!(store, before);
    assert_eq!(store.get("request:a1:week").unwrap(), "waiting:t1");
}

#[test]
fn processed_job_finishes() {
    let mut store = Store::new();
    assert_eq!(client_poll(&mut store, "a1", "week", "t1"), Status::Created);
    worker_tick(&mut store, &|acc, _| Ok(report_locator(Period::Week, acc, "id7")));
    assert!(!store.contains_key("request:a1:week"));
    let expect = Locator {
        store: "report_week".to_string(),
        collection: "a1".to_string(),
        id: "id7".to_string(),
    };
    assert_eq!(client_poll(&mut store, "a1", "week", "t1"), Status::Finished(expect.clone()));
    assert_eq!(client_poll(&mut store, "a1", "week", "t1"), Status::Finished(expect));
}

#[test]
fn card_error_heals_after_one_poll() {
    let mut store = Store::new();
    assert_eq!(client_poll(&mut store, "a2", "month", "t"), Status::Created);
    worker_tick(&mut store, &|_, _| Err(WorkerError::CardSystemError("余额查询失败".to_string())));
    assert_eq!(store.get("result:a2:month").unwrap(), "error:Card system error: 余额查询失败");
    assert_eq!(
        client_poll(&mut store, "a2", "month", "t"),
        Status::Error("Card system error: 余额查询失败".to_string())
    );
    assert!(store.is_empty());
    assert_eq!(client_poll(&mut store, "a2", "month", "t"), Status::Created);
    assert!(store.contains_key("request:a2:month"));
}

#[test]
fn malformed_pointer_is_an_error_and_cleared() {
    let (s, a) = poll("a", "week", "t", false, Some("garbage"));
    assert_eq!(s, Status::Error("malformed result pointer".to_string()));
    assert_eq!(a, StoreAction::Delete("result:a:week".to_string()));
}

#[test]
fn error_messages_name_their_kind() {
    assert_eq!(WorkerError::InvalidPeriod("day".to_string()).message(), "Invalid period: day");
    assert_eq!(WorkerError::AuthError("expired".to_string()).message(), "Authentication error: expired");
    assert_eq!(WorkerError::ParseError("x".to_string()).message(), "Parse error: x");
    assert_eq!(WorkerError::StoreError("down".to_string()).message(), "Store error: down");
    assert_eq!(WorkerError::CardSystemError("m".to_string()).message(), "Card system error: m");
}

#[test]
fn invalid_period_is_refused() {
    assert_eq!(parse_period("week"), Ok(Period::Week));
    assert_eq!(parse_period("month"), Ok(Period::Month));
    assert_eq!(parse_period("year"), Err(WorkerError::InvalidPeriod("year".to_string())));
    assert_eq!(Period::Month.name(), "month");
}

fn fixture_line(signed: &str, amount: &str, name: &str, acc: &str) -> RawLine {
    RawLine {
        sign_tranamt: Some(signed.to_string()),
        tranamt: Some(amount.to_string()),
        occtime: Some("20240110121000".to_string()),
        mercname: Some(name.to_string()),
        mercacc: Some(acc.to_string()),
        cardbal: Some("5000".to_string()),
    }
}

fn fixture_pages() -> Vec<RawPage> {
    vec![
        RawPage {
            retcode: Some("0".to_string()),
            errmsg: None,
            nextpage: Some("2".to_string()),
            lines: vec![
                fixture_line("-1599", "1599", "西一食堂", "m1"),
                fixture_line("20000", "20000", "圈存", "bank"),
            ],
        },
        RawPage {
            retcode: Some("0".to_string()),
            errmsg: None,
            nextpage: Some("0".to_string()),
            lines: vec![
                fixture_line("-801", "801", "教超", "m2"),
                fixture_line("-100", "100", "校园超市", "m3"),
            ],
        },
    ]
}

fn build_report(pages: &[RawPage]) -> Result<ReportData, WorkerError> {
    let mut agg = Aggregation::new();
    let mut i = 0;
    while !agg.done() {
        let lines = agg.accept_page(&pages[i])?;
        i += 1;
        for t in lines {
            let cat = if t.is_topup() {
                Category::Other
            } else {
                resolve_tag(None, &t.merchant).category
            };
            agg.post(t, cat)?;
        }
    }
    Ok(agg.finish("202402".to_string(), [Trend { count: 0, expense: 0 }; 3]))
}

#[test]
fn end_to_end_new_account_week_report() {
    let mut store = Store::new();
    let docs: RefCell<HashMap<String, ReportData>> = RefCell::new(HashMap::new());
    assert_eq!(client_poll(&mut store, "u9", "week", "tok"), Status::Created);
    worker_tick(&mut store, &|acc, period| {
        let p = parse_period(period)?;
        let report = build_report(&fixture_pages())?;
        let l = report_locator(p, acc, "d1");
        docs.borrow_mut().insert(l.to_text(), report);
        Ok(l)
    });
    let l = match client_poll(&mut store, "u9", "week", "tok") {
        Status::Finished(l) => l,
        other => panic!("unexpected {:?}", other),
    };
    let docs = docs.borrow();
    let r = docs.get(&l.to_text()).unwrap();
    assert_eq!(r.total_expense, 1599 + 801 + 100);
    assert_eq!(r.total_expense as f64 / 100.0, 25.0);
    assert_eq!(r.total_topup, 20000);
    assert_eq!(r.total_count, 3);
    assert_eq!(r.groceries_count, 1);
    assert_eq!(r.other_count, 1);
}

#[test]
fn poll_statuses_map_to_responses() {
    assert_eq!(report_response(&Status::Created), (201, "Report generation queued".to_string()));
    assert_eq!(report_response(&Status::Processing), (201, "Report is being generated".to_string()));
    let l = report_locator(Period::Month, "a", "b");
    assert_eq!(report_response(&Status::Finished(l)), (200, "Success".to_string()));
    assert_eq!(report_response(&Status::Error("boom".to_string())), (500, "boom".to_string()));
}
