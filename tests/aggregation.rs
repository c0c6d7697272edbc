use ecard_report::aggregate::{request_form, Aggregation};
use ecard_report::calendar::Date;
use ecard_report::ledger::Transaction;
use ecard_report::model::{Category, Period, Trend, WorkerError};
use ecard_report::page::{validate_page, RawLine, RawPage};
use ecard_report::tagger::{resolve_tag, TagAction};

fn raw_line(signed: &str, amount: &str, time: &str, name: &str, acc: &str) -> RawLine {
    RawLine {
        sign_tranamt: Some(signed.to_string()),
        tranamt: Some(amount.to_string()),
        occtime: Some(time.to_string()),
        mercname: Some(name.to_string()),
        mercacc: Some(acc.to_string()),
        cardbal: Some("10000".to_string()),
    }
}

fn page(next: &str, lines: Vec<RawLine>) -> RawPage {
    RawPage {
        retcode: Some("0".to_string()),
        errmsg: None,
        nextpage: Some(next.to_string()),
        lines,
    }
}

fn tx(signed: i64, amount: i64, time: i64, name: &str, acc: &str) -> Transaction {
    Transaction {
        signed_amount: signed,
        amount,
        time,
        time_text: time.to_string(),
        merchant: name.to_string(),
        merchant_acc: acc.to_string(),
    }
}

fn trend0() -> [Trend; 3] {
    [Trend { count: 0, expense: 0 }; 3]
}

/// Books every line of every page the way the worker does, with a tag store
/// that knows nothing; returns the number of page requests made.
fn run(pages: &[RawPage], agg: &mut Aggregation) -> Result<usize, WorkerError> {
    let mut requests = 0;
    while !agg.done() {
        let p = &pages[requests];
        requests += 1;
        let lines = agg.accept_page(p)?;
        for t in lines {
            let cat = if t.is_topup() {
                Category::Other
            } else {
                match agg.known_category(&t.merchant_acc) {
                    Some(c) => c,
                    None => resolve_tag(None, &t.merchant).category,
                }
            };
            agg.post(t, cat)?;
        }
    }
    Ok(requests)
}

#[test]
fn pagination_stops_at_zero_cursor() {
    let pages = vec![
        page("2", vec![raw_line("-100", "100", "20240105120000", "东一食堂", "m1")]),
        page("3", vec![raw_line("-200", "200", "20240106120000", "东一食堂", "m1")]),
        page("0", vec![raw_line("-300", "300", "20240107120000", "东一食堂", "m1")]),
        page("9", vec![]),
    ];
    let mut agg = Aggregation::new();
    assert_eq!(agg.cursor(), "1");
    let n = run(&pages, &mut agg).unwrap();
    assert_eq!(n, 3);
    assert!(agg.done());
    assert_eq!(agg.cursor(), "0");
}

#[test]
fn top_count_tie_keeps_first_leader() {
    let mut agg = Aggregation::new();
    for _ in 0..3 {
        agg.post(tx(-1000, 1000, 20240105120000, "A", "a"), Category::Other).unwrap();
    }
    for amount in [1300, 1300, 1400] {
        agg.post(tx(-amount, amount, 20240106120000, "B", "b"), Category::Other).unwrap();
    }
    let r = agg.finish("202401".to_string(), trend0());
    assert_eq!(r.top_count.location, "A");
    assert_eq!(r.top_count.count, 3);
    assert_eq!(r.top_count.amount, 3000);
    assert_eq!(r.top_expense.location, "B");
    assert_eq!(r.top_expense.amount, 1400);
}

#[test]
fn top_count_overtaken_by_strictly_more() {
    let mut agg = Aggregation::new();
    agg.post(tx(-100, 100, 1, "A", "a"), Category::Other).unwrap();
    agg.post(tx(-100, 100, 2, "B", "b"), Category::Other).unwrap();
    agg.post(tx(-250, 250, 3, "B", "b"), Category::Other).unwrap();
    let r = agg.finish("x".to_string(), trend0());
    assert_eq!(r.top_count.location, "B");
    assert_eq!(r.top_count.count, 2);
    assert_eq!(r.top_count.amount, 350);
}

#[test]
fn same_merchant_keeps_its_category_within_a_run() {
    let mut agg = Aggregation::new();
    let c1 = agg.post(tx(-100, 100, 1, "东一食堂", "m1"), Category::Cafeteria).unwrap();
    assert_eq!(agg.known_category("m1"), Some(Category::Cafeteria));
    let c2 = agg.post(tx(-100, 100, 2, "东一食堂", "m1"), Category::Groceries).unwrap();
    assert_eq!(c1, Category::Cafeteria);
    assert_eq!(c2, Category::Cafeteria);
    let r = agg.finish("x".to_string(), trend0());
    assert_eq!(r.cafeteria_count, 2);
    assert_eq!(r.groceries_count, 0);
}

#[test]
fn totals_equal_category_sums() {
    let mut agg = Aggregation::new();
    agg.post(tx(-120, 120, 20240105073000, "学一食堂", "c"), Category::Cafeteria).unwrap();
    agg.post(tx(-340, 340, 20240105100000, "校园超市", "g"), Category::Groceries).unwrap();
    agg.post(tx(-560, 560, 20240105100000, "快递站", "l"), Category::Logistics).unwrap();
    agg.post(tx(-780, 780, 20240105100000, "打印店", "o"), Category::Other).unwrap();
    agg.post(tx(5000, 5000, 20240105100000, "充值", "t"), Category::Other).unwrap();
    let r = agg.finish("x".to_string(), trend0());
    assert_eq!(r.total_count, 4);
    assert_eq!(r.total_expense, 1800);
    assert_eq!(r.total_topup, 5000);
    assert_eq!(
        r.total_count,
        r.cafeteria_count + r.groceries_count + r.logistics_count + r.other_count
    );
    assert_eq!(
        r.total_expense,
        r.cafeteria_amount + r.groceries_amount + r.logistics_amount + r.other_amount
    );
    assert_eq!(r.logistics_amount, 560);
}

#[test]
fn meal_windows_are_half_open() {
    let mut agg = Aggregation::new();
    agg.post(tx(-1, 100, 20240105060000, "c", "c"), Category::Cafeteria).unwrap();
    agg.post(tx(-1, 200, 20240105085959, "c", "c"), Category::Cafeteria).unwrap();
    agg.post(tx(-1, 400, 20240105090000, "c", "c"), Category::Cafeteria).unwrap();
    agg.post(tx(-1, 800, 20240105123000, "c", "c"), Category::Cafeteria).unwrap();
    agg.post(tx(-1, 1600, 20240105180000, "c", "c"), Category::Cafeteria).unwrap();
    agg.post(tx(-1, 3200, 20240105235959, "c", "c"), Category::Cafeteria).unwrap();
    agg.post(tx(-1, 6400, 20240105073000, "s", "s"), Category::Groceries).unwrap();
    let r = agg.finish("x".to_string(), trend0());
    assert_eq!(r.breakfast.count, 2);
    assert_eq!(r.breakfast.amount, 300);
    assert_eq!(r.lunch.amount, 800);
    assert_eq!(r.dinner.amount, 1600);
    assert_eq!(r.midnight_snack.amount, 3200);
    assert_eq!(r.cafeteria_amount, 6300);
    assert_eq!(r.cafeteria_count, 6);
}

#[test]
fn topup_counts_only_as_topup() {
    let mut agg = Aggregation::new();
    agg.post(tx(2000, 2000, 1, "bank", "b"), Category::Other).unwrap();
    let r = agg.finish("x".to_string(), trend0());
    assert_eq!(r.total_topup, 2000);
    assert_eq!(r.total_count, 0);
    assert_eq!(r.total_expense, 0);
    assert_eq!(r.other_count, 0);
    assert_eq!(r.top_expense.amount, 0);
    assert_eq!(r.top_expense.location, "");
    assert_eq!(r.top_count.count, 0);
    assert_eq!(agg.known_category("b"), None);
}

#[test]
fn overflowing_amount_is_refused() {
    let mut agg = Aggregation::new();
    agg.post(tx(-1, i64::MAX, 1, "a", "a"), Category::Other).unwrap();
    let r = agg.post(tx(-1, 1, 2, "a", "a"), Category::Other);
    assert!(matches!(r, Err(WorkerError::ParseError(_))));
    let rep = agg.finish("x".to_string(), trend0());
    assert_eq!(rep.total_count, 1);
    assert_eq!(rep.total_expense, i64::MAX);
}

#[test]
fn end_to_end_week_report_totals() {
    // two upstream pages: expenses of 12.50, 3.25 and 30.00, one top-up of 100.00
    let pages = vec![
        page(
            "2",
            vec![
                raw_line("-1250", "1250", "20240105121500", "东一食堂", "m1"),
                raw_line("10000", "10000", "20240105130000", "充值", "bank"),
            ],
        ),
        page(
            "0",
            vec![
                raw_line("-325", "325", "20240106080000", "东一食堂", "m1"),
                raw_line("-3000", "3000", "20240106190000", "校园超市", "m2"),
            ],
        ),
    ];
    let mut agg = Aggregation::new();
    assert_eq!(run(&pages, &mut agg).unwrap(), 2);
    let r = agg.finish("202401".to_string(), trend0());
    assert_eq!(r.total_expense, 1250 + 325 + 3000);
    assert_eq!(r.total_expense as f64 / 100.0, 45.75);
    assert_eq!(r.total_topup, 10000);
    assert_eq!(r.balance, 10000);
    assert_eq!(r.total_count, 3);
    assert_eq!(r.cafeteria_count, 2);
    assert_eq!(r.groceries_amount, 3000);
    assert_eq!(r.lunch.amount, 1250);
    assert_eq!(r.breakfast.amount, 325);
    assert_eq!(r.top_count.location, "东一食堂");
    assert_eq!(r.top_count.count, 2);
    assert_eq!(r.top_count.amount, 1575);
    assert_eq!(r.top_expense.time, "20240106190000");
}

#[test]
fn balance_is_read_from_first_page_only() {
    let mut first = raw_line("-1", "1", "1", "a", "a");
    first.cardbal = Some("4321".to_string());
    let mut second = raw_line("-1", "1", "1", "a", "a");
    second.cardbal = Some("9999".to_string());
    let pages = vec![page("2", vec![first]), page("0", vec![second])];
    let mut agg = Aggregation::new();
    run(&pages, &mut agg).unwrap();
    let r = agg.finish("x".to_string(), trend0());
    assert_eq!(r.balance, 4321);
}

#[test]
fn empty_first_page_has_zero_balance() {
    let pages = vec![page("0", vec![])];
    let mut agg = Aggregation::new();
    assert_eq!(run(&pages, &mut agg).unwrap(), 1);
    let r = agg.finish("x".to_string(), trend0());
    assert_eq!(r.balance, 0);
    assert_eq!(r.total_count, 0);
}

#[test]
fn card_system_error_carries_upstream_message() {
    let p = RawPage {
        retcode: Some("1".to_string()),
        errmsg: Some("系统维护中".to_string()),
        nextpage: None,
        lines: vec![],
    };
    let mut agg = Aggregation::new();
    match agg.accept_page(&p) {
        Err(WorkerError::CardSystemError(m)) => assert_eq!(m, "系统维护中"),
        other => panic!("unexpected {:?}", other.map(|v| v.len())),
    }
    assert_eq!(agg.cursor(), "1");
    assert!(!agg.done());
}

#[test]
fn malformed_pages_are_parse_errors() {
    let mut p = page("0", vec![raw_line("-1", "1x", "1", "a", "a")]);
    assert!(matches!(validate_page(&p), Err(WorkerError::ParseError(_))));
    p.lines[0].tranamt = Some("1".to_string());
    p.lines[0].mercacc = None;
    assert!(matches!(validate_page(&p), Err(WorkerError::ParseError(_))));
    let mut q = page("0", vec![]);
    q.retcode = None;
    assert!(matches!(validate_page(&q), Err(WorkerError::ParseError(_))));
    let mut q = page("0", vec![]);
    q.nextpage = None;
    assert!(matches!(validate_page(&q), Err(WorkerError::ParseError(_))));
    let mut r = page("0", vec![raw_line("-1", "1", "1", "a", "a")]);
    r.lines[0].cardbal = Some("abc".to_string());
    assert!(matches!(validate_page(&r), Err(WorkerError::ParseError(_))));
}

#[test]
fn valid_page_is_read_field_by_field() {
    let p = page("7", vec![raw_line("-250", "250", "20240105073000", "东二", "acc9")]);
    let q = validate_page(&p).unwrap();
    assert_eq!(q.next, "7");
    assert_eq!(q.balance, Some(10000));
    assert_eq!(q.lines.len(), 1);
    assert_eq!(q.lines[0].signed_amount, -250);
    assert_eq!(q.lines[0].amount, 250);
    assert_eq!(q.lines[0].time, 20240105073000);
    assert_eq!(q.lines[0].merchant_acc, "acc9");
}

#[test]
fn untagged_merchant_is_recorded_and_tagged_one_is_stored() {
    let r = resolve_tag(None, "打印店");
    assert_eq!(r.category, Category::Other);
    assert_eq!(r.action, TagAction::RecordUntagged);
    let r = resolve_tag(None, "韵苑食堂");
    assert_eq!(r.action, TagAction::Store(Category::Cafeteria));
}

#[test]
fn request_form_for_month() {
    let d = Date::new(2024, 3, 17).unwrap();
    let f = request_form("12345", Period::Month, &d, "4");
    assert_eq!(f[0], ("account".to_string(), "12345".to_string()));
    assert_eq!(f[1], ("curpage".to_string(), "4".to_string()));
    assert_eq!(f[2], ("typeStatus".to_string(), "1".to_string()));
    assert_eq!(f[3], ("dateStatus".to_string(), "2024-03-01".to_string()));
    let w = request_form("12345", Period::Week, &d, "1");
    assert_eq!(w[3].1, "3");
}
