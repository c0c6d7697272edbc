use ecard_report::calendar::{month_label, pad, period_label, trend_labels, Date, Month};
use ecard_report::model::{Category, Period, ReportData, Trend};
use ecard_report::numeric::parse_i64;
use ecard_report::tagger::{classify_name, resolve_tag, Resolution, TagAction};
use ecard_report::text::{contains, starts_with};
use ecard_report::trend::{backfill_anchor, trend_step, trend_of, zero_trend, TrendStep};

#[test]
fn cafeteria_rules_come_before_grocery_rules() {
    assert_eq!(classify_name("百景园"), Category::Cafeteria);
    assert_eq!(classify_name("东园食堂超市"), Category::Cafeteria);
    assert_eq!(classify_name("紫荆园二楼"), Category::Cafeteria);
    assert_eq!(classify_name("教工超市"), Category::Groceries);
    assert_eq!(classify_name("便民商店"), Category::Groceries);
    assert_eq!(classify_name("复印社"), Category::Other);
    assert_eq!(classify_name(""), Category::Other);
}

#[test]
fn stored_tag_wins() {
    assert_eq!(
        resolve_tag(Some("LOG"), "东一食堂"),
        Resolution { category: Category::Logistics, action: TagAction::Keep }
    );
    assert_eq!(
        resolve_tag(Some("bogus"), "东一食堂"),
        Resolution { category: Category::Cafeteria, action: TagAction::Store(Category::Cafeteria) }
    );
}

#[test]
fn stored_classification_is_stable() {
    let first = resolve_tag(None, "西区超市");
    assert_eq!(first.action, TagAction::Store(Category::Groceries));
    let again = resolve_tag(Some(Category::Groceries.tag()), "西区超市");
    assert_eq!(again, Resolution { category: Category::Groceries, action: TagAction::Keep });
    assert_eq!(Category::from_tag("OTH"), Some(Category::Other));
    assert_eq!(Category::from_tag("caf"), None);
}

#[test]
fn integers_parse_as_decimal() {
    assert_eq!(parse_i64("123"), Some(123));
    assert_eq!(parse_i64("-45"), Some(-45));
    assert_eq!(parse_i64("+7"), Some(7));
    assert_eq!(parse_i64("007"), Some(7));
    assert_eq!(parse_i64(""), None);
    assert_eq!(parse_i64("-"), None);
    assert_eq!(parse_i64("12a"), None);
    assert_eq!(parse_i64("1.5"), None);
    assert_eq!(parse_i64("9223372036854775807"), Some(i64::MAX));
    assert_eq!(parse_i64("9223372036854775808"), None);
    assert_eq!(parse_i64("-9223372036854775808"), Some(i64::MIN));
    assert_eq!(parse_i64("-9223372036854775809"), None);
}

#[test]
fn substring_search() {
    assert!(contains("华中科技大学东一食堂", "东一"));
    assert!(contains("abc", ""));
    assert!(!contains("ab", "abc"));
    assert!(starts_with("error:x", "error:"));
    assert!(!starts_with("err", "error:"));
}

#[test]
fn dates_are_checked() {
    assert!(Date::new(2024, 2, 29).is_some());
    assert!(Date::new(2023, 2, 29).is_none());
    assert!(Date::new(1900, 2, 29).is_none());
    assert!(Date::new(2000, 2, 29).is_some());
    assert!(Date::new(2024, 4, 31).is_none());
    assert!(Date::new(2024, 13, 1).is_none());
    assert!(Date::new(0, 1, 1).is_none());
}

#[test]
fn month_labels_are_zero_padded() {
    assert_eq!(month_label(Month { year: 2024, month: 3 }), "202403");
    assert_eq!(month_label(Month { year: 987, month: 11 }), "098711");
    assert_eq!(pad(5, 3), "005");
}

#[test]
fn month_trend_walks_back_across_the_year() {
    let d = Date::new(2024, 2, 15).unwrap();
    let labels = trend_labels(Period::Month, &d);
    assert_eq!(
        labels,
        vec![Some("202401".to_string()), Some("202312".to_string()), Some("202311".to_string())]
    );
    assert_eq!(period_label(Period::Month, &d), Some("202402".to_string()));
}

#[test]
fn week_labels_count_sunday_weeks() {
    // 2024-01-22 is a Monday; 2024-01-01 (a Monday) lies in week 00.
    let d = Date::new(2024, 1, 22).unwrap();
    assert_eq!(period_label(Period::Week, &d), Some("202403".to_string()));
    let labels = trend_labels(Period::Week, &d);
    assert_eq!(
        labels,
        vec![Some("202402".to_string()), Some("202401".to_string()), Some("202400".to_string())]
    );
}

#[test]
fn backfill_only_for_top_level_month_runs() {
    let m = Month { year: 2024, month: 1 };
    let t = Trend { count: 4, expense: 900 };
    assert_eq!(trend_step(Period::Month, false, Some(t), m), TrendStep::Use(t));
    assert_eq!(trend_step(Period::Month, false, None, m), TrendStep::Backfill(m));
    assert_eq!(trend_step(Period::Month, true, None, m), TrendStep::Zero);
    assert_eq!(trend_step(Period::Week, false, None, m), TrendStep::Zero);
    assert_eq!(backfill_anchor(m), Date::new(2024, 1, 1));
    assert_eq!(backfill_anchor(Month { year: 0, month: 12 }), None);
    assert_eq!(zero_trend(), Trend { count: 0, expense: 0 });
}

#[test]
fn trend_takes_count_and_expense() {
    let r = ReportData {
        date: "202401".to_string(),
        balance: 0,
        total_expense: 777,
        total_topup: 0,
        total_count: 3,
        top_expense: ecard_report::model::Expense {
            time: String::new(),
            location: String::new(),
            amount: 0,
        },
        top_count: ecard_report::model::Trans { location: String::new(), amount: 0, count: 0 },
        trend: [zero_trend(); 3],
        cafeteria_count: 3,
        cafeteria_amount: 777,
        groceries_count: 0,
        groceries_amount: 0,
        logistics_count: 0,
        logistics_amount: 0,
        other_count: 0,
        other_amount: 0,
        breakfast: ecard_report::model::Meal { count: 0, amount: 0 },
        lunch: ecard_report::model::Meal { count: 0, amount: 0 },
        dinner: ecard_report::model::Meal { count: 0, amount: 0 },
        midnight_snack: ecard_report::model::Meal { count: 0, amount: 0 },
    };
    assert_eq!(trend_of(&r), Trend { count: 3, expense: 777 });
}
