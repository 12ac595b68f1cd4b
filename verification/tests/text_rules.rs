use transaction_api::responses::{
    insert_outcome, position_of, replay_decision, DatabaseResult, Rejection, Replay,
};
use transaction_api::text::{
    concat2, concat3, eq_ignore_ascii_case, is_blank, normalize, str_equal, trimmed,
};

#[test]
fn trims_unicode_white_space() {
    assert_eq!(trimmed("  a b \t\n"), "a b");
    assert_eq!(trimmed("\u{3000}x\u{a0}"), "x");
    assert_eq!(trimmed("  k "), "k");
    assert!(is_blank(" \t "));
    assert!(is_blank(""));
    assert!(!is_blank(" x "));
}

#[test]
fn lower_cases_and_normalizes() {
    assert_eq!(normalize("ÀBC"), "àbc");
    assert_eq!(normalize("  Spending "), "spending");
}

#[test]
fn compares_texts() {
    assert!(eq_ignore_ascii_case("Alice", "aLICE"));
    assert!(!eq_ignore_ascii_case("Alice", "Alicia"));
    assert!(!eq_ignore_ascii_case("É", "é"));
    assert!(str_equal("a", "a"));
    assert!(!str_equal("a", "A"));
}

#[test]
fn builds_texts() {
    assert_eq!(concat2("x", "y"), "xy");
    assert_eq!(concat3("x", "y", "z"), "xyz");
}

#[test]
fn rejections_carry_their_parts() {
    let r = Rejection::new(404, "Not found", "gone");
    assert_eq!((r.status, r.message.as_str(), r.description.as_str()), (404, "Not found", "gone"));
    let t = Rejection::titled(400, "Bad".to_string(), "");
    assert_eq!(t.message, "Bad");
    let d = Rejection::with_description(409, "Conflict", "dup".to_string());
    assert_eq!(d.description, "dup");
}

#[test]
fn replays_follow_the_holder() {
    assert!(matches!(replay_decision(None), Replay::Fresh));
    assert!(matches!(replay_decision(Some(true)), Replay::Repeat));
    assert!(matches!(replay_decision(Some(false)), Replay::Taken));
}

#[test]
fn inserts_report_duplicates() {
    assert!(insert_outcome(DatabaseResult::Inserted, "Failed to insert source", "Source already exists").is_ok());
    let e = insert_outcome(DatabaseResult::Duplicate, "Failed to insert source", "Source already exists").err().unwrap();
    assert_eq!((e.status, e.message.as_str(), e.description.as_str()), (400, "Failed to insert source", "Source already exists"));
}

#[test]
fn finds_the_first_record_with_an_id() {
    assert_eq!(position_of(&[3, 7, 7], 7), Some(1));
    assert_eq!(position_of(&[3, 7], 8), None);
    assert_eq!(position_of(&[], 8), None);
}
