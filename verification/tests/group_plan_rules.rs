use transaction_api::group_plan::{
    cancel_outcome, group_routine_found, planned_expense_found, review_outcome, review_target,
    routine_payment_source_id,
    check_cancel, check_name_and_price, check_payment_price, fulfil_refusal, fulfil_step,
    group_balance_source, initial_plan_status, initial_reviewed_by, make_payer, owned_pay_source,
    pay_source, payment_description, plan_created_message, require_membership, require_leader_to_review,
    require_routine_manager, review_transition, role_from_leader, routine_payment_refusal,
    FulfilOutcome, FulfilStep, MemberSpending, PaySource, Payer, Role,
};
use transaction_api::responses::Rejection;

fn refusal<T>(r: Result<T, Rejection>) -> (u16, String, String) {
    match r {
        Ok(_) => panic!("expected a refusal"),
        Err(e) => (e.status, e.message, e.description),
    }
}

fn rej(status: u16, message: &str, description: &str) -> (u16, String, String) {
    (status, message.to_string(), description.to_string())
}

#[test]
fn outsiders_are_told_the_group_does_not_exist() {
    assert!(require_membership(true).is_ok());
    assert_eq!(refusal(require_membership(false)), rej(404, "Group not found", ""));
}

#[test]
fn the_leader_is_matched_exactly() {
    assert!(matches!(role_from_leader(Some("ann"), "ann"), Role::Leader));
    assert!(matches!(role_from_leader(Some("Ann"), "ann"), Role::Member));
    assert!(matches!(role_from_leader(None, "ann"), Role::Member));
}

#[test]
fn routines_and_reviews_are_for_the_leader() {
    assert!(require_routine_manager(&Role::Leader).is_ok());
    assert_eq!(refusal(require_routine_manager(&Role::Member)), rej(403, "Only the group leader can manage routines", ""));
    assert!(require_leader_to_review(&Role::Leader).is_ok());
    assert_eq!(refusal(require_leader_to_review(&Role::Member)), rej(403, "Only the group leader can review requests", ""));
}

#[test]
fn items_need_a_name_and_a_positive_price() {
    assert_eq!(check_name_and_price("  Milk ", false).ok().unwrap(), "Milk");
    assert_eq!(refusal(check_name_and_price("   ", false)), rej(400, "Name and a positive price are required", ""));
    assert_eq!(refusal(check_name_and_price("Milk", true)), rej(400, "Name and a positive price are required", ""));
    assert!(check_payment_price(false).is_ok());
    assert_eq!(refusal(check_payment_price(true)), rej(400, "Price must be positive", ""));
}

#[test]
fn new_items_depend_on_who_adds_them() {
    assert_eq!(initial_plan_status(&Role::Leader), "planned");
    assert_eq!(initial_plan_status(&Role::Member), "requested");
    assert_eq!(initial_reviewed_by(&Role::Leader, "ann"), Some("ann".to_string()));
    assert_eq!(initial_reviewed_by(&Role::Member, "bob"), None);
    assert_eq!(plan_created_message(&Role::Leader), "Group planned expense added");
    assert_eq!(plan_created_message(&Role::Member), "Request sent to the group leader");
}

#[test]
fn reviews_move_only_waiting_requests() {
    assert_eq!(review_transition("requested", true).ok().unwrap(), "planned");
    assert_eq!(review_transition("requested", false).ok().unwrap(), "rejected");
    for closed in ["planned", "rejected", "fulfilled", "canceled"] {
        assert_eq!(refusal(review_transition(closed, true)), rej(409, "This request was already handled", ""));
    }
}

#[test]
fn only_planned_items_are_bought() {
    assert!(matches!(fulfil_step("planned", None, "ann"), Ok(FulfilStep::Buy)));
    assert!(matches!(fulfil_step("fulfilled", Some("ann"), "ann"), Ok(FulfilStep::AlreadyYours)));
    assert_eq!(refusal(fulfil_step("fulfilled", Some("bob"), "ann")), rej(409, "This item cannot be bought right now", "It is fulfilled."));
    assert_eq!(refusal(fulfil_step("requested", None, "ann")), rej(409, "This item cannot be bought right now", "It is requested."));
}

#[test]
fn cancellation_rights() {
    assert!(check_cancel(&Role::Leader, "planned", "bob", "ann").is_ok());
    assert!(check_cancel(&Role::Leader, "requested", "bob", "ann").is_ok());
    assert!(check_cancel(&Role::Member, "requested", "bob", "bob").is_ok());
    assert_eq!(refusal(check_cancel(&Role::Member, "requested", "bob", "ann")), rej(403, "You cannot cancel this item", ""));
    assert_eq!(refusal(check_cancel(&Role::Member, "planned", "bob", "bob")), rej(403, "You cannot cancel this item", ""));
    assert_eq!(refusal(check_cancel(&Role::Leader, "fulfilled", "bob", "ann")), rej(403, "You cannot cancel this item", ""));
}

#[test]
fn payment_descriptions_fall_back_to_the_item() {
    assert_eq!(payment_description(Some("weekly"), "Milk"), "weekly");
    assert_eq!(payment_description(Some("  "), "Milk"), "Milk");
    assert_eq!(payment_description(None, "Milk"), "Milk");
}

#[test]
fn payments_need_a_source() {
    assert!(matches!(pay_source(true, None), Ok(PaySource::GroupBalance)));
    assert!(matches!(pay_source(true, Some(5)), Ok(PaySource::GroupBalance)));
    assert!(matches!(pay_source(false, Some(5)), Ok(PaySource::Source(5))));
    assert_eq!(refusal(pay_source(false, None)), rej(400, "Choose where the money comes from", "Send a source_id or set from_group_balance."));
    assert_eq!(owned_pay_source(Some("Wallet".to_string())).ok().unwrap(), "Wallet");
    assert_eq!(refusal(owned_pay_source(None)), rej(400, "Source not found", "Pay from one of your own sources."));
    assert_eq!(group_balance_source(), "Group balance");
}

#[test]
fn payers_follow_the_balance_flag() {
    let spending = || MemberSpending {
        spending_id: 7,
        group_id: 9,
        spent_by: "ann".to_string(),
        total_amount: 12.5f64,
        description: "Snacks".to_string(),
        spending_category_id: 4,
        spending_category: "Food".to_string(),
        created_date: "2024-05-01 10:00:00",
    };
    match make_payer(false, spending()) {
        Payer::Source(s) => assert_eq!((s.spending_id, s.total_amount, s.spent_by.as_str()), (7, 12.5, "ann")),
        Payer::GroupBalance(_) => panic!("a payment from a source stays a personal spending"),
    }
    match make_payer(true, spending()) {
        Payer::GroupBalance(b) => {
            assert_eq!((b.entry_id, b.group_id, b.username.as_str(), b.spent), (7, 9, "ann", 12.5));
            assert_eq!((b.entry_type.as_str(), b.description.as_str()), ("spending", "Snacks"));
            assert_eq!((b.spending_category_id, b.spending_category.as_str(), b.created_date), (4, "Food", "2024-05-01 10:00:00"));
        }
        Payer::Source(_) => panic!("a payment from the group balance becomes a balance spending"),
    }
}

#[test]
fn store_outcomes_are_answered() {
    assert!(fulfil_refusal(FulfilOutcome::Done).is_ok());
    assert_eq!(refusal(fulfil_refusal(FulfilOutcome::NotPlanned)), rej(409, "Someone already bought this item", ""));
    assert_eq!(refusal(fulfil_refusal(FulfilOutcome::InsufficientBalance)), rej(409, "Not enough group balance", "Add balance first, or pay from one of your sources."));
    assert!(routine_payment_refusal(true).is_ok());
    assert_eq!(refusal(routine_payment_refusal(false)), rej(409, "Not enough group balance", "Add balance first, or pay from one of your sources."));
}

#[test]
fn closed_items_stay_closed() {
    for status in ["rejected", "fulfilled", "canceled"] {
        assert!(review_transition(status, true).is_err());
        assert!(!matches!(fulfil_step(status, Some("x"), "ann"), Ok(FulfilStep::Buy)));
        assert!(check_cancel(&Role::Leader, status, "ann", "ann").is_err());
        assert!(check_cancel(&Role::Member, status, "ann", "ann").is_err());
    }
}

#[test]
fn store_updates_of_planned_items() {
    assert_eq!(review_target(true), "planned");
    assert_eq!(review_target(false), "rejected");
    assert!(review_outcome(true).is_ok());
    assert_eq!(refusal(review_outcome(false)), rej(409, "This request was already handled", ""));
    assert!(cancel_outcome(true).is_ok());
    assert_eq!(refusal(cancel_outcome(false)), rej(409, "This item changed meanwhile - refresh and try again", ""));
    assert_eq!(planned_expense_found(Some(1u8)).ok(), Some(1));
    assert_eq!(refusal(planned_expense_found::<u8>(None)), rej(404, "Planned expense not found", ""));
    assert_eq!(group_routine_found(Some(1u8)).ok(), Some(1));
    assert_eq!(refusal(group_routine_found::<u8>(None)), rej(404, "Group routine not found", ""));
    assert_eq!(routine_payment_source_id(true, Some(5)), 0);
    assert_eq!(routine_payment_source_id(false, Some(5)), 5);
    assert_eq!(routine_payment_source_id(false, None), 0);
}
