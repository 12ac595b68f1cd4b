use transaction_api::group_settlement::{
    about, approval_needs_transfer_category, check_reimbursement_amounts, check_settlement_amount,
    closing_status, recorded_by_caller, check_manual_payment, check_share_payer, check_share_removal, check_withdrawal,
    closed_payment, found_in_group, new_split_payment_status, owned_source, owner_side,
    owner_sources_hint, paid_by_caller, payer_side, payment_replay, reimbursable_owner,
    reimbursement_destination, reread_payment, reimbursement_mode, reimbursement_replay, reimbursement_texts,
    reread_share, review_check, settle_outcome, settlement_category, share_member, share_party,
    share_removed, share_replay, source_label, split_from_text, split_to_text, splittable, Review,
    SettleOutcome, ShareParty, ShareReplay, Side,
};
use transaction_api::responses::Rejection;

fn refusal<T>(r: Result<T, Rejection>) -> (u16, String, String) {
    match r {
        Ok(_) => panic!("expected a refusal"),
        Err(e) => (e.status, e.message, e.description),
    }
}

fn rej(status: u16, message: &str, description: &str) -> (u16, String, String) {
    (status, message.to_string(), description.to_string())
}

#[test]
fn settlement_texts_mention_the_spending() {
    assert_eq!(about("Reimburse ann".to_string(), " Dinner "), "Reimburse ann: Dinner");
    assert_eq!(about("Reimburse ann".to_string(), "  "), "Reimburse ann");
    let t = reimbursement_texts("ann", "bob", "Dinner");
    assert_eq!(t.payer, "Reimburse ann: Dinner");
    assert_eq!(t.receiver, "Reimbursement from bob: Dinner");
    assert_eq!(split_from_text("Carl", "Taxi"), "Split bill from Carl: Taxi");
    assert_eq!(split_to_text("ann", ""), "Split bill to ann");
    assert_eq!(owner_sources_hint("ann"), "Pick one of ann's sources.");
}

#[test]
fn the_transfer_category_is_needed_only_for_personal_sources() {
    assert_eq!(settlement_category(false, None::<u8>).ok(), Some(None));
    assert_eq!(settlement_category(true, Some(4u8)).ok(), Some(Some(4)));
    assert_eq!(
        refusal(settlement_category(true, None::<u8>)),
        rej(503, "Transfer category is not configured on the server", "Use a group balance instead, or ask the admin to set the Transfer category.")
    );
}

#[test]
fn sides_of_a_settlement() {
    assert!(matches!(payer_side(true, None), Ok(Side::GroupBalance)));
    assert!(matches!(payer_side(false, Some(2)), Ok(Side::Source(2))));
    assert_eq!(refusal(payer_side(false, None)), rej(400, "Choose where the money comes from", "Send a from_source_id or set from_group_balance."));
    assert!(matches!(owner_side(true, Some(2)), Ok(Side::GroupBalance)));
    assert!(matches!(owner_side(false, Some(2)), Ok(Side::Source(2))));
    assert_eq!(refusal(owner_side(false, None)), rej(400, "Choose where the money goes", "Send a to_source_id or set to_group_balance."));
    assert_eq!(owned_source(Some("W".to_string()), "x").ok().unwrap(), "W");
    assert_eq!(refusal(owned_source(None, "Pay from one of your own sources.")), rej(400, "Source not found", "Pay from one of your own sources."));
    assert_eq!(source_label(Some("Bank".to_string())), "Bank");
    assert_eq!(source_label(None), "Group balance");
}

#[test]
fn store_outcomes_of_a_settlement() {
    assert!(settle_outcome(SettleOutcome::Done).is_ok());
    assert_eq!(refusal(settle_outcome(SettleOutcome::SpendingGone)), rej(404, "Transaction not found", ""));
    assert_eq!(refusal(settle_outcome(SettleOutcome::OverLimit("12.50".to_string()))), rej(409, "Amount is more than what is left", "Only 12.50 is left to settle."));
    assert_eq!(refusal(settle_outcome(SettleOutcome::NotEnoughBalance)), rej(409, "Not enough group balance", "The payer's group balance does not cover this amount."));
    assert_eq!(refusal(settle_outcome(SettleOutcome::NotPending)), rej(409, "Payment is no longer pending", ""));
}

#[test]
fn reimbursements() {
    assert_eq!(reimbursement_mode(Some(true)), (true, false));
    assert_eq!(reimbursement_mode(Some(false)), (false, false));
    assert_eq!(reimbursement_mode(None), (false, true));
    assert_eq!(reimbursement_replay(None, "ann").ok(), Some(false));
    assert_eq!(reimbursement_replay(Some("ann"), "ann").ok(), Some(true));
    assert_eq!(refusal(reimbursement_replay(Some("bob"), "ann")), rej(409, "Reimbursement id already used", ""));
    assert_eq!(reimbursable_owner(Some("bob".to_string()), "ann").ok().unwrap(), "bob");
    assert_eq!(refusal(reimbursable_owner(Some("ANN".to_string()), "ann")), rej(400, "You cannot reimburse your own transaction", "Someone else pays you back."));
    assert_eq!(refusal(reimbursable_owner(None, "ann")), rej(404, "Transaction not found", "Only spendings of this group can be reimbursed."));
    assert_eq!(reimbursement_destination(false, None).ok(), Some(None));
    assert_eq!(reimbursement_destination(true, Some(3)).ok(), Some(Some(3)));
    assert_eq!(refusal(reimbursement_destination(true, None)), rej(400, "Choose the owner's source", "The personal part needs a to_source_id."));
}

#[test]
fn shares() {
    assert!(matches!(share_replay(None, "ann"), Ok(ShareReplay::Fresh)));
    assert!(matches!(share_replay(Some("ann"), "ann"), Ok(ShareReplay::Reread)));
    assert_eq!(refusal(share_replay(Some("bob"), "ann")), rej(409, "Share id already used", ""));
    assert_eq!(reread_share(Some(1u8)).ok(), Some(1));
    assert_eq!(refusal(reread_share::<u8>(None)), rej(409, "Share was removed", ""));
    assert!(splittable(Some("ann"), "ann").is_ok());
    assert_eq!(refusal(splittable(Some("bob"), "ann")), rej(403, "Only the person who recorded this transaction can split it", ""));
    assert_eq!(refusal(splittable(None, "ann")), rej(404, "Transaction not found", "Only spendings of this group can be split."));
}

#[test]
fn share_parties() {
    assert!(matches!(share_party(Some(" bob "), Some("x")), Ok(ShareParty::Member(u)) if u == "bob"));
    assert!(matches!(share_party(Some("  "), Some(" Carl ")), Ok(ShareParty::Name(n)) if n == "Carl"));
    assert!(matches!(share_party(None, Some("Carl")), Ok(ShareParty::Name(n)) if n == "Carl"));
    assert_eq!(refusal(share_party(None, None)), rej(400, "Enter a name", "Send a username or a name."));
    assert_eq!(refusal(share_party(Some(""), Some("   "))), rej(400, "Enter a name", "Send a username or a name."));
    let at_limit = "n".repeat(255);
    assert!(matches!(share_party(None, Some(&at_limit)), Ok(ShareParty::Name(_))));
    let too_long = "é".repeat(256);
    assert_eq!(refusal(share_party(None, Some(&too_long))), rej(400, "Name is too long", ""));
    assert_eq!(share_member(Some("Bob".to_string()), "ann").ok().unwrap(), "Bob");
    assert_eq!(refusal(share_member(Some("ann".to_string()), "Ann")), rej(400, "Choose someone else", "You already paid your part."));
    assert_eq!(refusal(share_member(None, "ann")), rej(404, "Member not found", "Registered users must be members of this group. Use a name instead."));
}

#[test]
fn records_count_only_in_their_group() {
    assert_eq!(found_in_group(Some(("s", 5)), 5, "Share not found").ok(), Some("s"));
    assert_eq!(refusal(found_in_group(Some(("s", 6)), 5, "Share not found")), rej(404, "Share not found", ""));
    assert_eq!(refusal(found_in_group::<u8>(None, 5, "Payment not found")), rej(404, "Payment not found", ""));
}

#[test]
fn share_removal() {
    assert!(check_share_removal("ann", "ann").is_ok());
    assert_eq!(refusal(check_share_removal("ann", "bob")), rej(403, "Only the owner of the transaction can remove a share", ""));
    assert!(share_removed(true).is_ok());
    assert_eq!(refusal(share_removed(false)), rej(409, "Share already has payments", "A share that was partly paid cannot be removed."));
}

#[test]
fn payments() {
    assert_eq!(payment_replay(None).ok(), Some(false));
    assert_eq!(payment_replay(Some(true)).ok(), Some(true));
    assert_eq!(refusal(payment_replay(Some(false))), rej(409, "Payment id already used", ""));
    assert!(paid_by_caller(Some("ann"), "ann"));
    assert!(!paid_by_caller(Some("Ann"), "ann"));
    assert!(!paid_by_caller(None, "ann"));
    assert!(check_share_payer(Some("Ann"), "ann").is_ok());
    assert_eq!(refusal(check_share_payer(Some("bob"), "ann")), rej(403, "This share is not yours to pay", ""));
    assert_eq!(refusal(check_share_payer(None, "ann")), rej(403, "This share is not yours to pay", ""));
    assert!(check_manual_payment("ann", false, "ann").is_ok());
    assert_eq!(refusal(check_manual_payment("ann", false, "bob")), rej(403, "Only the owner of the transaction can record payments", ""));
    assert_eq!(refusal(check_manual_payment("ann", true, "ann")), rej(400, "This person pays through the app", "Registered users send their own payment for you to approve."));
    assert_eq!(new_split_payment_status(true), "pending");
    assert_eq!(new_split_payment_status(false), "approved");
}

#[test]
fn reviews_and_withdrawals() {
    assert!(matches!(review_check("ann", "pending", true, "ann"), Ok(Review::Approve)));
    assert!(matches!(review_check("ann", "approved", false, "ann"), Ok(Review::Reject)));
    assert_eq!(refusal(review_check("ann", "rejected", true, "ann")), rej(409, "Payment is no longer pending", ""));
    assert_eq!(refusal(review_check("ann", "pending", true, "bob")), rej(403, "Only the owner of the transaction can review payments", ""));
    assert!(closed_payment(true).is_ok());
    assert_eq!(refusal(closed_payment(false)), rej(409, "Payment is no longer pending", ""));
    assert!(check_withdrawal(Some("bob"), "bob").is_ok());
    assert_eq!(refusal(check_withdrawal(Some("bob"), "ann")), rej(403, "Only the payer can withdraw a payment", ""));
    assert_eq!(refusal(check_withdrawal(None, "ann")), rej(403, "Only the payer can withdraw a payment", ""));
}

#[test]
fn the_payer_of_a_share_never_reviews_it() {
    // A share made for bob by ann: bob pays, only ann reviews.
    let member = share_member(Some("bob".to_string()), "ann").ok().unwrap();
    assert!(check_share_payer(Some(&member), "bob").is_ok());
    assert!(review_check("ann", "pending", true, "bob").is_err());
    assert!(review_check("ann", "pending", true, "ann").is_ok());
}

#[test]
fn payments_read_back() {
    assert_eq!(reread_payment(Some(5u8)).ok(), Some(5));
    assert_eq!(refusal(reread_payment::<u8>(None)), rej(404, "Payment not found", ""));
}

#[test]
fn settlement_amounts_and_statuses() {
    assert!(check_settlement_amount(false).is_ok());
    assert_eq!(refusal(check_settlement_amount(true)), rej(400, "Amount must be positive", ""));
    assert!(check_reimbursement_amounts(false, false).is_ok());
    assert_eq!(refusal(check_reimbursement_amounts(true, true)), rej(400, "Amounts cannot be negative", ""));
    assert_eq!(refusal(check_reimbursement_amounts(false, true)), rej(400, "Amount must be positive", ""));
    assert!(recorded_by_caller("ann", true, "ann"));
    assert!(!recorded_by_caller("ann", false, "ann"));
    assert!(!recorded_by_caller("ann", true, "bob"));
    assert!(approval_needs_transfer_category(true, false));
    assert!(approval_needs_transfer_category(false, true));
    assert!(!approval_needs_transfer_category(false, false));
    assert_eq!(closing_status(true), "cancelled");
    assert_eq!(closing_status(false), "rejected");
}
