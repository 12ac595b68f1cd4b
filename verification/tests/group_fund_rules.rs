use transaction_api::group_fund::{
    append_note, check_close, check_fulfil, check_fund_input, close_status, default_kind,
    fulfil_destination,
    fund_counterpart, fund_in_group, fund_kind_text, fund_outcome, fund_parties, fund_replay,
    fund_texts, fund_transfer_description, initial_fund_status, leader_flag, payer_source_found,
    receiving_source_found, requester_source_found, require_waiver, send_sources,
    transfer_category_required, CloseKind, FundKind, FundOutcome, FundWaiveInput,
};
use transaction_api::responses::Rejection;

fn refusal<T>(r: Result<T, Rejection>) -> (u16, String, String) {
    match r {
        Ok(_) => panic!("expected a refusal"),
        Err(e) => (e.status, e.message, e.description),
    }
}

fn rej(status: u16, message: &str, description: &str) -> (u16, String, String) {
    (status, message.to_string(), description.to_string())
}

#[test]
fn leadership_ignores_ascii_case() {
    assert_eq!(leader_flag(Some("Ann"), "ann").ok(), Some(true));
    assert_eq!(leader_flag(Some("Bob"), "ann").ok(), Some(false));
    assert_eq!(refusal(leader_flag(None, "ann")), rej(404, "Group not found", ""));
}

#[test]
fn fund_kinds() {
    assert_eq!(default_kind(), "request");
    assert_eq!(fund_kind_text(&FundKind::Request), "request");
    assert_eq!(fund_kind_text(&FundKind::Send), "send");
    assert_eq!(initial_fund_status(&FundKind::Request), "requested");
    assert_eq!(initial_fund_status(&FundKind::Send), "sent");
    assert_eq!(FundWaiveInput::default().note, "");
}

#[test]
fn new_funds_are_checked_in_order() {
    let ok = check_fund_input("  SEND ", false, "  rent ").ok().unwrap();
    assert!(matches!(ok.kind, FundKind::Send));
    assert_eq!(ok.tag, "rent");
    assert!(matches!(check_fund_input("Request", false, "food").ok().unwrap().kind, FundKind::Request));
    assert_eq!(refusal(check_fund_input("gift", true, "")), rej(400, "kind must be request or send", ""));
    assert_eq!(refusal(check_fund_input("send", true, "")), rej(400, "Amount must be positive", ""));
    assert_eq!(refusal(check_fund_input("send", false, "   ")), rej(400, "Pick a tag (what the money is for)", ""));
}

#[test]
fn retried_funds() {
    assert_eq!(fund_replay(None, "ann", 1).ok(), Some(false));
    assert_eq!(fund_replay(Some(("ann", 1)), "ann", 1).ok(), Some(true));
    assert_eq!(refusal(fund_replay(Some(("ann", 2)), "ann", 1)), rej(409, "Request id already used", ""));
    assert_eq!(refusal(fund_replay(Some(("bob", 1)), "ann", 1)), rej(409, "Request id already used", ""));
}

#[test]
fn the_other_member_must_be_someone_else() {
    assert_eq!(fund_counterpart(Some("Bob".to_string()), "ann").ok().unwrap(), "Bob");
    assert_eq!(refusal(fund_counterpart(Some("ANN".to_string()), "ann")), rej(400, "Choose someone else", ""));
    assert_eq!(refusal(fund_counterpart(None, "ann")), rej(404, "Member not found", "They must be a member of this group."));
}

#[test]
fn parties_follow_the_kind() {
    assert_eq!(fund_parties(&FundKind::Request, "ann", "bob".to_string()), ("ann".to_string(), "bob".to_string()));
    assert_eq!(fund_parties(&FundKind::Send, "ann", "bob".to_string()), ("bob".to_string(), "ann".to_string()));
}

#[test]
fn texts_carry_the_trimmed_note() {
    assert_eq!(append_note("x".to_string(), "  hi "), "x: hi");
    assert_eq!(append_note("x".to_string(), "   "), "x");
    let t = fund_texts("ann", "bob", "rent", " May ");
    assert_eq!(t.payer, "Funds to ann for rent: May");
    assert_eq!(t.receiver, "Funds from bob for rent: May");
    let plain = fund_texts("ann", "bob", "rent", "");
    assert_eq!(plain.payer, "Funds to ann for rent");
    assert_eq!(fund_transfer_description("rent", ""), "rent funds");
    assert_eq!(fund_transfer_description("rent", "May"), "rent funds: May");
}

#[test]
fn store_outcomes() {
    assert!(fund_outcome(FundOutcome::Done).is_ok());
    assert_eq!(refusal(fund_outcome(FundOutcome::Gone)), rej(404, "Request not found", ""));
    assert_eq!(refusal(fund_outcome(FundOutcome::WrongStatus("sent".to_string()))), rej(409, "This request can no longer be changed", "It is sent."));
    assert!(fund_in_group(Some(3), 3).is_ok());
    assert_eq!(refusal(fund_in_group(Some(4), 3)), rej(404, "Request not found", ""));
    assert_eq!(refusal(fund_in_group(None, 3)), rej(404, "Request not found", ""));
}

#[test]
fn sending_a_waiting_request() {
    assert!(check_fulfil("Bob", "requested", "bob").is_ok());
    assert_eq!(refusal(check_fulfil("bob", "requested", "ann")), rej(403, "Only the person asked can send it", ""));
    assert_eq!(refusal(check_fulfil("bob", "waived", "bob")), rej(409, "This request can no longer be changed", "It is waived."));
    assert_eq!(refusal(check_fulfil("bob", "waived", "ann")), rej(403, "Only the person asked can send it", ""));
    assert_eq!(fulfil_destination(Some(1), Some(2)).ok(), Some(1));
    assert_eq!(fulfil_destination(None, Some(2)).ok(), Some(2));
    assert_eq!(refusal(fulfil_destination(None, None)), rej(400, "Choose which of their sources receives it", ""));
}

#[test]
fn closing_rights() {
    assert_eq!(close_status(&CloseKind::Reject), "rejected");
    assert_eq!(close_status(&CloseKind::Cancel), "canceled");
    assert!(check_close(&CloseKind::Reject, "ann", "Bob", "bob").is_ok());
    assert_eq!(refusal(check_close(&CloseKind::Reject, "ann", "bob", "ann")), rej(403, "Only the person asked can reject it", ""));
    assert!(check_close(&CloseKind::Cancel, "Ann", "bob", "ann").is_ok());
    assert_eq!(refusal(check_close(&CloseKind::Cancel, "ann", "bob", "bob")), rej(403, "Only the person who asked can withdraw it", ""));
    assert!(require_waiver(true).is_ok());
    assert_eq!(refusal(require_waiver(false)), rej(403, "Only the group admin can waive a fund", ""));
}

#[test]
fn sources_of_a_fund() {
    assert_eq!(send_sources(Some(1), Some(2)).ok(), Some((1, 2)));
    let missing = rej(400, "Choose where the money comes from and where it goes", "Send from_source_id (yours) and to_source_id (theirs).");
    assert_eq!(refusal(send_sources(None, Some(2))), missing);
    assert_eq!(refusal(send_sources(Some(1), None)), missing);
    assert_eq!(payer_source_found(Some("W".to_string())).ok().unwrap(), "W");
    assert_eq!(refusal(payer_source_found(None)), rej(400, "Send from one of your own sources", ""));
    assert_eq!(refusal(requester_source_found(None, "ann")), rej(400, "Pick one of ann's sources", ""));
    assert_eq!(requester_source_found(Some("Bank".to_string()), "ann").ok().unwrap(), "Bank");
    assert_eq!(refusal(receiving_source_found(None)), rej(400, "Receive into one of your own sources", ""));
    assert_eq!(transfer_category_required(Some(9u8)).ok(), Some(9));
    assert_eq!(refusal(transfer_category_required::<u8>(None)), rej(503, "Transfer category is not configured on the server", ""));
}
