use transaction_api::responses::Rejection;
use transaction_api::settings_client::{AppSettings, CategoryWiring};
use transaction_api::transactions::{
    check_transfer_amount, debt_found, debt_link, detail_insert_failed, earning_wired_name,
    group_mate, insert_failed, new_debt_lookup, new_debt_outcome, recipient_source, record_check,
    sender_source, settle_lookup, settled_links, transfer_recipient, transfer_replay,
    transfer_texts, detail_step, DebtLookup, DebtParam, DetailStep, RecordKind,
};

fn refusal<T>(r: Result<T, Rejection>) -> (u16, String, String) {
    match r {
        Ok(_) => panic!("expected a refusal"),
        Err(e) => (e.status, e.message, e.description),
    }
}

fn rej(status: u16, message: &str, description: &str) -> (u16, String, String) {
    (status, message.to_string(), description.to_string())
}

fn row(key: &str, value: &str) -> AppSettings {
    AppSettings { app_setting_id: 0, app_setting_key: key.to_string(), app_setting_value: value.to_string(), created_by: String::new(), is_active: 1 }
}

#[test]
fn records_need_their_category_and_source() {
    let k = RecordKind::Spending;
    assert!(record_check(&k, Ok(1), Ok(1), false).is_ok());
    assert!(record_check(&k, Ok(0), Ok(1), true).is_ok());
    assert_eq!(refusal(record_check(&k, Err("db down".to_string()), Ok(1), false)), rej(400, "Failed to create spending [Category]", "db down"));
    assert_eq!(refusal(record_check(&k, Ok(0), Ok(1), false)), rej(400, "Spending category not found", "Please create the spending category first."));
    assert_eq!(refusal(record_check(&RecordKind::Earning, Ok(2), Err("lost".to_string()), false)), rej(400, "Failed to create earning [Source]", "lost"));
    assert_eq!(refusal(record_check(&RecordKind::Earning, Ok(1), Ok(0), true)), rej(400, "Source not found", "Please create the source first."));
    assert_eq!(refusal(record_check(&RecordKind::Earning, Ok(0), Ok(0), true)), rej(400, "Source not found", "Please create the source first."));
    assert_eq!(refusal(record_check(&RecordKind::Spending, Ok(0), Err("lost".to_string()), true)), rej(400, "Failed to create spending [Source]", "lost"));
    assert_eq!(refusal(record_check(&RecordKind::Earning, Ok(0), Ok(0), false)), rej(400, "Earning category not found", "Please create the earning category first."));
    let e = insert_failed(&RecordKind::Earning, "dup");
    assert_eq!((e.status, e.message.as_str(), e.description.as_str()), (400, "Failed to create earning ", "dup"));
    let d = detail_insert_failed("bad");
    assert_eq!((d.status, d.message.as_str(), d.description.as_str()), (400, "Failed to create spending [Detail]", "bad"));
}

#[test]
fn earning_categories_take_the_last_wired_name() {
    let same = "6f1c2b7e-3d4a-4c1b-9e2f-0a1b2c3d4e5f";
    let id = uuid::Uuid::parse_str(same).unwrap().as_u128();
    let wiring = CategoryWiring::from_settings(&[
        row("TRANSFER_CATEGORY_ID", same),
        row("TRANSFER_CATEGORY_NAME", "Transfer"),
        row("DEBT_CATEGORY_ID", same),
        row("DEBT_CATEGORY_NAME", "Debt"),
    ]);
    assert_eq!(earning_wired_name(&wiring, id).as_deref(), Some("Debt"));
    assert_eq!(wiring.resolve_name(id).as_deref(), Some("Transfer"));
    assert_eq!(earning_wired_name(&wiring, 0), None);
    assert_eq!(earning_wired_name(&CategoryWiring::empty(), 0), None);
}

#[test]
fn debts_point_at_their_record() {
    assert!(matches!(new_debt_lookup(1, Some(5), Some(6)), DebtLookup::Earning(5)));
    assert!(matches!(new_debt_lookup(2, Some(5), Some(6)), DebtLookup::Spending(6)));
    assert!(matches!(new_debt_lookup(2, None, None), DebtLookup::Spending(0)));
    assert!(matches!(new_debt_lookup(3, Some(5), Some(6)), DebtLookup::Nothing));
    assert!(matches!(settle_lookup(1, Some(5), Some(6)), DebtLookup::Spending(5)));
    assert!(matches!(settle_lookup(2, Some(5), Some(6)), DebtLookup::Earning(6)));
    assert!(matches!(settle_lookup(0, None, None), DebtLookup::Nothing));
    assert_eq!(debt_link(Some(8)), 8);
    assert_eq!(debt_link(None), 0);
    assert!(new_debt_outcome(true).is_ok());
    assert_eq!(refusal(new_debt_outcome(false)), rej(400, "Failed to create debt", "Statement Invalid, no transaction found"));
    assert!(debt_found(true).is_ok());
    assert_eq!(refusal(debt_found(false)), rej(400, "Failed to retrieve debt", "Debt not found"));
}

#[test]
fn settled_debts_take_the_opposite_link() {
    let s = "11111111-2222-3333-4444-555555555555";
    let param = DebtParam {
        description: None,
        debt_id: Some("x".to_string()),
        debt_type: None,
        debt_earning_id: Some("bad".to_string()),
        debt_spending_id: Some(s.to_string()),
        status: None,
    };
    let v = uuid::Uuid::parse_str(s).unwrap().as_u128();
    assert_eq!(settled_links(1, true, Some(1), Some(2), &param).ok(), Some((Some(1), Some(v))));
    assert_eq!(settled_links(2, true, Some(1), Some(2), &param).ok(), Some((None, Some(2))));
    assert_eq!(refusal(settled_links(1, false, Some(1), Some(2), &param)), rej(400, "Failed to update debt", "Transaction data not found"));
    assert_eq!(refusal(settled_links(3, true, Some(1), Some(2), &param)), rej(400, "Failed to update debt", "Transaction data not found"));
}

#[test]
fn member_transfers() {
    assert!(check_transfer_amount(false).is_ok());
    assert_eq!(refusal(check_transfer_amount(true)), rej(400, "Amount must be positive", ""));
    assert_eq!(transfer_replay(None, "ann").ok(), Some(false));
    assert_eq!(transfer_replay(Some("ann"), "ann").ok(), Some(true));
    assert_eq!(refusal(transfer_replay(Some("bob"), "ann")), rej(409, "Transfer id already used", ""));
    assert_eq!(group_mate(Some("bob".to_string())).ok().unwrap(), "bob");
    assert_eq!(refusal(group_mate(None)), rej(404, "Member not found", "You can only transfer to people in one of your groups."));
    assert_eq!(transfer_recipient(Some("Bob".to_string()), "ann").ok().unwrap(), "Bob");
    assert_eq!(refusal(transfer_recipient(Some("ANN".to_string()), "ann")), rej(400, "Choose someone else", "Use a normal transfer to move money between your own sources."));
    assert_eq!(refusal(transfer_recipient(None, "ann")), rej(404, "Member not found", "You can only transfer to people in one of your groups."));
    assert_eq!(sender_source(Some("W".to_string())).ok().unwrap(), "W");
    assert_eq!(refusal(sender_source(None)), rej(400, "Source not found", "Send from one of your own sources."));
    assert_eq!(recipient_source(Some("B".to_string()), "bob").ok().unwrap(), "B");
    assert_eq!(refusal(recipient_source(None, "bob")), rej(400, "Destination source not found", "Pick one of bob's sources."));
    let t = transfer_texts("ann", "bob", " rent ");
    assert_eq!(t.sender, "Transfer to bob: rent");
    assert_eq!(t.recipient, "Transfer from ann: rent");
    assert_eq!(transfer_texts("ann", "bob", "").sender, "Transfer to bob");
}

#[test]
fn failed_line_items_remove_the_spending_again() {
    assert!(matches!(detail_step(Ok(())), DetailStep::Keep));
    match detail_step(Err("duplicate key".to_string())) {
        DetailStep::RemoveSpending(e) => assert_eq!(
            (e.status, e.message.as_str(), e.description.as_str()),
            (400, "Failed to create spending [Detail]", "duplicate key")
        ),
        DetailStep::Keep => panic!("a failed detail write must remove the spending"),
    }
}

#[test]
fn a_wired_category_is_never_reported_missing() {
    assert_eq!(refusal(record_check(&RecordKind::Spending, Ok(0), Ok(0), true)), rej(400, "Source not found", "Please create the source first."));
    assert_eq!(refusal(record_check(&RecordKind::Spending, Ok(0), Ok(0), false)), rej(400, "Spending category not found", "Please create the spending category first."));
}
