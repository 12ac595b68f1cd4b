use transaction_api::group_fund::{fund_request_next, FundBody, FundFacts, FundKind, FundLookup, FundNext};
use transaction_api::group_plan::{
    planned_fulfil_next, routine_payment_next, PaymentBody, PaymentLookup, PaymentNext, PlannedInfo,
    RoutineInfo,
};
use transaction_api::group_settlement::{
    reimbursement_next, split_share_next, ReimburseBody, ReimburseFacts, ReimburseLookup, ReimburseNext,
    ShareBody, ShareLookup, ShareNext,
};
use transaction_api::responses::Rejection;
use transaction_api::settings_client::{AppSettings, CategoryWiring};
use transaction_api::transactions::{
    debt_settle_next, earning_precheck, member_transfer_next, new_debt_next, spending_precheck, DebtLookup,
    DebtNext, DebtParam, DebtSettleNext, StoredDebt, TransferFacts, TransferLookup, TransferNext,
};

fn msg(e: &Rejection) -> (u16, &str, &str) {
    (e.status, e.message.as_str(), e.description.as_str())
}

fn transfer_facts() -> TransferFacts {
    TransferFacts {
        amount_le_zero: false,
        existing_sender: None,
        recipient: None,
        sender_source: None,
        recipient_source: None,
        category: None,
    }
}

#[test]
fn a_member_transfer_runs_through_its_lookups() {
    let mut facts = transfer_facts();
    let mut asked = Vec::new();
    let write = loop {
        let next = member_transfer_next(
            TransferFacts {
                amount_le_zero: facts.amount_le_zero,
                existing_sender: facts.existing_sender.clone(),
                recipient: facts.recipient.clone(),
                sender_source: facts.sender_source.clone(),
                recipient_source: facts.recipient_source.clone(),
                category: facts.category.clone(),
            },
            "ann",
            " rent ",
        );
        match next {
            TransferNext::Find(TransferLookup::Existing) => { asked.push("existing"); facts.existing_sender = Some(None) }
            TransferNext::Find(TransferLookup::Recipient) => { asked.push("recipient"); facts.recipient = Some(Some("Bob".to_string())) }
            TransferNext::Find(TransferLookup::SenderSource) => { asked.push("from"); facts.sender_source = Some(Some("Wallet".to_string())) }
            TransferNext::Find(TransferLookup::RecipientSource) => { asked.push("to"); facts.recipient_source = Some(Some("Bank".to_string())) }
            TransferNext::Find(TransferLookup::Category) => { asked.push("category"); facts.category = Some(Some((9, "Transfer".to_string()))) }
            TransferNext::Send(w) => break w,
            _ => panic!("unexpected step"),
        }
    };
    assert_eq!(asked, vec!["existing", "recipient", "from", "to", "category"]);
    assert_eq!((write.recipient.as_str(), write.from_source.as_str(), write.to_source.as_str()), ("Bob", "Wallet", "Bank"));
    assert_eq!((write.category_id, write.category_name.as_str()), (9, "Transfer"));
    assert_eq!(write.texts.sender, "Transfer to Bob: rent");
    assert_eq!(write.texts.recipient, "Transfer from ann: rent");
    assert_eq!(write.description, "rent");
}

#[test]
fn member_transfers_stop_at_the_first_failed_check() {
    let mut f = transfer_facts();
    f.amount_le_zero = true;
    assert!(matches!(member_transfer_next(f, "ann", ""), TransferNext::Refuse(e) if msg(&e) == (400, "Amount must be positive", "")));
    let mut f = transfer_facts();
    f.existing_sender = Some(Some("ann".to_string()));
    assert!(matches!(member_transfer_next(f, "ann", ""), TransferNext::AnswerExisting));
    let mut f = transfer_facts();
    f.existing_sender = Some(None);
    f.recipient = Some(Some("ANN".to_string()));
    assert!(matches!(member_transfer_next(f, "ann", ""), TransferNext::Refuse(e) if e.message == "Choose someone else"));
    let mut f = transfer_facts();
    f.existing_sender = Some(None);
    f.recipient = Some(Some("bob".to_string()));
    f.sender_source = Some(Some("W".to_string()));
    f.recipient_source = Some(Some("B".to_string()));
    f.category = Some(None);
    assert!(matches!(member_transfer_next(f, "ann", ""), TransferNext::Refuse(e) if e.status == 503));
}

fn fund_body(kind: &str) -> FundBody {
    FundBody {
        kind: kind.to_string(),
        amount_le_zero: false,
        tag: " rent ".to_string(),
        note: " May ".to_string(),
        from_source_id: Some(1),
        to_source_id: Some(2),
    }
}

fn fund_facts() -> FundFacts {
    FundFacts {
        is_member: Some(true),
        leader: Some(Some("lead".to_string())),
        existing: Some(None),
        counterpart: Some(Some("Bob".to_string())),
        receiving_source: None,
        payer_source: None,
        requester_source: None,
        category: None,
    }
}

#[test]
fn funds_are_asked_or_sent() {
    match fund_request_next(fund_facts(), &fund_body("request"), "ann", 5) {
        FundNext::Find(FundLookup::ReceivingSource) => {}
        _ => panic!("a named receiving source is looked up"),
    }
    let mut f = fund_facts();
    f.receiving_source = Some(Some("Savings".to_string()));
    match fund_request_next(f, &fund_body("request"), "ann", 5) {
        FundNext::Ask(a) => {
            assert_eq!((a.requester.as_str(), a.payer.as_str(), a.tag.as_str(), a.note.as_str()), ("ann", "Bob", "rent", "May"));
            assert_eq!(a.to_source, Some((2, "Savings".to_string())));
        }
        _ => panic!("expected a request"),
    }
    let mut f = fund_facts();
    f.payer_source = Some(Some("Wallet".to_string()));
    f.requester_source = Some(Some("Bank".to_string()));
    f.category = Some(Some((7, "Transfer".to_string())));
    match fund_request_next(f, &fund_body(" SEND "), "ann", 5) {
        FundNext::Send(s) => {
            assert_eq!((s.requester.as_str(), s.payer.as_str()), ("Bob", "ann"));
            assert_eq!(s.from_source, (1, "Wallet".to_string()));
            assert_eq!(s.to_source, (2, "Bank".to_string()));
            assert_eq!(s.texts.payer, "Funds to Bob for rent: May");
            assert_eq!(s.texts.receiver, "Funds from ann for rent: May");
            assert_eq!(s.transfer_description, "rent funds: May");
            assert!(matches!(s.category, (7, _)));
        }
        _ => panic!("expected a send"),
    }
    let mut f = fund_facts();
    f.existing = Some(Some(("ann".to_string(), 5)));
    assert!(matches!(fund_request_next(f, &fund_body("send"), "ann", 5), FundNext::AnswerExisting));
    let mut f = fund_facts();
    f.is_member = Some(false);
    assert!(matches!(fund_request_next(f, &fund_body("send"), "ann", 5), FundNext::Refuse(e) if msg(&e) == (404, "Group not found", "")));
    let mut b = fund_body("send");
    b.from_source_id = None;
    assert!(matches!(fund_request_next(fund_facts(), &b, "ann", 5), FundNext::Refuse(e) if e.message == "Choose where the money comes from and where it goes"));
    assert!(matches!(fund_request_next(fund_facts(), &fund_body("gift"), "ann", 5), FundNext::Refuse(e) if e.message == "kind must be request or send"));
    let _ = FundKind::Request;
}

fn reimburse_body() -> ReimburseBody {
    ReimburseBody {
        part_negative: false,
        total_le_zero: false,
        personal_positive: true,
        return_balance: Some(true),
        from_group_balance: false,
        from_source_id: Some(1),
        to_source_id: Some(2),
    }
}

#[test]
fn reimbursements_run_through_their_lookups() {
    let mut facts = ReimburseFacts { is_member: None, existing_payer: None, spending: None, payer_source: None, owner_source: None, category: None };
    let mut order = Vec::new();
    let write = loop {
        let snapshot = ReimburseFacts {
            is_member: facts.is_member,
            existing_payer: facts.existing_payer.clone(),
            spending: facts.spending.clone(),
            payer_source: facts.payer_source.clone(),
            owner_source: facts.owner_source.clone(),
            category: facts.category.clone(),
        };
        match reimbursement_next(snapshot, &reimburse_body(), "ann") {
            ReimburseNext::Find(ReimburseLookup::Membership) => { order.push(1); facts.is_member = Some(true) }
            ReimburseNext::Find(ReimburseLookup::Existing) => { order.push(2); facts.existing_payer = Some(None) }
            ReimburseNext::Find(ReimburseLookup::Spending) => { order.push(3); facts.spending = Some(Some(("bob".to_string(), "Dinner".to_string()))) }
            ReimburseNext::Find(ReimburseLookup::PayerSource) => { order.push(4); facts.payer_source = Some(Some("Wallet".to_string())) }
            ReimburseNext::Find(ReimburseLookup::OwnerSource) => { order.push(5); facts.owner_source = Some(Some("Bank".to_string())) }
            ReimburseNext::Find(ReimburseLookup::Category) => { order.push(6); facts.category = Some(Some((3, "Transfer".to_string()))) }
            ReimburseNext::Write(w) => break w,
            _ => panic!("unexpected step"),
        }
    };
    assert_eq!(order, vec![1, 2, 3, 4, 5, 6]);
    assert_eq!(write.owner, "bob");
    assert_eq!(write.from_source, Some((1, "Wallet".to_string())));
    assert_eq!(write.from_label, "Wallet");
    assert_eq!(write.to_source, Some((2, "Bank".to_string())));
    assert!(write.return_balance);
    assert_eq!(write.texts.payer, "Reimburse bob: Dinner");
    assert_eq!(write.texts.receiver, "Reimbursement from ann: Dinner");
}

#[test]
fn group_balance_reimbursements_need_no_category() {
    let mut body = reimburse_body();
    body.from_group_balance = true;
    body.personal_positive = false;
    body.return_balance = None;
    let facts = ReimburseFacts {
        is_member: Some(true),
        existing_payer: Some(None),
        spending: Some(Some(("bob".to_string(), "".to_string()))),
        payer_source: None,
        owner_source: None,
        category: None,
    };
    match reimbursement_next(facts, &body, "ann") {
        ReimburseNext::Write(w) => {
            assert!(w.from_source.is_none() && w.to_source.is_none() && w.category.is_none());
            assert_eq!(w.from_label, "Group balance");
            assert!(!w.return_balance);
            assert_eq!(w.texts.payer, "Reimburse bob");
        }
        _ => panic!("expected a write"),
    }
    let own = ReimburseFacts {
        is_member: Some(true),
        existing_payer: Some(None),
        spending: Some(Some(("ANN".to_string(), "".to_string()))),
        payer_source: None,
        owner_source: None,
        category: None,
    };
    assert!(matches!(reimbursement_next(own, &body, "ann"), ReimburseNext::Refuse(e) if e.message == "You cannot reimburse your own transaction"));
}

fn payment_body(from_balance: bool) -> PaymentBody {
    PaymentBody { price_le_zero: false, source_id: Some(4), from_group_balance: from_balance, description: Some("  ".to_string()) }
}

#[test]
fn routine_payments() {
    let routine = || Some(Some(RoutineInfo { item_name: "Water".to_string(), spending_category_id: 8, spending_category: "Bills".to_string() }));
    match routine_payment_next(Some(true), Some(false), routine(), None, &payment_body(true)) {
        PaymentNext::Write(w) => {
            assert_eq!((w.item_name.as_str(), w.source.as_str(), w.source_id, w.description.as_str()), ("Water", "Group balance", 0, "Water"));
            assert!(w.from_group_balance);
        }
        _ => panic!("expected a write"),
    }
    assert!(matches!(routine_payment_next(Some(true), Some(false), routine(), None, &payment_body(false)), PaymentNext::Find(PaymentLookup::PayerSource)));
    match routine_payment_next(Some(true), Some(false), routine(), Some(Some("Wallet".to_string())), &payment_body(false)) {
        PaymentNext::Write(w) => assert_eq!((w.source.as_str(), w.source_id), ("Wallet", 4)),
        _ => panic!("expected a write"),
    }
    assert!(matches!(routine_payment_next(Some(true), Some(true), None, None, &payment_body(false)), PaymentNext::AnswerExisting));
    assert!(matches!(routine_payment_next(Some(true), Some(false), Some(None), None, &payment_body(false)), PaymentNext::Refuse(e) if e.message == "Group routine not found"));
    assert!(matches!(routine_payment_next(Some(false), None, None, None, &payment_body(false)), PaymentNext::Refuse(e) if e.status == 404));
}

#[test]
fn planned_purchases() {
    let item = |status: &str, by: Option<&str>| Some(Some(PlannedInfo {
        status: status.to_string(),
        fulfilled_by: by.map(|b| b.to_string()),
        item_name: "Sofa".to_string(),
        spending_category_id: 2,
        spending_category: "Home".to_string(),
    }));
    match planned_fulfil_next(Some(true), item("planned", None), Some(Some("Bank".to_string())), &payment_body(false), "ann") {
        PaymentNext::Write(w) => assert_eq!((w.source.as_str(), w.source_id, w.description.as_str()), ("Bank", 4, "Sofa")),
        _ => panic!("expected a write"),
    }
    match planned_fulfil_next(Some(true), item("planned", None), None, &payment_body(true), "ann") {
        PaymentNext::Write(w) => assert_eq!((w.source.as_str(), w.source_id), ("Group balance", 4)),
        _ => panic!("expected a write"),
    }
    assert!(matches!(planned_fulfil_next(Some(true), item("fulfilled", Some("ann")), None, &payment_body(false), "ann"), PaymentNext::AnswerExisting));
    assert!(matches!(planned_fulfil_next(Some(true), item("requested", None), None, &payment_body(false), "ann"), PaymentNext::Refuse(e) if e.description == "It is requested."));
}

#[test]
fn split_shares() {
    let body = |u: Option<&str>, n: Option<&str>| ShareBody { amount_le_zero: false, username: u.map(|x| x.to_string()), name: n.map(|x| x.to_string()) };
    let fresh = |member: Option<Option<String>>, b: &ShareBody| split_share_next(Some(true), Some(None), None, Some(Some("ann".to_string())), member, b, "ann");
    assert!(matches!(fresh(None, &body(Some(" bob "), None)), ShareNext::FindMember(m) if m == "bob"));
    assert!(matches!(fresh(Some(Some("Bob".to_string())), &body(Some("bob"), None)), ShareNext::Write(Some(m), n) if m == "Bob" && n == "Bob"));
    assert!(matches!(fresh(None, &body(None, Some(" Carl "))), ShareNext::Write(None, n) if n == "Carl"));
    assert!(matches!(fresh(Some(None), &body(Some("zed"), None)), ShareNext::Refuse(e) if e.status == 404));
    assert!(matches!(split_share_next(Some(true), Some(Some("ann".to_string())), None, None, None, &body(None, Some("x")), "ann"), ShareNext::Find(ShareLookup::Share)));
    assert!(matches!(split_share_next(Some(true), Some(Some("ann".to_string())), Some(false), None, None, &body(None, Some("x")), "ann"), ShareNext::Refuse(e) if e.message == "Share was removed"));
    assert!(matches!(split_share_next(Some(true), Some(Some("ann".to_string())), Some(true), None, None, &body(None, Some("x")), "ann"), ShareNext::AnswerExisting));
    assert!(matches!(split_share_next(Some(true), Some(None), None, Some(Some("bob".to_string())), None, &body(None, Some("x")), "ann"), ShareNext::Refuse(e) if e.status == 403));
}

fn row(key: &str, value: &str) -> AppSettings {
    AppSettings { app_setting_id: 0, app_setting_key: key.to_string(), app_setting_value: value.to_string(), created_by: String::new(), is_active: 1 }
}

#[test]
fn new_records_take_wired_names() {
    let id = "6f1c2b7e-3d4a-4c1b-9e2f-0a1b2c3d4e5f";
    let v = uuid::Uuid::parse_str(id).unwrap().as_u128();
    let wiring = CategoryWiring::from_settings(&[row("RECOUNT_CATEGORY_ID", id), row("RECOUNT_CATEGORY_NAME", "Recount")]);
    assert_eq!(spending_precheck(&wiring, v, Ok(0), Ok(1)).ok(), Some(Some("Recount".to_string())));
    assert_eq!(earning_precheck(&wiring, v, Ok(0), Ok(1)).ok(), Some(Some("Recount".to_string())));
    assert_eq!(spending_precheck(&wiring, 5, Ok(1), Ok(1)).ok(), Some(None));
    assert!(matches!(spending_precheck(&wiring, 5, Ok(0), Ok(1)), Err(e) if e.message == "Spending category not found"));
}

#[test]
fn debts_are_written_and_settled() {
    assert!(matches!(new_debt_next(1, Some(3), None, None), DebtNext::Find(DebtLookup::Earning(3))));
    assert!(matches!(new_debt_next(1, Some(3), None, Some(true)), DebtNext::Write(3, 0)));
    assert!(matches!(new_debt_next(1, Some(3), None, Some(false)), DebtNext::Refuse(_)));
    assert!(matches!(new_debt_next(7, Some(3), None, None), DebtNext::Refuse(e) if e.description == "Statement Invalid, no transaction found"));
    let param = DebtParam { description: None, debt_id: Some("d".to_string()), debt_type: None, debt_earning_id: None, debt_spending_id: Some("11111111-2222-3333-4444-555555555555".to_string()), status: None };
    let debt = || Some(Some(StoredDebt { debt_type: 1, earning_id: Some(3), spending_id: None }));
    assert!(matches!(debt_settle_next(None, None, &param), DebtSettleNext::FindDebt));
    assert!(matches!(debt_settle_next(Some(None), None, &param), DebtSettleNext::Refuse(e) if e.description == "Debt not found"));
    assert!(matches!(debt_settle_next(debt(), None, &param), DebtSettleNext::Find(DebtLookup::Spending(3))));
    assert!(matches!(debt_settle_next(debt(), Some(true), &param), DebtSettleNext::Update(Some(3), Some(0x11111111_2222_3333_4444_555555555555))));
    assert!(matches!(debt_settle_next(debt(), Some(false), &param), DebtSettleNext::Refuse(e) if e.message == "Failed to update debt"));
}
