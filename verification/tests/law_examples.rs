use transaction_api::group_fund::{check_close, check_fulfil, fund_counterpart, fund_parties, CloseKind, FundKind};
use transaction_api::group_plan::{
    check_cancel, fulfil_step, initial_plan_status, review_transition, FulfilStep, Role,
};
use transaction_api::jwt::extract_bearer_token;
use transaction_api::settings_client::{global_category_wiring, login_api_base, CategoryWiring};
use transaction_api::transactions::{earning_wired_name, record_check, RecordKind};
use transaction_api::user_client::urlencoding_path;

#[test]
fn fund_roles_stay_with_their_side() {
    let other = fund_counterpart(Some("Bob".to_string()), "ann").ok().unwrap();
    let (requester, payer) = fund_parties(&FundKind::Request, "ann", other);
    assert!(check_fulfil(&payer, "requested", &requester).is_err());
    assert!(check_fulfil(&payer, "requested", &payer).is_ok());
    assert!(check_close(&CloseKind::Reject, &requester, &payer, &requester).is_err());
    assert!(check_close(&CloseKind::Cancel, &requester, &payer, &payer).is_err());
}

#[test]
fn new_items_start_open() {
    let leader_status = initial_plan_status(&Role::Leader);
    assert!(matches!(fulfil_step(&leader_status, None, "bob"), Ok(FulfilStep::Buy)));
    let member_status = initial_plan_status(&Role::Member);
    assert!(check_cancel(&Role::Member, &member_status, "bob", "bob").is_ok());
    let approved = review_transition(&member_status, true).ok().unwrap();
    assert!(matches!(fulfil_step(&approved, None, "ann"), Ok(FulfilStep::Buy)));
}

#[test]
fn unreachable_settings_mean_local_checks() {
    let wiring = global_category_wiring(Err("down".to_string()));
    let id = 0x1234u128;
    assert_eq!(wiring.resolve_name(id), None);
    assert_eq!(earning_wired_name(&wiring, id), None);
    assert!(record_check(&RecordKind::Spending, Ok(1), Ok(1), false).is_ok());
    assert!(record_check(&RecordKind::Spending, Ok(0), Ok(1), false).is_err());
    assert!(CategoryWiring::empty().resolve_name(0).is_none());
}

#[test]
fn encoded_usernames_stay_in_their_segment() {
    for name in ["a/b", "x?y#z", "sp ace", "ünï"] {
        let encoded = urlencoding_path(name);
        assert!(encoded.chars().all(|c| c.is_ascii_alphanumeric() || "-_.~%".contains(c)), "{encoded}");
        assert!(encoded.len() >= name.len() && encoded.len() <= 3 * name.len());
    }
}

#[test]
fn bearer_tokens_round_trip() {
    for t in ["a", "abc.def.ghi", " spaced "] {
        let header = format!("Bearer {t}");
        assert_eq!(extract_bearer_token(&header), Some(t));
    }
}

#[test]
fn base_urls_never_end_with_a_slash() {
    for raw in ["http://h/", "http://h//", " http://h/ ", "/"] {
        assert!(!login_api_base(Some(raw)).ends_with('/'));
    }
}

#[test]
fn different_usernames_get_different_addresses() {
    let names = ["a b", "a%20b", "a+b", "A b", "ab", "a  b"];
    for (i, x) in names.iter().enumerate() {
        for y in names.iter().skip(i + 1) {
            assert_ne!(urlencoding_path(x), urlencoding_path(y));
        }
    }
}
