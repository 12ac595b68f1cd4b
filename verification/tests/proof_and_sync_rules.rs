use std::time::{SystemTime, UNIX_EPOCH};

use transaction_api::flutter_sync::{
    extract_username, require_sync_user, sync_categories, sync_secret, sync_sources, sync_transactions, SyncRow,
    SyncTransactionRow,
};
use transaction_api::responses::Rejection;
use transaction_api::transaction_proof::{
    base64_padding, base64_size, check_proof_removal, check_upload, classify_ref_type, default_mime,
    proof_replay, settlement_scope,
    transaction_scope, view_access, ProofRef, SettlementParties, ViewAccess, MAX_BASE64_LEN,
};

fn refusal<T>(r: Result<T, Rejection>) -> (u16, String, String) {
    match r {
        Ok(_) => panic!("expected a refusal"),
        Err(e) => (e.status, e.message, e.description),
    }
}

fn rej(status: u16, message: &str, description: &str) -> (u16, String, String) {
    (status, message.to_string(), description.to_string())
}

#[test]
fn base64_sizes() {
    assert_eq!(base64_size("TWFu"), Some(3));
    assert_eq!(base64_size("TWE="), Some(2));
    assert_eq!(base64_size("TQ=="), Some(1));
    assert_eq!(base64_size("TWFuTWFu"), Some(6));
    assert_eq!(base64_size(""), None);
    assert_eq!(base64_size("TWF"), None);
    assert_eq!(base64_size("TW-u"), None);
    assert_eq!(base64_padding("ab=="), 2);
    assert_eq!(base64_padding("abc"), 0);
}

#[test]
fn uploads_are_checked_in_order() {
    assert_eq!(default_mime(), "image/jpeg");
    let ok = check_upload(" IMAGE/PNG ", "  TWFu \n").ok().unwrap();
    assert_eq!((ok.mime_type.as_str(), ok.image, ok.size_bytes), ("image/png", "TWFu", 3));
    assert!(check_upload("image/webp", "TQ==").is_ok());
    assert_eq!(refusal(check_upload("image/gif", "TWFu")), rej(400, "Unsupported image type", "Send a JPEG, PNG or WebP image."));
    let big = "A".repeat(MAX_BASE64_LEN + 4);
    assert_eq!(refusal(check_upload("image/jpeg", &big)), rej(413, "Image is too large", ""));
    let at_limit = "A".repeat(MAX_BASE64_LEN);
    assert_eq!(check_upload("image/jpeg", &at_limit).ok().unwrap().size_bytes, (MAX_BASE64_LEN / 4 * 3) as i64);
    assert_eq!(refusal(check_upload("image/jpeg", "not base64!")), rej(400, "Image must be base64", ""));
}

#[test]
fn proof_targets() {
    assert!(matches!(classify_ref_type("spending"), Ok(ProofRef::Transaction)));
    assert!(matches!(classify_ref_type("earning"), Ok(ProofRef::Transaction)));
    assert!(matches!(classify_ref_type("reimbursement"), Ok(ProofRef::Reimbursement)));
    assert!(matches!(classify_ref_type("split_payment"), Ok(ProofRef::SplitPayment)));
    assert_eq!(refusal(classify_ref_type("debt")), rej(400, "Unknown ref_type", "Use spending, earning, reimbursement or split_payment."));
}

#[test]
fn who_may_attach_proofs() {
    assert!(transaction_scope(Some("Ann"), "ann").is_ok());
    assert_eq!(refusal(transaction_scope(Some("bob"), "ann")), rej(404, "Record not found", ""));
    assert_eq!(refusal(transaction_scope(None, "ann")), rej(404, "Record not found", ""));
    let parties = |paid_by: Option<&str>, owner: &str| SettlementParties {
        paid_by: paid_by.map(|p| p.to_string()),
        owner: owner.to_string(),
        group_id: 42,
    };
    assert_eq!(settlement_scope(Some(parties(Some("ANN"), "bob")), "ann").ok(), Some(Some(42)));
    assert_eq!(settlement_scope(Some(parties(None, "ann")), "ann").ok(), Some(Some(42)));
    assert_eq!(refusal(settlement_scope(Some(parties(Some("carl"), "bob")), "ann")), rej(404, "Record not found", ""));
    assert_eq!(refusal(settlement_scope(Some(parties(None, "bob")), "ann")), rej(404, "Record not found", ""));
    assert_eq!(refusal(settlement_scope(None, "ann")), rej(404, "Record not found", ""));
}

#[test]
fn who_may_see_proofs() {
    assert!(matches!(view_access("Ann", Some(1), "ann"), ViewAccess::Allowed));
    assert!(matches!(view_access("ann", None, "ann"), ViewAccess::Allowed));
    assert!(matches!(view_access("bob", None, "ann"), ViewAccess::Denied));
    assert!(matches!(view_access("bob", Some(9), "ann"), ViewAccess::IfMemberOf(9)));
}

fn token(sub: &str, secret: &str) -> String {
    let now = SystemTime::now().duration_since(UNIX_EPOCH).unwrap().as_secs();
    let mut claims = serde_json::Map::new();
    claims.insert("sub".to_string(), serde_json::Value::String(sub.to_string()));
    claims.insert("exp".to_string(), serde_json::Value::from(now + 600));
    jsonwebtoken::encode(
        &jsonwebtoken::Header::default(),
        &serde_json::Value::Object(claims),
        &jsonwebtoken::EncodingKey::from_secret(secret.as_bytes()),
    )
    .unwrap()
}

#[test]
fn sync_callers_are_read_from_the_bearer_token() {
    assert_eq!(sync_secret(None), "secret");
    assert_eq!(sync_secret(Some("k".to_string())), "k");
    let header = format!("Bearer {}", token("ann", "secret"));
    assert_eq!(extract_username(Some(&header), "secret"), Some("ann".to_string()));
    assert_eq!(extract_username(Some(&header), "other"), None);
    assert_eq!(extract_username(Some(&format!("Token {}", token("ann", "secret"))), "secret"), None);
    assert_eq!(extract_username(Some("Bearer "), "secret"), None);
    assert_eq!(extract_username(None, "secret"), None);
    assert_eq!(require_sync_user(Some("ann".to_string())).ok(), Some("ann".to_string()));
    assert_eq!(refusal(require_sync_user(None)), rej(401, "Invalid or missing token", ""));
}

#[test]
fn sync_entries_keep_the_stored_order() {
    let rows = vec![
        SyncRow { id: "1".to_string(), name: "Wallet".to_string(), created_date: Some("2024-01-01 00:00:00".to_string()) },
        SyncRow { id: "2".to_string(), name: "Bank".to_string(), created_date: None },
    ];
    let sources = sync_sources(&rows);
    assert_eq!(sources.len(), 2);
    assert_eq!((sources[0].id.as_str(), sources[0].name.as_str(), sources[0].kind.as_str()), ("1", "Wallet", "source"));
    assert_eq!((sources[0].syncState.as_str(), sources[0].updatedAt.as_str()), ("done", "2024-01-01 00:00:00"));
    assert_eq!(sources[1].updatedAt, "");
    let cats = sync_categories(&rows, "earning");
    assert_eq!((cats[1].name.as_str(), cats[1].kind.as_str(), cats[1].syncState.as_str()), ("Bank", "earning", "done"));
    assert!(sync_sources(&Vec::new()).is_empty());
}

#[test]
fn sync_transactions_keep_their_links() {
    let rows = vec![
        SyncTransactionRow { id: "t1".to_string(), description: "Lunch".to_string(), category_id: "c".to_string(), source_id: "s".to_string(), created_date: Some("2024-05-05 12:00:00".to_string()) },
        SyncTransactionRow { id: "t2".to_string(), description: "".to_string(), category_id: "c2".to_string(), source_id: "s2".to_string(), created_date: None },
    ];
    let entries = sync_transactions(&rows, "spending");
    assert_eq!(entries.len(), 2);
    let e = &entries[0];
    assert_eq!((e.id.as_str(), e.kind.as_str(), e.description.as_str()), ("t1", "spending", "Lunch"));
    assert_eq!((e.category.as_deref(), e.source.as_deref()), (Some("c"), Some("s")));
    assert!(e.fromSource.is_none() && e.toSource.is_none());
    assert_eq!((e.date.as_str(), e.updatedAt.as_str(), e.syncState.as_str()), ("2024-05-05 12:00:00", "2024-05-05 12:00:00", "done"));
    assert_eq!((entries[1].date.as_str(), entries[1].updatedAt.as_str()), ("", ""));
}

#[test]
fn proofs_are_replayed_and_removed_by_their_uploader() {
    assert_eq!(proof_replay(None, "ann").ok(), Some(false));
    assert_eq!(proof_replay(Some("ANN"), "ann").ok(), Some(true));
    assert_eq!(refusal(proof_replay(Some("bob"), "ann")), rej(409, "Proof id already used", ""));
    assert!(check_proof_removal(Some("Ann"), "ann").is_ok());
    assert_eq!(refusal(check_proof_removal(Some("bob"), "ann")), rej(404, "Record not found", ""));
    assert_eq!(refusal(check_proof_removal(None, "ann")), rej(404, "Record not found", ""));
}

#[test]
fn bearer_header_with_malformed_token_gives_no_user() {
    assert_eq!(extract_username(Some("Bearer abc.def"), "secret"), None);
}

#[test]
fn over_padded_text_is_not_base64() {
    assert_eq!(base64_size("===="), None);
    assert_eq!(base64_size("========"), None);
    assert_eq!(base64_size("A==="), Some(0));
    assert_eq!(refusal(check_upload("image/png", " ==== ")), rej(400, "Image must be base64", ""));
}
