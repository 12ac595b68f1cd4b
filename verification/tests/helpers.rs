use std::time::{SystemTime, UNIX_EPOCH};

use transaction_api::jwt::{decode_username, extract_bearer_token, jwt_secret, username_from_decoded, TokenError};
use transaction_api::settings_client::{login_api_base, AppSettings, CategoryWiring};
use transaction_api::user_client::urlencoding_path;

fn setting(key: &str, value: &str) -> AppSettings {
    AppSettings {
        app_setting_id: 0,
        app_setting_key: key.to_string(),
        app_setting_value: value.to_string(),
        created_by: String::new(),
        is_active: 1,
    }
}

fn signed_token(sub: &str, exp: usize, iat: usize, secret: &str) -> String {
    let mut claims = serde_json::Map::new();
    claims.insert("sub".to_string(), serde_json::Value::String(sub.to_string()));
    claims.insert("user_id".to_string(), serde_json::Value::String("user-id".to_string()));
    claims.insert("exp".to_string(), serde_json::Value::from(exp as u64));
    claims.insert("iat".to_string(), serde_json::Value::from(iat as u64));
    jsonwebtoken::encode(
        &jsonwebtoken::Header::new(jsonwebtoken::Algorithm::HS256),
        &serde_json::Value::Object(claims),
        &jsonwebtoken::EncodingKey::from_secret(secret.as_bytes()),
    )
    .unwrap()
}

fn now_secs() -> usize {
    SystemTime::now().duration_since(UNIX_EPOCH).unwrap().as_secs() as usize
}

#[test]
fn decodes_username_from_login_api_compatible_token() {
    let now = now_secs();
    let secret = jwt_secret(None);
    let token = signed_token("alice", now + 60, now, &secret);

    assert_eq!(decode_username(&token, &secret).ok().unwrap(), "alice");
}

#[test]
fn only_accepts_non_empty_bearer_tokens() {
    assert_eq!(extract_bearer_token("Bearer token"), Some("token"));
    assert_eq!(extract_bearer_token("Bearer "), None);
    assert_eq!(extract_bearer_token("token"), None);
}

#[test]
fn resolves_wired_category_names() {
    let transfer = uuid::Uuid::new_v4();
    let debt = uuid::Uuid::new_v4();
    let wiring = CategoryWiring::from_settings(&[
        setting("TRANSFER_CATEGORY_ID", &transfer.to_string()),
        setting("TRANSFER_CATEGORY_NAME", "Transfer"),
        setting("DEBT_CATEGORY_ID", &debt.to_string()),
        setting("DEBT_CATEGORY_NAME", "Debt"),
        setting("FEATURE_HEALTH", "false"),
    ]);

    assert_eq!(wiring.resolve_name(transfer.as_u128()).as_deref(), Some("Transfer"));
    assert_eq!(wiring.resolve_name(debt.as_u128()).as_deref(), Some("Debt"));
    assert_eq!(wiring.resolve_name(uuid::Uuid::new_v4().as_u128()), None);
}

#[test]
fn nil_category_never_matches_unset_wiring() {
    let wiring = CategoryWiring::default();
    assert_eq!(wiring.resolve_name(uuid::Uuid::nil().as_u128()), None);
}

#[test]
fn trims_trailing_slashes_from_base_url() {
    assert_eq!(login_api_base(Some("http://localhost:3002/")), "http://localhost:3002");
}

#[test]
fn encodes_reserved_characters_in_usernames() {
    assert_eq!(urlencoding_path("alice"), "alice");
    assert_eq!(urlencoding_path("a b/c"), "a%20b%2Fc");
}

#[test]
fn rejects_tokens_signed_with_another_secret() {
    let now = now_secs();
    let token = signed_token("alice", now + 60, now, "another-secret");
    assert!(matches!(decode_username(&token, &jwt_secret(None)), Err(TokenError::Rejected(_))));
}

#[test]
fn rejects_expired_tokens() {
    let now = now_secs();
    let secret = jwt_secret(Some("s3cr3t".to_string()));
    let token = signed_token("alice", now - 3600, now - 7200, &secret);
    assert!(matches!(decode_username(&token, &secret), Err(TokenError::Rejected(_))));
}

#[test]
fn configured_jwt_secret_wins() {
    assert_eq!(jwt_secret(Some("abc".to_string())), "abc");
    assert_eq!(jwt_secret(None), "default_dev_secret_please_change_in_production");
}

#[test]
fn decoding_outcomes_give_the_username_or_the_reason() {
    assert_eq!(username_from_decoded(Ok(Some("ann".to_string()))).ok(), Some("ann".to_string()));
    assert!(matches!(username_from_decoded(Ok(None)), Err(TokenError::NoSubject)));
    assert!(matches!(username_from_decoded(Err("ExpiredSignature".to_string())), Err(TokenError::Rejected(r)) if r == "ExpiredSignature"));
}

#[test]
fn tokens_without_a_subject_give_no_username() {
    let now = now_secs();
    let mut claims = serde_json::Map::new();
    claims.insert("exp".to_string(), serde_json::Value::from((now + 60) as u64));
    let secret = jwt_secret(None);
    let token = jsonwebtoken::encode(
        &jsonwebtoken::Header::new(jsonwebtoken::Algorithm::HS256),
        &serde_json::Value::Object(claims),
        &jsonwebtoken::EncodingKey::from_secret(secret.as_bytes()),
    )
    .unwrap();
    assert!(matches!(decode_username(&token, &secret), Err(TokenError::NoSubject)));
}

#[test]
fn tokens_without_three_parts_are_invalid() {
    for token in ["", "abc", "abc.def"] {
        match decode_username(token, "secret") {
            Err(TokenError::Rejected(reason)) => assert_eq!(reason, "InvalidToken"),
            _ => panic!("a token without three parts must be refused"),
        }
    }
}

#[test]
fn an_expired_but_sound_token_is_refused_as_expired() {
    let now = now_secs();
    let secret = jwt_secret(Some("s3cr3t".to_string()));
    let token = signed_token("alice", now - 3600, now - 7200, &secret);
    match decode_username(&token, &secret) {
        Err(TokenError::Rejected(reason)) => assert_eq!(reason, "ExpiredSignature"),
        _ => panic!("an expired token must be refused as expired"),
    }
}
