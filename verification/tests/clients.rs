use transaction_api::settings_client::{
    bad_status, cache_usable, fetch_outcome, global_category_wiring, login_api_base, parse_uuid,
    request_failed, settings_after_fetch, settings_url, transfer_category, trim_trailing_slashes,
    unreadable_body, AppSettings, CategoryWiring, SettingsReply, CACHE_TTL_NANOS,
};
use transaction_api::user_client::{
    lookup_after_send, lookup_from_body, urlencoding_path, user_lookup_url, LookupStep,
    UserLookup, UserReplyHead,
};

fn row(key: &str, value: &str) -> AppSettings {
    AppSettings {
        app_setting_id: 7,
        app_setting_key: key.to_string(),
        app_setting_value: value.to_string(),
        created_by: "admin".to_string(),
        is_active: 1,
    }
}

const T_ID: &str = "6f1c2b7e-3d4a-4c1b-9e2f-0a1b2c3d4e5f";
const R_ID: &str = "11111111-2222-3333-4444-555555555555";
const D_ID: &str = "aaaaaaaa-bbbb-cccc-dddd-eeeeeeeeeeee";

fn value_of(text: &str) -> u128 {
    uuid::Uuid::parse_str(text).unwrap().as_u128()
}

#[test]
fn parses_uuids_and_falls_back_to_nil() {
    assert_eq!(parse_uuid(T_ID), value_of(T_ID));
    assert_eq!(parse_uuid("not-a-uuid"), 0);
    assert_eq!(parse_uuid(""), 0);
    assert_eq!(parse_uuid(R_ID), 0x11111111_2222_3333_4444_555555555555u128);
}

#[test]
fn later_setting_rows_win_and_unknown_keys_are_ignored() {
    let wiring = CategoryWiring::from_settings(&[
        row("TRANSFER_CATEGORY_ID", T_ID),
        row("TRANSFER_CATEGORY_NAME", "Old"),
        row("TRANSFER_CATEGORY_NAME", "Transfer"),
        row("RECOUNT_CATEGORY_ID", R_ID),
        row("RECOUNT_CATEGORY_NAME", "Recount"),
        row("DEBT_CATEGORY_ID", D_ID),
        row("DEBT_CATEGORY_NAME", "Debt"),
        row("OTHER", "x"),
    ]);
    assert_eq!(wiring.transfer_category_id, value_of(T_ID));
    assert_eq!(wiring.transfer_category_name, "Transfer");
    assert_eq!(wiring.recount_category_id, value_of(R_ID));
    assert_eq!(wiring.resolve_name(value_of(R_ID)).as_deref(), Some("Recount"));
    assert_eq!(wiring.resolve_name(value_of(D_ID)).as_deref(), Some("Debt"));
    assert_eq!(wiring.resolve_name(0), None);
}

#[test]
fn a_malformed_id_setting_leaves_the_nil_id() {
    let wiring = CategoryWiring::from_settings(&[
        row("TRANSFER_CATEGORY_ID", "garbage"),
        row("TRANSFER_CATEGORY_NAME", "Transfer"),
    ]);
    assert_eq!(wiring.transfer_category_id, 0);
    assert_eq!(wiring.resolve_name(0), None);
    assert!(transfer_category(&wiring).is_none());
}

#[test]
fn transfer_category_defaults_its_name() {
    let unnamed = CategoryWiring::from_settings(&[row("TRANSFER_CATEGORY_ID", T_ID)]);
    assert_eq!(transfer_category(&unnamed), Some((value_of(T_ID), "Transfer".to_string())));
    let named = CategoryWiring::from_settings(&[
        row("TRANSFER_CATEGORY_ID", T_ID),
        row("TRANSFER_CATEGORY_NAME", "Moves"),
    ]);
    assert_eq!(transfer_category(&named), Some((value_of(T_ID), "Moves".to_string())));
    assert_eq!(transfer_category(&CategoryWiring::empty()), None);
}

#[test]
fn base_url_is_trimmed_and_defaults() {
    assert_eq!(login_api_base(None), "http://127.0.0.1:3002");
    assert_eq!(login_api_base(Some("  http://login:9000///  ")), "http://login:9000");
    assert_eq!(trim_trailing_slashes("a/b//"), "a/b");
    assert_eq!(trim_trailing_slashes("///"), "");
    assert_eq!(trim_trailing_slashes(""), "");
    assert_eq!(settings_url("http://h"), "http://h/api/settings");
}

#[test]
fn fetch_errors_are_worded_by_cause() {
    let url = "http://h/api/settings";
    assert_eq!(request_failed(url, "refused"), "GET http://h/api/settings failed: refused");
    assert_eq!(bad_status(url, "500 Internal Server Error"), "GET http://h/api/settings returned HTTP 500 Internal Server Error");
    assert_eq!(unreadable_body(url, "eof"), "GET http://h/api/settings returned an unreadable body: eof");
    assert_eq!(
        fetch_outcome(url, SettingsReply::SendFailed("refused".to_string())).err().unwrap(),
        "GET http://h/api/settings failed: refused"
    );
    assert_eq!(
        fetch_outcome(url, SettingsReply::BadStatus("502 Bad Gateway".to_string())).err().unwrap(),
        "GET http://h/api/settings returned HTTP 502 Bad Gateway"
    );
    assert_eq!(
        fetch_outcome(url, SettingsReply::Unreadable("bad json".to_string())).err().unwrap(),
        "GET http://h/api/settings returned an unreadable body: bad json"
    );
    assert_eq!(fetch_outcome(url, SettingsReply::Data(None)).ok().unwrap().len(), 0);
    let rows = fetch_outcome(url, SettingsReply::Data(Some(vec![row("K", "V")]))).ok().unwrap();
    assert_eq!(rows.len(), 1);
    assert_eq!(rows[0].app_setting_key, "K");
}

#[test]
fn stale_cache_is_served_when_the_fetch_fails() {
    assert_eq!(settings_after_fetch(Ok::<u8, String>(1), Some(2)), (Ok(1), true));
    assert_eq!(settings_after_fetch(Err::<u8, String>("down".to_string()), Some(2)), (Ok(2), false));
    assert_eq!(settings_after_fetch(Err::<u8, String>("down".to_string()), None), (Err("down".to_string()), false));
}

#[test]
fn cache_is_fresh_for_one_minute() {
    assert!(cache_usable(false, 0));
    assert!(cache_usable(false, CACHE_TTL_NANOS - 1));
    assert!(!cache_usable(false, CACHE_TTL_NANOS));
    assert!(cache_usable(true, CACHE_TTL_NANOS * 10));
}

#[test]
fn unreachable_settings_give_the_empty_wiring() {
    let wiring = global_category_wiring(Err("down".to_string()));
    assert_eq!(wiring.transfer_category_id, 0);
    assert_eq!(wiring.debt_category_name, "");
    let wired = global_category_wiring(Ok(vec![row("DEBT_CATEGORY_ID", D_ID), row("DEBT_CATEGORY_NAME", "Debt")]));
    assert_eq!(wired.resolve_name(value_of(D_ID)).as_deref(), Some("Debt"));
}

#[test]
fn percent_encoding_covers_every_reserved_byte() {
    assert_eq!(urlencoding_path("A-z_0.9~"), "A-z_0.9~");
    assert_eq!(urlencoding_path("?#%"), "%3F%23%25");
    assert_eq!(urlencoding_path("é"), "%C3%A9");
    assert_eq!(urlencoding_path(""), "");
}

#[test]
fn lookup_url_encodes_the_username() {
    assert_eq!(user_lookup_url("http://h", "bob smith"), "http://h/api/user/users/bob%20smith");
}

#[test]
fn lookup_reply_heads_decide_the_outcome() {
    let url = "http://h/api/user/users/bob";
    match lookup_after_send(url, UserReplyHead::SendFailed("timeout".to_string())) {
        LookupStep::Done(UserLookup::Unavailable(why)) => assert_eq!(why, "GET http://h/api/user/users/bob failed: timeout"),
        _ => panic!("expected unavailable"),
    }
    assert!(matches!(lookup_after_send(url, UserReplyHead::Status(404, "404 Not Found".to_string())), LookupStep::Done(UserLookup::NotFound)));
    match lookup_after_send(url, UserReplyHead::Status(401, "401 Unauthorized".to_string())) {
        LookupStep::Done(UserLookup::Unavailable(why)) => assert_eq!(why, "GET http://h/api/user/users/bob returned HTTP 401 Unauthorized"),
        _ => panic!("expected unavailable"),
    }
    assert!(matches!(lookup_after_send(url, UserReplyHead::Status(200, "200 OK".to_string())), LookupStep::ReadBody));
}

#[test]
fn lookup_bodies_decide_the_outcome() {
    let url = "http://h/u";
    assert!(matches!(lookup_from_body(url, Ok(Some("Bob".to_string()))), UserLookup::Found(n) if n == "Bob"));
    assert!(matches!(lookup_from_body(url, Ok(None)), UserLookup::NotFound));
    assert!(matches!(lookup_from_body(url, Err("eof".to_string())), UserLookup::Unavailable(w) if w == "GET http://h/u returned an unreadable body: eof"));
}
