use transaction_api::groups::{
    balance_leader, balance_replay, balance_spending_description, balance_spending_saved,
    category_kind, category_removed, check_balance_amount, check_category_free,
    check_category_manager, check_category_name, check_category_owner, check_group_change,
    check_group_name, check_new_member, check_not_member, check_status_switch, check_target,
    check_target_switch, member_from_lookup, target_leader, top_up_description, visible_user,
    GroupTargetSettingInput,
};
use transaction_api::responses::Rejection;
use transaction_api::user_client::UserLookup;

fn refusal<T>(r: Result<T, Rejection>) -> (u16, String, String) {
    match r {
        Ok(_) => panic!("expected a refusal"),
        Err(e) => (e.status, e.message, e.description),
    }
}

fn rej(status: u16, message: &str, description: &str) -> (u16, String, String) {
    (status, message.to_string(), description.to_string())
}

const GROUP: &str = "0f0e0d0c-0b0a-0908-0706-050403020100";

#[test]
fn groups_need_a_name_and_their_leader() {
    assert_eq!(check_group_name("  Flat 3 ").ok().unwrap(), "Flat 3");
    assert_eq!(refusal(check_group_name("  ")), rej(400, "Group name is required", ""));
    assert!(check_group_change(None, "ann").is_ok());
    assert!(check_group_change(Some("ann"), "ann").is_ok());
    assert_eq!(refusal(check_group_change(Some("Ann"), "ann")), rej(403, "Only the group leader can change this group", ""));
}

#[test]
fn adding_members() {
    assert_eq!(check_new_member(" bob ").ok().unwrap(), "bob");
    assert_eq!(refusal(check_new_member("")), rej(400, "Username is required", ""));
    assert_eq!(member_from_lookup(UserLookup::Found("Bob".to_string()), "bob").ok().unwrap(), "Bob");
    assert_eq!(refusal(member_from_lookup(UserLookup::NotFound, "bobby")), rej(404, "User not found", "No account is named 'bobby'."));
    assert_eq!(
        refusal(member_from_lookup(UserLookup::Unavailable("timeout".to_string()), "bob")),
        rej(503, "Cannot verify the user right now", "The account service is unreachable. Try again later.")
    );
    assert!(check_not_member(false, "bob").is_ok());
    assert_eq!(refusal(check_not_member(true, "bob")), rej(409, "Already a member", "bob is already in this group."));
}

#[test]
fn switching_groups() {
    assert!(check_status_switch(Some("ann"), "ann").is_ok());
    assert_eq!(refusal(check_status_switch(Some("ann"), "bob")), rej(403, "Only the group leader can switch this group on or off", ""));
    assert_eq!(refusal(check_status_switch(None, "bob")), rej(404, "Group not found", ""));
}

#[test]
fn group_categories() {
    assert!(check_category_manager(Some("ANN"), "ann").is_ok());
    assert_eq!(refusal(check_category_manager(Some("bob"), "ann")), rej(403, "Only the group admin can manage group categories", ""));
    assert_eq!(refusal(check_category_manager(None, "ann")), rej(404, "Group not found", ""));
    assert_eq!(check_category_name(" Food ").ok().unwrap(), "Food");
    assert_eq!(refusal(check_category_name(" ")), rej(400, "Category name is required", ""));
    assert_eq!(category_kind(None).ok().unwrap(), "spending");
    assert_eq!(category_kind(Some("  ")).ok().unwrap(), "spending");
    assert_eq!(category_kind(Some(" spending")).ok().unwrap(), "spending");
    assert_eq!(category_kind(Some("earning ")).ok().unwrap(), "earning");
    assert_eq!(refusal(category_kind(Some(" Income "))), rej(400, "Unknown category kind", "'Income' is neither spending nor earning."));
    let group = uuid::Uuid::parse_str(GROUP).unwrap().as_u128();
    assert!(check_category_owner(None, group).is_ok());
    assert!(check_category_owner(Some(GROUP), group).is_ok());
    assert_eq!(refusal(check_category_owner(Some("not-a-uuid"), group)), rej(409, "Category id already used", ""));
    assert!(check_category_owner(Some("not-a-uuid"), 0).is_ok());
    assert!(check_category_free(false, "spending", "Food").is_ok());
    assert_eq!(refusal(check_category_free(true, "earning", "Tips")), rej(409, "Category already exists", "This group already has a earning category named 'Tips'."));
    assert!(category_removed(true).is_ok());
    assert_eq!(refusal(category_removed(false)), rej(404, "Category not found", ""));
}

#[test]
fn targets() {
    assert!(target_leader(Some("Ann"), "ann"));
    assert!(!target_leader(None, "ann"));
    assert_eq!(visible_user(true, "ann"), None);
    assert_eq!(visible_user(false, "ann"), Some("ann"));
    assert!(check_target(false, true).is_ok());
    assert_eq!(refusal(check_target(true, true)), rej(400, "Target cannot be negative", ""));
    assert_eq!(refusal(check_target(true, false)), rej(400, "Target cannot be negative", ""));
    assert_eq!(refusal(check_target(false, false)), rej(409, "Target spendings are turned off for this group", ""));
    assert!(check_target_switch(true).is_ok());
    assert_eq!(refusal(check_target_switch(false)), rej(403, "Only the group leader can switch target spendings", ""));
    let input = GroupTargetSettingInput { enabled: true };
    assert!(input.enabled);
}

#[test]
fn group_balances() {
    assert!(balance_leader(Some("ann"), "ann"));
    assert!(!balance_leader(Some("Ann"), "ann"));
    assert!(!balance_leader(None, "ann"));
    assert!(check_balance_amount(false).is_ok());
    assert_eq!(refusal(check_balance_amount(true)), rej(400, "Amount must be positive", ""));
    assert_eq!(balance_replay(None, "ann").ok(), Some(false));
    assert_eq!(balance_replay(Some("ann"), "ann").ok(), Some(true));
    assert_eq!(refusal(balance_replay(Some("bob"), "ann")), rej(409, "Entry id already used", ""));
    assert_eq!(top_up_description("  "), "Add balance");
    assert_eq!(top_up_description(" June "), "June");
    assert_eq!(balance_spending_description("", "Food"), "Food");
    assert_eq!(balance_spending_description(" Pizza ", "Food"), "Pizza");
    assert!(balance_spending_saved(true).is_ok());
    assert_eq!(refusal(balance_spending_saved(false)), rej(409, "Not enough group balance", "Add balance first."));
}
