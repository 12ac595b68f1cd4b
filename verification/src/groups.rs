//! Rules of spending groups: creating and renaming them, adding members,
//! switching them on and off, their categories, monthly targets and the
//! members' group balances.
use vstd::prelude::*;
use vstd::string::*;
use crate::text::{concat2, concat3, eq_ignore_ascii_case, eq_ignore_ascii_case_seq, str_equal,
    to_owned_string, trim, trim_seq, trimmed};
use crate::responses::{Rejection, RejectionView, rej, refused, known_text};
use crate::settings_client::{parse_uuid, uuid_or_nil};
use crate::user_client::{UserLookup, lookup_view, LookupView};

verus! {

/// Body of the leader's switch of target spendings.
pub struct GroupTargetSettingInput {
    pub enabled: bool,
}

/// A group needs a name after trimming. Gives the trimmed name.
pub fn check_group_name(group_name: &str) -> (r: Result<String, Rejection>)
    ensures
        r matches Ok(n) ==> n@ == trim_seq(group_name@) && n@.len() > 0,
        trim_seq(group_name@).len() == 0 ==> refused(r) == Some(rej(400, "Group name is required"@, ""@)),
        r is Ok <==> trim_seq(group_name@).len() > 0,
{
    let name = trimmed(group_name);
    if name.as_str().unicode_len() == 0 {
        return Err(Rejection::new(400, "Group name is required", ""));
    }
    Ok(name)
}

/// Only the leader changes an existing group; a new id makes a new group led
/// by the caller.
pub fn check_group_change(leader: Option<&str>, username: &str) -> (r: Result<(), Rejection>)
    ensures
        r is Ok <==> (leader is None || leader->0@ == username@),
        r is Err ==> refused(r) == Some(rej(403, "Only the group leader can change this group"@, ""@)),
{
    match leader {
        Some(l) => if str_equal(l, username) { Ok(()) } else { Err(Rejection::new(403, "Only the group leader can change this group", "")) },
        None => Ok(()),
    }
}

/// A member to add needs a username after trimming. Gives it trimmed.
pub fn check_new_member(username: &str) -> (r: Result<String, Rejection>)
    ensures
        r matches Ok(n) ==> n@ == trim_seq(username@),
        r is Ok <==> trim_seq(username@).len() > 0,
        r is Err ==> refused(r) == Some(rej(400, "Username is required"@, ""@)),
{
    let name = trimmed(username);
    if name.as_str().unicode_len() == 0 {
        return Err(Rejection::new(400, "Username is required", ""));
    }
    Ok(name)
}

/// The member to add as the login service spells them, or the refusal when
/// the account does not exist or the service cannot be asked.
pub open spec fn member_from_lookup_of(lookup: LookupView, asked: Seq<char>) -> Result<Seq<char>, RejectionView> {
    match lookup {
        LookupView::Found(name) => Ok(name),
        LookupView::NotFound => Err(rej(404, "User not found"@, "No account is named '"@ + asked + "'."@)),
        LookupView::Unavailable(_) => Err(rej(503, "Cannot verify the user right now"@, "The account service is unreachable. Try again later."@)),
    }
}

/// Reads the login service's answer about the member to add.
pub fn member_from_lookup(lookup: UserLookup, asked: &str) -> (r: Result<String, Rejection>)
    ensures
        match (r, member_from_lookup_of(lookup_view(lookup), asked@)) {
            (Ok(a), Ok(b)) => a@ == b,
            (Err(a), Err(b)) => a@ == b,
            _ => false,
        },
{
    match lookup {
        UserLookup::Found(name) => Ok(name),
        UserLookup::NotFound => Err(Rejection::with_description(404, "User not found", concat3("No account is named '", asked, "'."))),
        UserLookup::Unavailable(_) => Err(Rejection::new(503, "Cannot verify the user right now", "The account service is unreachable. Try again later.")),
    }
}

/// A member is added once.
pub fn check_not_member(already: bool, name: &str) -> (r: Result<(), Rejection>)
    ensures
        r is Ok <==> !already,
        already ==> refused(r) == Some(rej(409, "Already a member"@, name@ + " is already in this group."@)),
{
    if already {
        Err(Rejection::with_description(409, "Already a member", concat2(name, " is already in this group.")))
    } else {
        Ok(())
    }
}

/// Only the leader switches a group on or off.
pub fn check_status_switch(leader: Option<&str>, username: &str) -> (r: Result<(), Rejection>)
    ensures
        leader is None ==> refused(r) == Some(rej(404, "Group not found"@, ""@)),
        leader matches Some(l) ==> (if l@ == username@ { r is Ok } else {
            refused(r) == Some(rej(403, "Only the group leader can switch this group on or off"@, ""@)) }),
{
    match leader {
        Some(l) => if str_equal(l, username) { Ok(()) } else { Err(Rejection::new(403, "Only the group leader can switch this group on or off", "")) },
        None => Err(Rejection::new(404, "Group not found", "")),
    }
}

/// Only the leader (compared without regard to ASCII case) manages the
/// group's categories.
pub fn check_category_manager(leader: Option<&str>, username: &str) -> (r: Result<(), Rejection>)
    ensures
        leader is None ==> refused(r) == Some(rej(404, "Group not found"@, ""@)),
        leader matches Some(l) ==> (if eq_ignore_ascii_case_seq(l@, username@) { r is Ok } else {
            refused(r) == Some(rej(403, "Only the group admin can manage group categories"@, ""@)) }),
{
    match leader {
        Some(l) => if eq_ignore_ascii_case(l, username) { Ok(()) } else { Err(Rejection::new(403, "Only the group admin can manage group categories", "")) },
        None => Err(Rejection::new(404, "Group not found", "")),
    }
}

/// A category needs a name after trimming. Gives it trimmed.
pub fn check_category_name(name: &str) -> (r: Result<String, Rejection>)
    ensures
        r matches Ok(n) ==> n@ == trim_seq(name@),
        r is Ok <==> trim_seq(name@).len() > 0,
        r is Err ==> refused(r) == Some(rej(400, "Category name is required"@, ""@)),
{
    let n = trimmed(name);
    if n.as_str().unicode_len() == 0 {
        return Err(Rejection::new(400, "Category name is required", ""));
    }
    Ok(n)
}

/// The kind of a group category: absent, empty or `spending` mean spending,
/// `earning` means earning (after trimming); anything else is refused.
pub open spec fn category_kind_of(kind: Option<Seq<char>>) -> Result<Seq<char>, RejectionView> {
    match kind {
        None => Ok("spending"@),
        Some(k) => {
            let t = trim_seq(k);
            if t.len() == 0 || t == "spending"@ {
                Ok("spending"@)
            } else if t == "earning"@ {
                Ok("earning"@)
            } else {
                Err(rej(400, "Unknown category kind"@, "'"@ + t + "' is neither spending nor earning."@))
            }
        },
    }
}

/// Reads a group category's kind.
pub fn category_kind(kind: Option<&str>) -> (r: Result<String, Rejection>)
    ensures
        match (r, category_kind_of(match kind { Some(k) => Some(k@), None => None })) {
            (Ok(a), Ok(b)) => a@ == b,
            (Err(a), Err(b)) => a@ == b,
            _ => false,
        },
{
    match kind {
        None => Ok(to_owned_string("spending")),
        Some(k) => {
            let t = trim(k);
            if t.unicode_len() == 0 || str_equal(t, "spending") {
                Ok(to_owned_string("spending"))
            } else if str_equal(t, "earning") {
                Ok(to_owned_string("earning"))
            } else {
                Err(Rejection::with_description(400, "Unknown category kind", concat3("'", t, "' is neither spending nor earning.")))
            }
        },
    }
}

/// A category id may be reused only inside the group it belongs to; the
/// owning group is stored as text.
pub fn check_category_owner(owner_group: Option<&str>, group_id: u128) -> (r: Result<(), Rejection>)
    ensures
        r is Ok <==> (owner_group is None || uuid_or_nil(owner_group->0@) == group_id),
        r is Err ==> refused(r) == Some(rej(409, "Category id already used"@, ""@)),
{
    match owner_group {
        Some(o) => if parse_uuid(o) != group_id { Err(Rejection::new(409, "Category id already used", "")) } else { Ok(()) },
        None => Ok(()),
    }
}

/// A group has one category of a kind under a name.
pub fn check_category_free(taken: bool, kind: &str, name: &str) -> (r: Result<(), Rejection>)
    ensures
        r is Ok <==> !taken,
        taken ==> refused(r) == Some(rej(409, "Category already exists"@,
            "This group already has a "@ + kind@ + " category named '"@ + name@ + "'."@)),
{
    if taken {
        let mut d = concat3("This group already has a ", kind, " category named '");
        d.append(name);
        d.append("'.");
        Err(Rejection::with_description(409, "Category already exists", d))
    } else {
        Ok(())
    }
}

/// A category removal that found nothing to remove.
pub fn category_removed(removed: bool) -> (r: Result<(), Rejection>)
    ensures
        r is Ok <==> removed,
        !removed ==> refused(r) == Some(rej(404, "Category not found"@, ""@)),
{
    if removed { Ok(()) } else { Err(Rejection::new(404, "Category not found", "")) }
}

/// Whether the caller leads the group, for targets: the leader compared
/// without regard to ASCII case; no leader means no.
pub fn target_leader(leader: Option<&str>, username: &str) -> (r: bool)
    ensures
        r == (leader matches Some(l) && eq_ignore_ascii_case_seq(l@, username@)),
{
    match leader {
        Some(l) => eq_ignore_ascii_case(l, username),
        None => false,
    }
}

/// Whose rows a member reads: the leader reads everyone's, anyone else only
/// their own.
pub fn visible_user<'a>(is_leader: bool, username: &'a str) -> (r: Option<&'a str>)
    ensures
        is_leader ==> r is None,
        !is_leader ==> r == Some(username),
{
    if is_leader { None } else { Some(username) }
}

/// A monthly target is refused when it is not a finite number at or above
/// zero (`invalid`), and while the leader has targets switched off.
pub fn check_target(invalid: bool, enabled: bool) -> (r: Result<(), Rejection>)
    ensures
        invalid ==> refused(r) == Some(rej(400, "Target cannot be negative"@, ""@)),
        !invalid && !enabled ==> refused(r) == Some(rej(409, "Target spendings are turned off for this group"@, ""@)),
        r is Ok <==> (!invalid && enabled),
{
    if invalid {
        return Err(Rejection::new(400, "Target cannot be negative", ""));
    }
    if !enabled {
        return Err(Rejection::new(409, "Target spendings are turned off for this group", ""));
    }
    Ok(())
}

/// Only the leader switches targets on or off.
pub fn check_target_switch(is_leader: bool) -> (r: Result<(), Rejection>)
    ensures
        r is Ok <==> is_leader,
        !is_leader ==> refused(r) == Some(rej(403, "Only the group leader can switch target spendings"@, ""@)),
{
    if is_leader { Ok(()) } else { Err(Rejection::new(403, "Only the group leader can switch target spendings", "")) }
}

/// Whether the caller leads the group, for balances: exactly the leader's
/// name.
pub fn balance_leader(leader: Option<&str>, username: &str) -> (r: bool)
    ensures
        r == (leader matches Some(l) && l@ == username@),
{
    match leader {
        Some(l) => str_equal(l, username),
        None => false,
    }
}

/// A balance movement needs an amount above zero (`amount_le_zero` is the
/// amount compared with `<= 0.0`).
pub fn check_balance_amount(amount_le_zero: bool) -> (r: Result<(), Rejection>)
    ensures
        r is Ok <==> !amount_le_zero,
        amount_le_zero ==> refused(r) == Some(rej(400, "Amount must be positive"@, ""@)),
{
    if amount_le_zero { Err(Rejection::new(400, "Amount must be positive", "")) } else { Ok(()) }
}

/// A retried balance entry: answered when it is the caller's own, refused
/// otherwise. Gives whether it is a repeat.
pub fn balance_replay(existing_owner: Option<&str>, username: &str) -> (r: Result<bool, Rejection>)
    ensures
        existing_owner is None ==> r == Ok::<bool, Rejection>(false),
        existing_owner matches Some(o) ==> (if o@ == username@ { r == Ok::<bool, Rejection>(true) } else {
            refused(r) == Some(rej(409, "Entry id already used"@, ""@)) }),
{
    match existing_owner {
        None => Ok(false),
        Some(o) => if str_equal(o, username) { Ok(true) } else { Err(Rejection::new(409, "Entry id already used", "")) },
    }
}

/// The description of a top-up: the trimmed one given, or `Add balance`.
pub fn top_up_description(description: &str) -> (r: String)
    ensures
        trim_seq(description@).len() == 0 ==> r@ == "Add balance"@,
        trim_seq(description@).len() > 0 ==> r@ == trim_seq(description@),
{
    let d = trim(description);
    if d.unicode_len() == 0 { to_owned_string("Add balance") } else { to_owned_string(d) }
}

/// The description of a spending from a group balance: the trimmed one
/// given, or the category's name.
pub fn balance_spending_description(description: &str, category: &str) -> (r: String)
    ensures
        trim_seq(description@).len() == 0 ==> r@ == category@,
        trim_seq(description@).len() > 0 ==> r@ == trim_seq(description@),
{
    let d = trim(description);
    if d.unicode_len() == 0 { to_owned_string(category) } else { to_owned_string(d) }
}

/// A spending from a group balance that the balance did not cover.
pub fn balance_spending_saved(saved: bool) -> (r: Result<(), Rejection>)
    ensures
        r is Ok <==> saved,
        !saved ==> refused(r) == Some(rej(409, "Not enough group balance"@, "Add balance first."@)),
{
    if saved { Ok(()) } else { Err(Rejection::new(409, "Not enough group balance", "Add balance first.")) }
}

/// What adding a member needs looked up, in this order.
pub enum MemberLookup {
    /// Whether the caller is a member of the group.
    Membership,
    /// The account, in the login service, by the trimmed name sent.
    Account,
    /// Whether the account (as the service spells it) is already a member.
    AlreadyMember,
}

/// What adding a member does next.
pub enum MemberNext {
    Find(MemberLookup),
    Refuse(Rejection),
    /// Add the account under this name.
    Add(String),
}

/// The abstract next step.
pub enum MemberDecision {
    Find(MemberLookup),
    Refuse(RejectionView),
    Add(Seq<char>),
}

/// The abstract view of the next step.
pub open spec fn member_next_view(n: MemberNext) -> MemberDecision {
    match n {
        MemberNext::Find(l) => MemberDecision::Find(l),
        MemberNext::Refuse(e) => MemberDecision::Refuse(e@),
        MemberNext::Add(m) => MemberDecision::Add(m@),
    }
}

/// The lookup fact by its abstract view.
pub open spec fn known_lookup(x: Option<UserLookup>) -> Option<LookupView> {
    match x {
        None => None,
        Some(l) => Some(lookup_view(l)),
    }
}

/// Adding a member, step by step: a username must be sent; only members
/// add; the account must exist in the login service, whose spelling is what
/// is stored, so one person never becomes two members; and it is added once.
pub open spec fn member_decision(
    is_member: Option<bool>,
    account: Option<LookupView>,
    already: Option<bool>,
    sent: Seq<char>,
) -> MemberDecision {
    if trim_seq(sent).len() == 0 {
        MemberDecision::Refuse(rej(400, "Username is required"@, ""@))
    } else {
        match is_member {
            None => MemberDecision::Find(MemberLookup::Membership),
            Some(false) => MemberDecision::Refuse(rej(404, "Group not found"@, ""@)),
            Some(true) => match account {
                None => MemberDecision::Find(MemberLookup::Account),
                Some(l) => match member_from_lookup_of(l, trim_seq(sent)) {
                    Err(v) => MemberDecision::Refuse(v),
                    Ok(name) => match already {
                        None => MemberDecision::Find(MemberLookup::AlreadyMember),
                        Some(true) => MemberDecision::Refuse(rej(409, "Already a member"@, name + " is already in this group."@)),
                        Some(false) => MemberDecision::Add(name),
                    },
                },
            },
        }
    }
}

/// The next step of adding the member named `sent`.
pub fn add_member_next(is_member: Option<bool>, account: Option<UserLookup>, already: Option<bool>, sent: &str) -> (r: MemberNext)
    ensures
        member_next_view(r) == member_decision(is_member, known_lookup(account), already, sent@),
{
    let asked = match check_new_member(sent) {
        Err(e) => return MemberNext::Refuse(e),
        Ok(n) => n,
    };
    let m = match is_member {
        None => return MemberNext::Find(MemberLookup::Membership),
        Some(m) => m,
    };
    if let Err(e) = crate::group_plan::require_membership(m) {
        return MemberNext::Refuse(e);
    }
    let found = match account {
        None => return MemberNext::Find(MemberLookup::Account),
        Some(l) => l,
    };
    let name = match member_from_lookup(found, asked.as_str()) {
        Err(e) => return MemberNext::Refuse(e),
        Ok(n) => n,
    };
    let twice = match already {
        None => return MemberNext::Find(MemberLookup::AlreadyMember),
        Some(a) => a,
    };
    match check_not_member(twice, name.as_str()) {
        Err(e) => MemberNext::Refuse(e),
        Ok(()) => MemberNext::Add(name),
    }
}

/// What saving a group category needs looked up, in this order.
pub enum CategoryLookup {
    /// The group's leader.
    Leader,
    /// The group owning the category id, if any (stored as text).
    Owner,
    /// Whether the group already has a category of the kind with the name.
    Taken,
}

/// What saving a group category does next.
pub enum CategoryNext {
    Find(CategoryLookup),
    Refuse(Rejection),
    /// Save the category with this trimmed name and kind.
    Save(String, String),
}

/// The abstract next step.
pub enum CategoryDecision {
    Find(CategoryLookup),
    Refuse(RejectionView),
    Save(Seq<char>, Seq<char>),
}

/// The abstract view of the next step.
pub open spec fn category_next_view(n: CategoryNext) -> CategoryDecision {
    match n {
        CategoryNext::Find(l) => CategoryDecision::Find(l),
        CategoryNext::Refuse(e) => CategoryDecision::Refuse(e@),
        CategoryNext::Save(n, k) => CategoryDecision::Save(n@, k@),
    }
}

/// Saving a group category, step by step: the group's leader only (ASCII
/// case ignored); a name after trimming; a known kind; an id that belongs to
/// no other group; and no other category of the kind with the name.
pub open spec fn category_decision(
    leader: Option<Option<Seq<char>>>,
    owner: Option<Option<Seq<char>>>,
    taken: Option<bool>,
    name: Seq<char>,
    kind: Option<Seq<char>>,
    group_id: u128,
    username: Seq<char>,
) -> CategoryDecision {
    match leader {
        None => CategoryDecision::Find(CategoryLookup::Leader),
        Some(None) => CategoryDecision::Refuse(rej(404, "Group not found"@, ""@)),
        Some(Some(l)) => if !eq_ignore_ascii_case_seq(l, username) {
            CategoryDecision::Refuse(rej(403, "Only the group admin can manage group categories"@, ""@))
        } else if trim_seq(name).len() == 0 {
            CategoryDecision::Refuse(rej(400, "Category name is required"@, ""@))
        } else {
            match category_kind_of(kind) {
                Err(v) => CategoryDecision::Refuse(v),
                Ok(k) => match owner {
                    None => CategoryDecision::Find(CategoryLookup::Owner),
                    Some(o) => if o matches Some(g) && uuid_or_nil(g) != group_id {
                        CategoryDecision::Refuse(rej(409, "Category id already used"@, ""@))
                    } else {
                        match taken {
                            None => CategoryDecision::Find(CategoryLookup::Taken),
                            Some(true) => CategoryDecision::Refuse(rej(409, "Category already exists"@,
                                "This group already has a "@ + k + " category named '"@ + trim_seq(name) + "'."@)),
                            Some(false) => CategoryDecision::Save(trim_seq(name), k),
                        }
                    },
                },
            }
        },
    }
}

/// The next step of saving a group category.
pub fn save_category_next(
    leader: Option<Option<String>>,
    owner: Option<Option<String>>,
    taken: Option<bool>,
    name: &str,
    kind: Option<&str>,
    group_id: u128,
    username: &str,
) -> (r: CategoryNext)
    ensures
        category_next_view(r) == category_decision(known_text(leader), known_text(owner), taken, name@,
            match kind { Some(k) => Some(k@), None => None }, group_id, username@),
{
    let l = match leader {
        None => return CategoryNext::Find(CategoryLookup::Leader),
        Some(l) => l,
    };
    let managed = match &l {
        Some(x) => check_category_manager(Some(x.as_str()), username),
        None => check_category_manager(None, username),
    };
    if let Err(e) = managed {
        return CategoryNext::Refuse(e);
    }
    let n = match check_category_name(name) {
        Err(e) => return CategoryNext::Refuse(e),
        Ok(n) => n,
    };
    let k = match category_kind(kind) {
        Err(e) => return CategoryNext::Refuse(e),
        Ok(k) => k,
    };
    let o = match owner {
        None => return CategoryNext::Find(CategoryLookup::Owner),
        Some(o) => o,
    };
    let owned = match &o {
        Some(g) => check_category_owner(Some(g.as_str()), group_id),
        None => check_category_owner(None, group_id),
    };
    if let Err(e) = owned {
        return CategoryNext::Refuse(e);
    }
    let t = match taken {
        None => return CategoryNext::Find(CategoryLookup::Taken),
        Some(t) => t,
    };
    match check_category_free(t, k.as_str(), n.as_str()) {
        Err(e) => CategoryNext::Refuse(e),
        Ok(()) => CategoryNext::Save(n, k),
    }
}

/// What a group-balance entry needs looked up, in this order.
pub enum BalanceLookup {
    Membership,
    /// An entry already holding the id: its owner.
    Existing,
}

/// What a group-balance entry does next.
pub enum BalanceNext {
    Find(BalanceLookup),
    /// The caller's own earlier entry with this id: answer with it.
    AnswerExisting,
    Refuse(Rejection),
    /// Write the entry with this description.
    Write(String),
}

/// The abstract next step.
pub enum BalanceDecision {
    Find(BalanceLookup),
    AnswerExisting,
    Refuse(RejectionView),
    Write(Seq<char>),
}

/// The abstract view of the next step.
pub open spec fn balance_next_view(n: BalanceNext) -> BalanceDecision {
    match n {
        BalanceNext::Find(l) => BalanceDecision::Find(l),
        BalanceNext::AnswerExisting => BalanceDecision::AnswerExisting,
        BalanceNext::Refuse(e) => BalanceDecision::Refuse(e@),
        BalanceNext::Write(d) => BalanceDecision::Write(d@),
    }
}

/// A group-balance entry, step by step: members only; a positive amount; a
/// retried id is answered when the entry is the caller's and refused
/// otherwise; then it is written, described by the trimmed description or,
/// when that is empty, `fallback`.
pub open spec fn balance_decision(
    is_member: Option<bool>,
    existing_owner: Option<Option<Seq<char>>>,
    amount_le_zero: bool,
    description: Seq<char>,
    fallback: Seq<char>,
    username: Seq<char>,
) -> BalanceDecision {
    match is_member {
        None => BalanceDecision::Find(BalanceLookup::Membership),
        Some(false) => BalanceDecision::Refuse(rej(404, "Group not found"@, ""@)),
        Some(true) => if amount_le_zero {
            BalanceDecision::Refuse(rej(400, "Amount must be positive"@, ""@))
        } else {
            match existing_owner {
                None => BalanceDecision::Find(BalanceLookup::Existing),
                Some(Some(o)) => if o == username {
                    BalanceDecision::AnswerExisting
                } else {
                    BalanceDecision::Refuse(rej(409, "Entry id already used"@, ""@))
                },
                Some(None) => BalanceDecision::Write(if trim_seq(description).len() == 0 { fallback } else { trim_seq(description) }),
            }
        },
    }
}

fn balance_start(is_member: Option<bool>, existing_owner: Option<Option<String>>, amount_le_zero: bool, username: &str) -> (r: Option<BalanceNext>)
    ensures
        match r {
            Some(n) => balance_next_view(n) == balance_decision(is_member, known_text(existing_owner), amount_le_zero, ""@, ""@, username@)
                && !(balance_next_view(n) is Write),
            None => balance_decision(is_member, known_text(existing_owner), amount_le_zero, ""@, ""@, username@) is Write,
        },
{
    let m = match is_member {
        None => return Some(BalanceNext::Find(BalanceLookup::Membership)),
        Some(m) => m,
    };
    if let Err(e) = crate::group_plan::require_membership(m) {
        return Some(BalanceNext::Refuse(e));
    }
    if let Err(e) = check_balance_amount(amount_le_zero) {
        return Some(BalanceNext::Refuse(e));
    }
    let prior = match existing_owner {
        None => return Some(BalanceNext::Find(BalanceLookup::Existing)),
        Some(p) => p,
    };
    let replay = match &prior {
        Some(o) => balance_replay(Some(o.as_str()), username),
        None => balance_replay(None, username),
    };
    match replay {
        Err(e) => Some(BalanceNext::Refuse(e)),
        Ok(true) => Some(BalanceNext::AnswerExisting),
        Ok(false) => None,
    }
}

/// The next step of a top-up of the caller's own group balance; an empty
/// description reads `Add balance`.
pub fn top_up_next(is_member: Option<bool>, existing_owner: Option<Option<String>>, amount_le_zero: bool, description: &str, username: &str) -> (r: BalanceNext)
    ensures
        balance_next_view(r) == balance_decision(is_member, known_text(existing_owner), amount_le_zero, description@, "Add balance"@, username@),
{
    match balance_start(is_member, existing_owner, amount_le_zero, username) {
        Some(n) => n,
        None => BalanceNext::Write(top_up_description(description)),
    }
}

/// The next step of a spending from the caller's group balance; an empty
/// description reads as the category's name. The store refuses it when the
/// balance does not cover it (`balance_spending_saved`).
pub fn balance_spending_next(is_member: Option<bool>, existing_owner: Option<Option<String>>, amount_le_zero: bool, description: &str, category: &str, username: &str) -> (r: BalanceNext)
    ensures
        balance_next_view(r) == balance_decision(is_member, known_text(existing_owner), amount_le_zero, description@, category@, username@),
{
    match balance_start(is_member, existing_owner, amount_le_zero, username) {
        Some(n) => n,
        None => BalanceNext::Write(balance_spending_description(description, category)),
    }
}

/// What a member's monthly target needs looked up, in this order.
pub enum TargetLookup {
    Membership,
    /// The group's leader, which decides what the caller sees.
    Leader,
    /// Whether the leader has targets switched on.
    Enabled,
}

/// What a change of targets does next.
pub enum TargetNext {
    Find(TargetLookup),
    Refuse(Rejection),
    /// Save the caller's target, then answer with the targets the caller
    /// sees (everyone's when leading the group).
    SaveTarget(bool),
    /// Save the switch, then answer with everyone's targets.
    SaveSwitch,
}

/// The abstract next step.
pub enum TargetDecision {
    Find(TargetLookup),
    Refuse(RejectionView),
    SaveTarget(bool),
    SaveSwitch,
}

/// The abstract view of the next step.
pub open spec fn target_next_view(n: TargetNext) -> TargetDecision {
    match n {
        TargetNext::Find(l) => TargetDecision::Find(l),
        TargetNext::Refuse(e) => TargetDecision::Refuse(e@),
        TargetNext::SaveTarget(b) => TargetDecision::SaveTarget(b),
        TargetNext::SaveSwitch => TargetDecision::SaveSwitch,
    }
}

/// Setting the caller's monthly target, step by step: members only; a
/// finite target at or above zero; targets must be switched on.
pub open spec fn target_decision(
    is_member: Option<bool>,
    leader: Option<Option<Seq<char>>>,
    enabled: Option<bool>,
    invalid: bool,
    username: Seq<char>,
) -> TargetDecision {
    match is_member {
        None => TargetDecision::Find(TargetLookup::Membership),
        Some(false) => TargetDecision::Refuse(rej(404, "Group not found"@, ""@)),
        Some(true) => match leader {
            None => TargetDecision::Find(TargetLookup::Leader),
            Some(l) => if invalid {
                TargetDecision::Refuse(rej(400, "Target cannot be negative"@, ""@))
            } else {
                match enabled {
                    None => TargetDecision::Find(TargetLookup::Enabled),
                    Some(false) => TargetDecision::Refuse(rej(409, "Target spendings are turned off for this group"@, ""@)),
                    Some(true) => TargetDecision::SaveTarget(l matches Some(x) && eq_ignore_ascii_case_seq(x, username)),
                }
            },
        },
    }
}

/// The next step of setting the caller's monthly target; `invalid` is the
/// target not being a finite number at or above zero.
pub fn target_next(is_member: Option<bool>, leader: Option<Option<String>>, enabled: Option<bool>, invalid: bool, username: &str) -> (r: TargetNext)
    ensures
        target_next_view(r) == target_decision(is_member, known_text(leader), enabled, invalid, username@),
{
    let m = match is_member {
        None => return TargetNext::Find(TargetLookup::Membership),
        Some(m) => m,
    };
    if let Err(e) = crate::group_plan::require_membership(m) {
        return TargetNext::Refuse(e);
    }
    let l = match leader {
        None => return TargetNext::Find(TargetLookup::Leader),
        Some(l) => l,
    };
    let leads = match &l {
        Some(x) => target_leader(Some(x.as_str()), username),
        None => target_leader(None, username),
    };
    if invalid {
        return TargetNext::Refuse(Rejection::new(400, "Target cannot be negative", ""));
    }
    let on = match enabled {
        None => return TargetNext::Find(TargetLookup::Enabled),
        Some(on) => on,
    };
    match check_target(false, on) {
        Err(e) => TargetNext::Refuse(e),
        Ok(()) => TargetNext::SaveTarget(leads),
    }
}

/// Switching targets, step by step: members only; the leader alone.
pub open spec fn target_switch_decision(is_member: Option<bool>, leader: Option<Option<Seq<char>>>, username: Seq<char>) -> TargetDecision {
    match is_member {
        None => TargetDecision::Find(TargetLookup::Membership),
        Some(false) => TargetDecision::Refuse(rej(404, "Group not found"@, ""@)),
        Some(true) => match leader {
            None => TargetDecision::Find(TargetLookup::Leader),
            Some(l) => if l matches Some(x) && eq_ignore_ascii_case_seq(x, username) {
                TargetDecision::SaveSwitch
            } else {
                TargetDecision::Refuse(rej(403, "Only the group leader can switch target spendings"@, ""@))
            },
        },
    }
}

/// The next step of switching targets on or off.
pub fn target_switch_next(is_member: Option<bool>, leader: Option<Option<String>>, username: &str) -> (r: TargetNext)
    ensures
        target_next_view(r) == target_switch_decision(is_member, known_text(leader), username@),
{
    let m = match is_member {
        None => return TargetNext::Find(TargetLookup::Membership),
        Some(m) => m,
    };
    if let Err(e) = crate::group_plan::require_membership(m) {
        return TargetNext::Refuse(e);
    }
    let l = match leader {
        None => return TargetNext::Find(TargetLookup::Leader),
        Some(l) => l,
    };
    let leads = match &l {
        Some(x) => target_leader(Some(x.as_str()), username),
        None => target_leader(None, username),
    };
    match check_target_switch(leads) {
        Err(e) => TargetNext::Refuse(e),
        Ok(()) => TargetNext::SaveSwitch,
    }
}

/// A member is added as the login service spells the account, only by a
/// member of the group, and only when the account exists and is not in the
/// group yet.
pub proof fn law_members_are_added_as_the_account_is_named(
    is_member: Option<bool>,
    account: Option<LookupView>,
    already: Option<bool>,
    sent: Seq<char>,
)
    ensures
        member_decision(is_member, account, already, sent) matches MemberDecision::Add(name) ==> {
            &&& is_member == Some(true)
            &&& account == Some(LookupView::Found(name))
            &&& already == Some(false)
            &&& trim_seq(sent).len() > 0
        },
        (trim_seq(sent).len() > 0 && is_member == Some(true)) ==> (account matches Some(LookupView::Found(name)) ==>
            member_decision(is_member, account, Some(false), sent) == MemberDecision::Add(name)),
{
}

/// A group category is saved only by the group's leader, under its trimmed
/// name, as a `spending` category unless `earning` is asked for, with an id
/// no other group holds and a name the group does not have yet for the kind.
pub proof fn law_categories_are_the_leaders(
    leader: Option<Option<Seq<char>>>,
    owner: Option<Option<Seq<char>>>,
    taken: Option<bool>,
    name: Seq<char>,
    kind: Option<Seq<char>>,
    group_id: u128,
    username: Seq<char>,
)
    ensures
        category_decision(leader, owner, taken, name, kind, group_id, username) matches CategoryDecision::Save(n, k) ==> {
            &&& leader matches Some(Some(l)) && eq_ignore_ascii_case_seq(l, username)
            &&& n == trim_seq(name) && n.len() > 0
            &&& (k == "spending"@ || k == "earning"@)
            &&& (k == "earning"@ <==> (kind is Some && trim_seq(kind->0) == "earning"@))
            &&& taken == Some(false)
            &&& owner matches Some(o) && (o matches Some(g) ==> uuid_or_nil(g) == group_id)
        },
{
    reveal_strlit("earning");
    reveal_strlit("spending");
    assert("earning"@[0] != "spending"@[0]);
}

/// A group-balance entry is written only by a member, for a positive amount
/// and a new id, with the trimmed description, or the fallback (`Add
/// balance` for a top-up, the category's name for a spending) when that is
/// empty.
pub proof fn law_balance_entries_are_described(
    is_member: Option<bool>,
    existing_owner: Option<Option<Seq<char>>>,
    amount_le_zero: bool,
    description: Seq<char>,
    fallback: Seq<char>,
    username: Seq<char>,
)
    ensures
        balance_decision(is_member, existing_owner, amount_le_zero, description, fallback, username)
            matches BalanceDecision::Write(d) ==> {
            &&& is_member == Some(true) && !amount_le_zero && existing_owner == Some(None::<Seq<char>>)
            &&& trim_seq(description).len() > 0 ==> d == trim_seq(description)
            &&& trim_seq(description).len() == 0 ==> d == fallback
        },
        balance_decision(is_member, existing_owner, amount_le_zero, description, fallback, username) is AnswerExisting
            ==> existing_owner == Some(Some(username)),
{
}

/// A monthly target is saved only by a member, valid and with targets
/// switched on, and the caller then sees everyone's targets exactly when
/// leading the group; only the leader switches targets.
pub proof fn law_targets_follow_the_leader(
    is_member: Option<bool>,
    leader: Option<Option<Seq<char>>>,
    enabled: Option<bool>,
    invalid: bool,
    username: Seq<char>,
)
    ensures
        target_decision(is_member, leader, enabled, invalid, username) matches TargetDecision::SaveTarget(all) ==> {
            &&& is_member == Some(true) && !invalid && enabled == Some(true)
            &&& all <==> (leader is Some && leader->0 is Some && eq_ignore_ascii_case_seq(leader->0->0, username))
        },
        target_switch_decision(is_member, leader, username) is SaveSwitch
            <==> (is_member == Some(true) && leader is Some && leader->0 is Some
                && eq_ignore_ascii_case_seq(leader->0->0, username)),
{
}

} // verus!
