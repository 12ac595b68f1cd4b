//! Rules of settling group spendings: paying a member back for a spending
//! (reimbursement), splitting a spending into shares, and paying shares.
use vstd::prelude::*;
use vstd::string::*;
use crate::text::{concat2, concat3, eq_ignore_ascii_case, eq_ignore_ascii_case_seq, is_blank,
    str_equal, to_owned_string, trim, trim_seq, trimmed};
use crate::responses::{Rejection, RejectionView, rej, refused, known_text, known_named, named_view, opt_text};
use crate::group_fund::{with_note, append_note};

verus! {

/// The text of a settlement record: `<text>: <spending description>`, or just
/// `<text>` when the description is blank.
pub fn about(text: String, spending: &str) -> (r: String)
    ensures
        r@ == with_note(text@, spending@),
{
    append_note(text, spending)
}

/// The refusal when no Transfer category is configured for a settlement that
/// touches a personal source.
pub open spec fn no_transfer_category() -> RejectionView {
    rej(503, "Transfer category is not configured on the server"@,
        "Use a group balance instead, or ask the admin to set the Transfer category."@)
}

/// A settlement that moves money through a personal source needs the
/// Transfer category; one that only touches group balances needs none.
pub fn settlement_category<T>(needed: bool, category: Option<T>) -> (r: Result<Option<T>, Rejection>)
    ensures
        !needed ==> r == Ok::<Option<T>, Rejection>(category),
        needed && category is Some ==> r == Ok::<Option<T>, Rejection>(category),
        needed && category is None ==> refused(r) == Some(no_transfer_category()),
{
    if needed && category.is_none() {
        return Err(Rejection::new(503, "Transfer category is not configured on the server",
            "Use a group balance instead, or ask the admin to set the Transfer category."));
    }
    Ok(category)
}

/// Where money comes from or goes to: a group balance, or a source that the
/// store must still confirm to be the person's own.
pub enum Side {
    GroupBalance,
    Source(u128),
}

/// Where a payer's money comes from: their group balance when asked for,
/// else the named source, which must be given.
pub fn payer_side(from_group_balance: bool, source_id: Option<u128>) -> (r: Result<Side, Rejection>)
    ensures
        from_group_balance ==> r == Ok::<Side, Rejection>(Side::GroupBalance),
        !from_group_balance ==> match source_id {
            Some(id) => r == Ok::<Side, Rejection>(Side::Source(id)),
            None => refused(r) == Some(rej(400, "Choose where the money comes from"@, "Send a from_source_id or set from_group_balance."@)),
        },
{
    if from_group_balance {
        return Ok(Side::GroupBalance);
    }
    match source_id {
        Some(id) => Ok(Side::Source(id)),
        None => Err(Rejection::new(400, "Choose where the money comes from", "Send a from_source_id or set from_group_balance.")),
    }
}

/// Where the owner takes the money: their group balance when asked for, else
/// the named source, which must be given.
pub fn owner_side(to_group_balance: bool, source_id: Option<u128>) -> (r: Result<Side, Rejection>)
    ensures
        to_group_balance ==> r == Ok::<Side, Rejection>(Side::GroupBalance),
        !to_group_balance ==> match source_id {
            Some(id) => r == Ok::<Side, Rejection>(Side::Source(id)),
            None => refused(r) == Some(rej(400, "Choose where the money goes"@, "Send a to_source_id or set to_group_balance."@)),
        },
{
    if to_group_balance {
        return Ok(Side::GroupBalance);
    }
    match source_id {
        Some(id) => Ok(Side::Source(id)),
        None => Err(Rejection::new(400, "Choose where the money goes", "Send a to_source_id or set to_group_balance.")),
    }
}

/// A source confirmed to be the person's own, by name; `not_found` is the
/// description of the refusal when it is not.
pub fn owned_source(found: Option<String>, not_found: &str) -> (r: Result<String, Rejection>)
    ensures
        found matches Some(n) ==> r == Ok::<String, Rejection>(n),
        found is None ==> refused(r) == Some(rej(400, "Source not found"@, not_found@)),
{
    match found {
        Some(n) => Ok(n),
        None => Err(Rejection::new(400, "Source not found", not_found)),
    }
}

/// What the store reports after writing a settlement.
pub enum SettleOutcome {
    Done,
    SpendingGone,
    /// More than what is left to settle; holds what is left, as displayed.
    OverLimit(String),
    NotEnoughBalance,
    NotPending,
}

/// The refusal of a settlement the store could not write.
pub open spec fn settle_refusal_of(outcome: SettleOutcome) -> Option<RejectionView> {
    match outcome {
        SettleOutcome::Done => None,
        SettleOutcome::SpendingGone => Some(rej(404, "Transaction not found"@, ""@)),
        SettleOutcome::OverLimit(left) => Some(rej(409, "Amount is more than what is left"@, "Only "@ + left@ + " is left to settle."@)),
        SettleOutcome::NotEnoughBalance => Some(rej(409, "Not enough group balance"@, "The payer's group balance does not cover this amount."@)),
        SettleOutcome::NotPending => Some(rej(409, "Payment is no longer pending"@, ""@)),
    }
}

/// The answer to a settlement the store could not write.
pub fn settle_outcome(outcome: SettleOutcome) -> (r: Result<(), Rejection>)
    ensures
        refused(r) == settle_refusal_of(outcome),
{
    match outcome {
        SettleOutcome::Done => Ok(()),
        SettleOutcome::SpendingGone => Err(Rejection::new(404, "Transaction not found", "")),
        SettleOutcome::OverLimit(left) => Err(Rejection::with_description(409, "Amount is more than what is left", concat3("Only ", left.as_str(), " is left to settle."))),
        SettleOutcome::NotEnoughBalance => Err(Rejection::new(409, "Not enough group balance", "The payer's group balance does not cover this amount.")),
        SettleOutcome::NotPending => Err(Rejection::new(409, "Payment is no longer pending", "")),
    }
}

/// How a reimbursement is split: whether the amount is also returned to the
/// owner's group balance, and whether the older `group_amount` counts.
/// Current clients send `return_balance`; then `group_amount` is ignored.
pub fn reimbursement_mode(return_balance: Option<bool>) -> (r: (bool, bool))
    ensures
        r.0 == (return_balance == Some(true)),
        r.1 == (return_balance is None),
{
    match return_balance {
        Some(b) => (b, false),
        None => (false, true),
    }
}

/// A retried reimbursement: answered when the caller paid it, refused when
/// someone else's holds the id. Gives whether it is a repeat.
pub fn reimbursement_replay(existing_payer: Option<&str>, username: &str) -> (r: Result<bool, Rejection>)
    ensures
        existing_payer is None ==> r == Ok::<bool, Rejection>(false),
        existing_payer matches Some(p) ==> (if p@ == username@ {
            r == Ok::<bool, Rejection>(true)
        } else {
            refused(r) == Some(rej(409, "Reimbursement id already used"@, ""@))
        }),
{
    match existing_payer {
        None => Ok(false),
        Some(p) => if str_equal(p, username) { Ok(true) } else { Err(Rejection::new(409, "Reimbursement id already used", "")) },
    }
}

/// The spending to reimburse must be one of the group's, and not the
/// caller's own. Gives its owner.
pub fn reimbursable_owner(found_owner: Option<String>, username: &str) -> (r: Result<String, Rejection>)
    ensures
        found_owner is None ==> refused(r) == Some(rej(404, "Transaction not found"@, "Only spendings of this group can be reimbursed."@)),
        found_owner matches Some(o) ==> (if eq_ignore_ascii_case_seq(o@, username@) {
            refused(r) == Some(rej(400, "You cannot reimburse your own transaction"@, "Someone else pays you back."@))
        } else {
            r == Ok::<String, Rejection>(o)
        }),
{
    match found_owner {
        None => Err(Rejection::new(404, "Transaction not found", "Only spendings of this group can be reimbursed.")),
        Some(o) => {
            if eq_ignore_ascii_case(o.as_str(), username) {
                Err(Rejection::new(400, "You cannot reimburse your own transaction", "Someone else pays you back."))
            } else {
                Ok(o)
            }
        },
    }
}

/// The owner's receiving source of a reimbursement: needed only when a
/// personal part is paid (`personal_positive`), and then it must be named.
pub fn reimbursement_destination(personal_positive: bool, to_source_id: Option<u128>) -> (r: Result<Option<u128>, Rejection>)
    ensures
        !personal_positive ==> r == Ok::<Option<u128>, Rejection>(None),
        personal_positive && to_source_id is Some ==> r == Ok::<Option<u128>, Rejection>(to_source_id),
        personal_positive && to_source_id is None ==> refused(r) == Some(rej(400, "Choose the owner's source"@, "The personal part needs a to_source_id."@)),
{
    if !personal_positive {
        return Ok(None);
    }
    match to_source_id {
        Some(id) => Ok(Some(id)),
        None => Err(Rejection::new(400, "Choose the owner's source", "The personal part needs a to_source_id.")),
    }
}

/// The description of the refusal when the owner's source is not theirs.
pub fn owner_sources_hint(owner: &str) -> (r: String)
    ensures
        r@ == "Pick one of "@ + owner@ + "'s sources."@,
{
    concat3("Pick one of ", owner, "'s sources.")
}

/// The descriptions of the two records a settlement writes.
pub struct LegTexts {
    pub payer: String,
    pub receiver: String,
}

/// `Reimburse <owner>` and `Reimbursement from <payer>`, each about the
/// spending.
pub fn reimbursement_texts(owner: &str, username: &str, spending: &str) -> (r: LegTexts)
    ensures
        r.payer@ == with_note("Reimburse "@ + owner@, spending@),
        r.receiver@ == with_note("Reimbursement from "@ + username@, spending@),
{
    LegTexts {
        payer: about(concat2("Reimburse ", owner), spending),
        receiver: about(concat2("Reimbursement from ", username), spending),
    }
}

/// The name shown as the source of a payment: the payer's source, or the
/// group balance.
pub fn source_label(source_name: Option<String>) -> (r: String)
    ensures
        source_name matches Some(n) ==> r == n,
        source_name is None ==> r@ == "Group balance"@,
{
    match source_name {
        Some(n) => n,
        None => to_owned_string("Group balance"),
    }
}

/// What to do with a share id: go on, answer with the caller's share, or
/// refuse.
pub enum ShareReplay {
    Fresh,
    /// The caller's own share: answer with it as stored now.
    Reread,
}

/// A retried share: the caller's own is read back, anyone else's id is
/// refused.
pub fn share_replay(existing_owner: Option<&str>, username: &str) -> (r: Result<ShareReplay, Rejection>)
    ensures
        existing_owner is None ==> r == Ok::<ShareReplay, Rejection>(ShareReplay::Fresh),
        existing_owner matches Some(o) ==> (if o@ == username@ {
            r == Ok::<ShareReplay, Rejection>(ShareReplay::Reread)
        } else {
            refused(r) == Some(rej(409, "Share id already used"@, ""@))
        }),
{
    match existing_owner {
        None => Ok(ShareReplay::Fresh),
        Some(o) => if str_equal(o, username) { Ok(ShareReplay::Reread) } else { Err(Rejection::new(409, "Share id already used", "")) },
    }
}

/// A share read back that was removed meanwhile.
pub fn reread_share<T>(found: Option<T>) -> (r: Result<T, Rejection>)
    ensures
        found matches Some(s) ==> r == Ok::<T, Rejection>(s),
        found is None ==> refused(r) == Some(rej(409, "Share was removed"@, ""@)),
{
    match found {
        Some(s) => Ok(s),
        None => Err(Rejection::new(409, "Share was removed", "")),
    }
}

/// A payment read back after it was written, which may have been removed
/// meanwhile.
pub fn reread_payment<T>(found: Option<T>) -> (r: Result<T, Rejection>)
    ensures
        found matches Some(p) ==> r == Ok::<T, Rejection>(p),
        found is None ==> refused(r) == Some(rej(404, "Payment not found"@, ""@)),
{
    match found {
        Some(p) => Ok(p),
        None => Err(Rejection::new(404, "Payment not found", "")),
    }
}

/// Only the person who recorded a group spending may split it.
pub fn splittable(found_owner: Option<&str>, username: &str) -> (r: Result<(), Rejection>)
    ensures
        found_owner is None ==> refused(r) == Some(rej(404, "Transaction not found"@, "Only spendings of this group can be split."@)),
        found_owner matches Some(o) ==> (if o@ == username@ {
            r is Ok
        } else {
            refused(r) == Some(rej(403, "Only the person who recorded this transaction can split it"@, ""@))
        }),
{
    match found_owner {
        None => Err(Rejection::new(404, "Transaction not found", "Only spendings of this group can be split.")),
        Some(o) => if str_equal(o, username) { Ok(()) } else { Err(Rejection::new(403, "Only the person who recorded this transaction can split it", "")) },
    }
}

/// Who a share is for, as the request names them.
pub enum ShareParty {
    /// A registered user, to be found among the group's members.
    Member(String),
    /// Just a name, whose payments the owner records.
    Name(String),
}

/// The longest name a share may carry, in characters.
pub const MAX_SHARE_NAME_CHARS: usize = 255;

/// Who a share is for: the trimmed `username` when it is not blank, else the
/// trimmed `name`, which must be neither empty nor longer than the limit.
pub open spec fn share_party_of(username: Option<Seq<char>>, name: Option<Seq<char>>) -> Result<(bool, Seq<char>), RejectionView> {
    if username matches Some(u) && trim_seq(u).len() > 0 {
        Ok((true, trim_seq(username->0)))
    } else {
        let n = match name { Some(n) => trim_seq(n), None => Seq::empty() };
        if n.len() == 0 {
            Err(rej(400, "Enter a name"@, "Send a username or a name."@))
        } else if n.len() > 255 {
            Err(rej(400, "Name is too long"@, ""@))
        } else {
            Ok((false, n))
        }
    }
}

/// The party view of a share party.
pub open spec fn party_view(p: ShareParty) -> (bool, Seq<char>) {
    match p {
        ShareParty::Member(u) => (true, u@),
        ShareParty::Name(n) => (false, n@),
    }
}

/// Reads who a share is for.
pub fn share_party(username: Option<&str>, name: Option<&str>) -> (r: Result<ShareParty, Rejection>)
    ensures
        match (r, share_party_of(match username { Some(u) => Some(u@), None => None }, match name { Some(n) => Some(n@), None => None })) {
            (Ok(p), Ok(v)) => party_view(p) == v,
            (Err(e), Err(v)) => e@ == v,
            _ => false,
        },
{
    if let Some(u) = username {
        let t = trim(u);
        if t.unicode_len() > 0 {
            return Ok(ShareParty::Member(to_owned_string(t)));
        }
    }
    let n = match name {
        Some(n) => trimmed(n),
        None => String::new(),
    };
    let len = n.as_str().unicode_len();
    if len == 0 {
        return Err(Rejection::new(400, "Enter a name", "Send a username or a name."));
    }
    if len > MAX_SHARE_NAME_CHARS {
        return Err(Rejection::new(400, "Name is too long", ""));
    }
    Ok(ShareParty::Name(n))
}

/// A registered share party must be a member other than the caller. Gives
/// the member's name as stored.
pub fn share_member(found: Option<String>, username: &str) -> (r: Result<String, Rejection>)
    ensures
        found is None ==> refused(r) == Some(rej(404, "Member not found"@, "Registered users must be members of this group. Use a name instead."@)),
        found matches Some(m) ==> (if eq_ignore_ascii_case_seq(m@, username@) {
            refused(r) == Some(rej(400, "Choose someone else"@, "You already paid your part."@))
        } else {
            r == Ok::<String, Rejection>(m)
        }),
{
    match found {
        None => Err(Rejection::new(404, "Member not found", "Registered users must be members of this group. Use a name instead.")),
        Some(m) => {
            if eq_ignore_ascii_case(m.as_str(), username) {
                Err(Rejection::new(400, "Choose someone else", "You already paid your part."))
            } else {
                Ok(m)
            }
        },
    }
}

/// A record found by id counts only inside the group it belongs to;
/// `missing` is the refusal's message otherwise.
pub fn found_in_group<T>(found: Option<(T, u128)>, group_id: u128, missing: &str) -> (r: Result<T, Rejection>)
    ensures
        found matches Some(p) ==> (p.1 == group_id ==> r == Ok::<T, Rejection>(p.0)),
        found matches Some(p) ==> (p.1 != group_id ==> refused(r) == Some(rej(404, missing@, ""@))),
        found is None ==> refused(r) == Some(rej(404, missing@, ""@)),
{
    match found {
        Some((t, g)) => if g == group_id { Ok(t) } else { Err(Rejection::new(404, missing, "")) },
        None => Err(Rejection::new(404, missing, "")),
    }
}

/// Only the owner of the spending removes a share.
pub fn check_share_removal(owner: &str, username: &str) -> (r: Result<(), Rejection>)
    ensures
        r is Ok <==> owner@ == username@,
        r is Err ==> refused(r) == Some(rej(403, "Only the owner of the transaction can remove a share"@, ""@)),
{
    if str_equal(owner, username) { Ok(()) } else { Err(Rejection::new(403, "Only the owner of the transaction can remove a share", "")) }
}

/// A share that was partly paid stays.
pub fn share_removed(removed: bool) -> (r: Result<(), Rejection>)
    ensures
        r is Ok <==> removed,
        !removed ==> refused(r) == Some(rej(409, "Share already has payments"@, "A share that was partly paid cannot be removed."@)),
{
    if removed { Ok(()) } else { Err(Rejection::new(409, "Share already has payments", "A share that was partly paid cannot be removed.")) }
}

/// A retried payment: answered when `made_by_caller`, refused when someone
/// else's holds the id. Gives whether it is a repeat.
pub fn payment_replay(existing_made_by_caller: Option<bool>) -> (r: Result<bool, Rejection>)
    ensures
        existing_made_by_caller is None ==> r == Ok::<bool, Rejection>(false),
        existing_made_by_caller == Some(true) ==> r == Ok::<bool, Rejection>(true),
        existing_made_by_caller == Some(false) ==> refused(r) == Some(rej(409, "Payment id already used"@, ""@)),
{
    match existing_made_by_caller {
        None => Ok(false),
        Some(true) => Ok(true),
        Some(false) => Err(Rejection::new(409, "Payment id already used", "")),
    }
}

/// Whether a stored payment is the caller's own payment request.
pub open spec fn is_members_payment(paid_by: Option<Seq<char>>, username: Seq<char>) -> bool {
    paid_by == Some(username)
}

/// Whether a stored payment is one the caller recorded for a name.
pub open spec fn is_recorded_payment(owner: Seq<char>, paid_by_is_none: bool, username: Seq<char>) -> bool {
    owner == username && paid_by_is_none
}

/// Whether the stored payer is the caller.
pub fn paid_by_caller(paid_by: Option<&str>, username: &str) -> (r: bool)
    ensures
        r == is_members_payment(match paid_by { Some(p) => Some(p@), None => None }, username@),
{
    match paid_by {
        Some(p) => str_equal(p, username),
        None => false,
    }
}

/// Whether a stored payment is one the caller recorded for a name.
pub fn recorded_by_caller(owner: &str, paid_by_is_none: bool, username: &str) -> (r: bool)
    ensures
        r == is_recorded_payment(owner@, paid_by_is_none, username@),
{
    str_equal(owner, username) && paid_by_is_none
}

/// A share or a payment needs an amount above zero (`amount_le_zero` is the
/// amount compared with `<= 0.0`).
pub fn check_settlement_amount(amount_le_zero: bool) -> (r: Result<(), Rejection>)
    ensures
        r is Ok <==> !amount_le_zero,
        amount_le_zero ==> refused(r) == Some(rej(400, "Amount must be positive"@, ""@)),
{
    if amount_le_zero { Err(Rejection::new(400, "Amount must be positive", "")) } else { Ok(()) }
}

/// A reimbursement's parts cannot be negative (`part_negative` is either
/// part compared with `< 0.0`), and their sum must be above zero
/// (`total_le_zero` is the sum compared with `<= 0.0`).
pub fn check_reimbursement_amounts(part_negative: bool, total_le_zero: bool) -> (r: Result<(), Rejection>)
    ensures
        r is Ok <==> (!part_negative && !total_le_zero),
        part_negative ==> refused(r) == Some(rej(400, "Amounts cannot be negative"@, ""@)),
        !part_negative && total_le_zero ==> refused(r) == Some(rej(400, "Amount must be positive"@, ""@)),
{
    if part_negative {
        return Err(Rejection::new(400, "Amounts cannot be negative", ""));
    }
    if total_le_zero {
        return Err(Rejection::new(400, "Amount must be positive", ""));
    }
    Ok(())
}

/// A member pays only a share that is theirs.
pub fn check_share_payer(share_member: Option<&str>, username: &str) -> (r: Result<(), Rejection>)
    ensures
        r is Ok <==> (share_member matches Some(m) && eq_ignore_ascii_case_seq(m@, username@)),
        r is Err ==> refused(r) == Some(rej(403, "This share is not yours to pay"@, ""@)),
{
    match share_member {
        Some(m) => if eq_ignore_ascii_case(m, username) { Ok(()) } else { Err(Rejection::new(403, "This share is not yours to pay", "")) },
        None => Err(Rejection::new(403, "This share is not yours to pay", "")),
    }
}

/// Only the owner records a payment, and only for a name-only share.
pub fn check_manual_payment(share_owner: &str, share_member_is_some: bool, username: &str) -> (r: Result<(), Rejection>)
    ensures
        share_owner@ != username@ ==> refused(r) == Some(rej(403, "Only the owner of the transaction can record payments"@, ""@)),
        share_owner@ == username@ && share_member_is_some ==> refused(r) == Some(rej(400, "This person pays through the app"@, "Registered users send their own payment for you to approve."@)),
        r is Ok <==> (share_owner@ == username@ && !share_member_is_some),
{
    if !str_equal(share_owner, username) {
        return Err(Rejection::new(403, "Only the owner of the transaction can record payments", ""));
    }
    if share_member_is_some {
        return Err(Rejection::new(400, "This person pays through the app", "Registered users send their own payment for you to approve."));
    }
    Ok(())
}

/// `Split bill from <name>` about the spending.
pub fn split_from_text(name: &str, spending: &str) -> (r: String)
    ensures
        r@ == with_note("Split bill from "@ + name@, spending@),
{
    about(concat2("Split bill from ", name), spending)
}

/// `Split bill to <owner>` about the spending.
pub fn split_to_text(owner: &str, spending: &str) -> (r: String)
    ensures
        r@ == with_note("Split bill to "@ + owner@, spending@),
{
    about(concat2("Split bill to ", owner), spending)
}

/// The status of a payment once reviewed or withdrawn.
pub enum Review {
    Approve,
    Reject,
}

/// What a review of a payment does: the owner alone reviews; a refusal is
/// closed at once (the store checks it is still pending); an approval needs
/// the payment to be `pending`.
pub open spec fn review_check_of(owner: Seq<char>, status: Seq<char>, approve: bool, username: Seq<char>) -> Result<Review, RejectionView> {
    if owner != username {
        Err(rej(403, "Only the owner of the transaction can review payments"@, ""@))
    } else if !approve {
        Ok(Review::Reject)
    } else if status != "pending"@ {
        Err(rej(409, "Payment is no longer pending"@, ""@))
    } else {
        Ok(Review::Approve)
    }
}

/// Checks a review of a payment.
pub fn review_check(owner: &str, status: &str, approve: bool, username: &str) -> (r: Result<Review, Rejection>)
    ensures
        match (r, review_check_of(owner@, status@, approve, username@)) {
            (Ok(a), Ok(b)) => a == b,
            (Err(a), Err(b)) => a@ == b,
            _ => false,
        },
{
    if !str_equal(owner, username) {
        return Err(Rejection::new(403, "Only the owner of the transaction can review payments", ""));
    }
    if !approve {
        return Ok(Review::Reject);
    }
    if !str_equal(status, "pending") {
        return Err(Rejection::new(409, "Payment is no longer pending", ""));
    }
    Ok(Review::Approve)
}

/// The answer when the store found the payment no longer pending.
pub fn closed_payment(closed: bool) -> (r: Result<(), Rejection>)
    ensures
        r is Ok <==> closed,
        !closed ==> refused(r) == Some(rej(409, "Payment is no longer pending"@, ""@)),
{
    if closed { Ok(()) } else { Err(Rejection::new(409, "Payment is no longer pending", "")) }
}

/// Only the payer withdraws a payment.
pub fn check_withdrawal(paid_by: Option<&str>, username: &str) -> (r: Result<(), Rejection>)
    ensures
        r is Ok <==> is_members_payment(match paid_by { Some(p) => Some(p@), None => None }, username@),
        r is Err ==> refused(r) == Some(rej(403, "Only the payer can withdraw a payment"@, ""@)),
{
    if paid_by_caller(paid_by, username) { Ok(()) } else { Err(Rejection::new(403, "Only the payer can withdraw a payment", "")) }
}

/// An approval moves money through a personal source, and so needs the
/// Transfer category, when the owner takes it into a source or the payer
/// paid from one.
pub open spec fn approval_needs_category(to_source: bool, from_source: bool) -> bool {
    to_source || from_source
}

/// Whether approving a payment moves money through a personal source: the
/// owner takes it into a source, or the payer paid from one.
pub fn approval_needs_transfer_category(to_source: bool, from_source: bool) -> (r: bool)
    ensures
        r == approval_needs_category(to_source, from_source),
{
    to_source || from_source
}

/// The status a payment is closed with: `rejected` by the owner's review,
/// `cancelled` when its payer withdraws it.
pub open spec fn closing_status_of(withdrawn: bool) -> Seq<char> {
    if withdrawn { "cancelled"@ } else { "rejected"@ }
}

/// The status text a payment is closed with.
pub fn closing_status(withdrawn: bool) -> (r: String)
    ensures
        r@ == closing_status_of(withdrawn),
{
    if withdrawn { to_owned_string("cancelled") } else { to_owned_string("rejected") }
}

/// A payment request on a share is never reviewed by the one who made it:
/// a share is made only for a member who is not the owner, only that member
/// pays it, and only the owner reviews the payment, and an approval is given
/// only while it is pending.
pub proof fn law_payer_never_reviews_own_payment(
    share_member: Seq<char>,
    owner: Seq<char>,
    payer: Seq<char>,
    approver: Seq<char>,
    status: Seq<char>,
    approve: bool,
)
    requires
        !eq_ignore_ascii_case_seq(share_member, owner),
        eq_ignore_ascii_case_seq(share_member, payer),
        review_check_of(owner, status, approve, approver) is Ok,
    ensures
        !eq_ignore_ascii_case_seq(payer, approver),
        approver == owner,
        review_check_of(owner, status, approve, approver) == Ok::<Review, RejectionView>(Review::Approve) ==> status == "pending"@,
{
    if eq_ignore_ascii_case_seq(payer, approver) {
        assert forall|i: int| 0 <= i < share_member.len() implies
            crate::text::ascii_lower(#[trigger] share_member[i]) == crate::text::ascii_lower(owner[i]) by {
            assert(crate::text::ascii_lower(share_member[i]) == crate::text::ascii_lower(payer[i]));
            assert(crate::text::ascii_lower(payer[i]) == crate::text::ascii_lower(approver[i]));
        }
        assert(eq_ignore_ascii_case_seq(share_member, owner));
    }
}

/// The status of a new split payment: a member's payment waits for the
/// owner (`pending`); a payment the owner records for a name counts at once
/// (`approved`).
pub fn new_split_payment_status(by_member: bool) -> (r: String)
    ensures
        by_member ==> r@ == "pending"@,
        !by_member ==> r@ == "approved"@,
{
    if by_member { to_owned_string("pending") } else { to_owned_string("approved") }
}

/// What a reimbursement needs looked up, in this order.
pub enum ReimburseLookup {
    Membership,
    /// A reimbursement already holding the id: its payer.
    Existing,
    /// The group spending to reimburse: its owner and description.
    Spending,
    /// The caller's own source the money leaves.
    PayerSource,
    /// The owner's source the personal part lands in.
    OwnerSource,
    /// The server's Transfer category.
    Category,
}

/// What is known about a reimbursement so far; `None` marks a lookup not
/// made yet.
pub struct ReimburseFacts {
    pub is_member: Option<bool>,
    pub existing_payer: Option<Option<String>>,
    /// The spending's owner and description.
    pub spending: Option<Option<(String, String)>>,
    pub payer_source: Option<Option<String>>,
    pub owner_source: Option<Option<String>>,
    pub category: Option<Option<(u128, String)>>,
}

/// What the request body says of a reimbursement, its amounts already
/// compared: `part_negative` is either part (the group part counting only
/// without `return_balance`) below zero, `total_le_zero` their sum at or
/// below zero, `personal_positive` the personal part above zero.
pub struct ReimburseBody {
    pub part_negative: bool,
    pub total_le_zero: bool,
    pub personal_positive: bool,
    pub return_balance: Option<bool>,
    pub from_group_balance: bool,
    pub from_source_id: Option<u128>,
    pub to_source_id: Option<u128>,
}

/// A reimbursement to be written.
pub struct ReimburseWrite {
    pub owner: String,
    /// The payer's source, or `None` for their group balance.
    pub from_source: Option<(u128, String)>,
    /// The name shown as where the money came from.
    pub from_label: String,
    /// The owner's source for the personal part, if it is paid.
    pub to_source: Option<(u128, String)>,
    pub category: Option<(u128, String)>,
    pub return_balance: bool,
    pub texts: LegTexts,
}

/// What the reimbursement flow does next.
pub enum ReimburseNext {
    Find(ReimburseLookup),
    /// The caller's own earlier reimbursement with this id: answer with it.
    AnswerExisting,
    Refuse(Rejection),
    Write(ReimburseWrite),
}

/// The abstract next step.
pub enum ReimburseDecision {
    Find(ReimburseLookup),
    AnswerExisting,
    Refuse(RejectionView),
    /// Owner, payer's source, its label, owner's source, category, whether
    /// the balance is returned, and the payer's and receiver's texts.
    Write(Seq<char>, Option<(u128, Seq<char>)>, Seq<char>, Option<(u128, Seq<char>)>, Option<(u128, Seq<char>)>,
        bool, Seq<char>, Seq<char>),
}

/// An optional named record by its characters.
pub open spec fn opt_named(x: Option<(u128, String)>) -> Option<(u128, Seq<char>)> {
    match x {
        Some(v) => Some(named_view(v)),
        None => None,
    }
}

/// The abstract view of the next step.
pub open spec fn reimburse_next_view(n: ReimburseNext) -> ReimburseDecision {
    match n {
        ReimburseNext::Find(l) => ReimburseDecision::Find(l),
        ReimburseNext::AnswerExisting => ReimburseDecision::AnswerExisting,
        ReimburseNext::Refuse(e) => ReimburseDecision::Refuse(e@),
        ReimburseNext::Write(w) => ReimburseDecision::Write(w.owner@, opt_named(w.from_source), w.from_label@,
            opt_named(w.to_source), opt_named(w.category), w.return_balance, w.texts.payer@, w.texts.receiver@),
    }
}

/// The spending fact by its characters.
pub open spec fn known_spending(x: Option<Option<(String, String)>>) -> Option<Option<(Seq<char>, Seq<char>)>> {
    match x {
        None => None,
        Some(None) => Some(None),
        Some(Some((o, d))) => Some(Some((o@, d@))),
    }
}

/// The last part of a reimbursement: the Transfer category is needed when a
/// personal source is touched on either side; then it is written.
pub open spec fn reimburse_final(
    owner: Seq<char>,
    description: Seq<char>,
    from: Option<(u128, Seq<char>)>,
    to: Option<(u128, Seq<char>)>,
    category: Option<Option<(u128, Seq<char>)>>,
    return_balance: Option<bool>,
    username: Seq<char>,
) -> ReimburseDecision {
    let label = match from { Some(f) => f.1, None => "Group balance"@ };
    let payer_text = with_note("Reimburse "@ + owner, description);
    let receiver_text = with_note("Reimbursement from "@ + username, description);
    if from is Some || to is Some {
        match category {
            None => ReimburseDecision::Find(ReimburseLookup::Category),
            Some(None) => ReimburseDecision::Refuse(no_transfer_category()),
            Some(Some(c)) => ReimburseDecision::Write(owner, from, label, to, Some(c),
                return_balance == Some(true), payer_text, receiver_text),
        }
    } else {
        ReimburseDecision::Write(owner, from, label, to, None, return_balance == Some(true), payer_text, receiver_text)
    }
}

/// The owner's side of a reimbursement: a personal part needs the owner's
/// named source, found among theirs.
pub open spec fn reimburse_to_part(
    owner: Seq<char>,
    description: Seq<char>,
    from: Option<(u128, Seq<char>)>,
    personal_positive: bool,
    to_source_id: Option<u128>,
    owner_source: Option<Option<Seq<char>>>,
    category: Option<Option<(u128, Seq<char>)>>,
    return_balance: Option<bool>,
    username: Seq<char>,
) -> ReimburseDecision {
    if !personal_positive {
        reimburse_final(owner, description, from, None, category, return_balance, username)
    } else {
        match to_source_id {
            None => ReimburseDecision::Refuse(rej(400, "Choose the owner's source"@, "The personal part needs a to_source_id."@)),
            Some(t) => match owner_source {
                None => ReimburseDecision::Find(ReimburseLookup::OwnerSource),
                Some(None) => ReimburseDecision::Refuse(rej(400, "Source not found"@, "Pick one of "@ + owner + "'s sources."@)),
                Some(Some(n)) => reimburse_final(owner, description, from, Some((t, n)), category, return_balance, username),
            },
        }
    }
}

/// A reimbursement, step by step: members only; no negative part and a
/// positive total; a retried id is answered when the caller paid it and
/// refused otherwise; the spending must be the group's and not the caller's;
/// the money leaves the caller's group balance or a named source of theirs;
/// then the owner's side and the category (`reimburse_to_part`).
pub open spec fn reimburse_decision(
    is_member: Option<bool>,
    existing_payer: Option<Option<Seq<char>>>,
    spending: Option<Option<(Seq<char>, Seq<char>)>>,
    payer_source: Option<Option<Seq<char>>>,
    owner_source: Option<Option<Seq<char>>>,
    category: Option<Option<(u128, Seq<char>)>>,
    body: ReimburseBody,
    username: Seq<char>,
) -> ReimburseDecision {
    match is_member {
        None => ReimburseDecision::Find(ReimburseLookup::Membership),
        Some(false) => ReimburseDecision::Refuse(rej(404, "Group not found"@, ""@)),
        Some(true) => if body.part_negative {
            ReimburseDecision::Refuse(rej(400, "Amounts cannot be negative"@, ""@))
        } else if body.total_le_zero {
            ReimburseDecision::Refuse(rej(400, "Amount must be positive"@, ""@))
        } else {
            match existing_payer {
                None => ReimburseDecision::Find(ReimburseLookup::Existing),
                Some(Some(p)) => if p == username {
                    ReimburseDecision::AnswerExisting
                } else {
                    ReimburseDecision::Refuse(rej(409, "Reimbursement id already used"@, ""@))
                },
                Some(None) => match spending {
                    None => ReimburseDecision::Find(ReimburseLookup::Spending),
                    Some(None) => ReimburseDecision::Refuse(rej(404, "Transaction not found"@, "Only spendings of this group can be reimbursed."@)),
                    Some(Some((owner, description))) => if eq_ignore_ascii_case_seq(owner, username) {
                        ReimburseDecision::Refuse(rej(400, "You cannot reimburse your own transaction"@, "Someone else pays you back."@))
                    } else if body.from_group_balance {
                        reimburse_to_part(owner, description, None, body.personal_positive, body.to_source_id,
                            owner_source, category, body.return_balance, username)
                    } else {
                        match body.from_source_id {
                            None => ReimburseDecision::Refuse(rej(400, "Choose where the money comes from"@, "Send a from_source_id or set from_group_balance."@)),
                            Some(f) => match payer_source {
                                None => ReimburseDecision::Find(ReimburseLookup::PayerSource),
                                Some(None) => ReimburseDecision::Refuse(rej(400, "Source not found"@, "Pay from one of your own sources."@)),
                                Some(Some(n)) => reimburse_to_part(owner, description, Some((f, n)), body.personal_positive,
                                    body.to_source_id, owner_source, category, body.return_balance, username),
                            },
                        }
                    },
                },
            }
        },
    }
}

fn reimburse_finish(
    owner: String,
    description: String,
    from: Option<(u128, String)>,
    to: Option<(u128, String)>,
    category: Option<Option<(u128, String)>>,
    return_balance: Option<bool>,
    username: &str,
) -> (r: ReimburseNext)
    ensures
        reimburse_next_view(r) == reimburse_final(owner@, description@, opt_named(from), opt_named(to),
            known_named(category), return_balance, username@),
{
    let needed = from.is_some() || to.is_some();
    let chosen = if needed {
        let wired = match category {
            None => return ReimburseNext::Find(ReimburseLookup::Category),
            Some(c) => c,
        };
        match settlement_category(true, wired) {
            Err(e) => return ReimburseNext::Refuse(e),
            Ok(c) => c,
        }
    } else {
        None
    };
    let label = match &from {
        Some(f) => source_label(Some(f.1.clone())),
        None => source_label(None),
    };
    let texts = reimbursement_texts(owner.as_str(), username, description.as_str());
    let (rb, _) = reimbursement_mode(return_balance);
    ReimburseNext::Write(ReimburseWrite {
        owner,
        from_source: from,
        from_label: label,
        to_source: to,
        category: chosen,
        return_balance: rb,
        texts,
    })
}

/// The next step of a reimbursement by the caller `username`.
pub fn reimbursement_next(facts: ReimburseFacts, body: &ReimburseBody, username: &str) -> (r: ReimburseNext)
    ensures
        reimburse_next_view(r) == reimburse_decision(facts.is_member, known_text(facts.existing_payer),
            known_spending(facts.spending), known_text(facts.payer_source), known_text(facts.owner_source),
            known_named(facts.category), *body, username@),
{
    let ReimburseFacts { is_member, existing_payer, spending, payer_source, owner_source, category } = facts;
    let member = match is_member {
        None => return ReimburseNext::Find(ReimburseLookup::Membership),
        Some(m) => m,
    };
    if let Err(e) = crate::group_plan::require_membership(member) {
        return ReimburseNext::Refuse(e);
    }
    if let Err(e) = check_reimbursement_amounts(body.part_negative, body.total_le_zero) {
        return ReimburseNext::Refuse(e);
    }
    let existing = match existing_payer {
        None => return ReimburseNext::Find(ReimburseLookup::Existing),
        Some(e) => e,
    };
    let replay = match &existing {
        Some(p) => reimbursement_replay(Some(p.as_str()), username),
        None => reimbursement_replay(None, username),
    };
    match replay {
        Err(e) => return ReimburseNext::Refuse(e),
        Ok(true) => return ReimburseNext::AnswerExisting,
        Ok(false) => {},
    }
    let found = match spending {
        None => return ReimburseNext::Find(ReimburseLookup::Spending),
        Some(f) => f,
    };
    let (found_owner, description) = match found {
        Some((o, d)) => (Some(o), d),
        None => (None, String::new()),
    };
    let owner = match reimbursable_owner(found_owner, username) {
        Err(e) => return ReimburseNext::Refuse(e),
        Ok(o) => o,
    };
    let from = match payer_side(body.from_group_balance, body.from_source_id) {
        Err(e) => return ReimburseNext::Refuse(e),
        Ok(Side::GroupBalance) => None,
        Ok(Side::Source(f)) => {
            let from_found = match payer_source {
                None => return ReimburseNext::Find(ReimburseLookup::PayerSource),
                Some(x) => x,
            };
            match owned_source(from_found, "Pay from one of your own sources.") {
                Err(e) => return ReimburseNext::Refuse(e),
                Ok(n) => Some((f, n)),
            }
        },
    };
    let to = match reimbursement_destination(body.personal_positive, body.to_source_id) {
        Err(e) => return ReimburseNext::Refuse(e),
        Ok(None) => None,
        Ok(Some(t)) => {
            let to_found = match owner_source {
                None => return ReimburseNext::Find(ReimburseLookup::OwnerSource),
                Some(x) => x,
            };
            let hint = owner_sources_hint(owner.as_str());
            match owned_source(to_found, hint.as_str()) {
                Err(e) => return ReimburseNext::Refuse(e),
                Ok(n) => Some((t, n)),
            }
        },
    };
    reimburse_finish(owner, description, from, to, category, body.return_balance, username)
}

/// What a new share of a spending needs looked up, in this order.
pub enum ShareLookup {
    Membership,
    /// A share already holding the id: its owner.
    Existing,
    /// The caller's own share with the id, read back.
    Share,
    /// The group spending split: its owner.
    Spending,
}

/// What the request body says of a new share; `amount_le_zero` is the
/// amount compared with `<= 0.0`.
pub struct ShareBody {
    pub amount_le_zero: bool,
    pub username: Option<String>,
    pub name: Option<String>,
}

/// What the new-share flow does next.
pub enum ShareNext {
    Find(ShareLookup),
    /// Look the registered user up among the group's members, by this name.
    FindMember(String),
    /// The caller's own share with this id: answer with it as stored now.
    AnswerExisting,
    Refuse(Rejection),
    /// Write the share for a member (their name as stored) or for a name.
    Write(Option<String>, String),
}

/// The abstract next step.
pub enum ShareDecision {
    Find(ShareLookup),
    FindMember(Seq<char>),
    AnswerExisting,
    Refuse(RejectionView),
    Write(Option<Seq<char>>, Seq<char>),
}

/// The abstract view of the next step.
pub open spec fn share_next_view(n: ShareNext) -> ShareDecision {
    match n {
        ShareNext::Find(l) => ShareDecision::Find(l),
        ShareNext::FindMember(m) => ShareDecision::FindMember(m@),
        ShareNext::AnswerExisting => ShareDecision::AnswerExisting,
        ShareNext::Refuse(e) => ShareDecision::Refuse(e@),
        ShareNext::Write(m, n) => ShareDecision::Write(match m { Some(x) => Some(x@), None => None }, n@),
    }
}

/// A new share, step by step: members only; the amount must be positive; a
/// retried id is answered with the caller's share as stored now (refused if
/// it was removed meanwhile) and refused when someone else's; the spending
/// must be the group's and recorded by the caller; then who the share is for
/// (`share_party_of`): a registered user must be another member of the
/// group, a name is taken as it is.
pub open spec fn share_decision(
    is_member: Option<bool>,
    existing_owner: Option<Option<Seq<char>>>,
    reread: Option<bool>,
    spending_owner: Option<Option<Seq<char>>>,
    member: Option<Option<Seq<char>>>,
    amount_le_zero: bool,
    username_sent: Option<Seq<char>>,
    name_sent: Option<Seq<char>>,
    username: Seq<char>,
) -> ShareDecision {
    match is_member {
        None => ShareDecision::Find(ShareLookup::Membership),
        Some(false) => ShareDecision::Refuse(rej(404, "Group not found"@, ""@)),
        Some(true) => if amount_le_zero {
            ShareDecision::Refuse(rej(400, "Amount must be positive"@, ""@))
        } else {
            match existing_owner {
                None => ShareDecision::Find(ShareLookup::Existing),
                Some(Some(o)) => if o == username {
                    match reread {
                        None => ShareDecision::Find(ShareLookup::Share),
                        Some(true) => ShareDecision::AnswerExisting,
                        Some(false) => ShareDecision::Refuse(rej(409, "Share was removed"@, ""@)),
                    }
                } else {
                    ShareDecision::Refuse(rej(409, "Share id already used"@, ""@))
                },
                Some(None) => match spending_owner {
                    None => ShareDecision::Find(ShareLookup::Spending),
                    Some(None) => ShareDecision::Refuse(rej(404, "Transaction not found"@, "Only spendings of this group can be split."@)),
                    Some(Some(o)) => if o != username {
                        ShareDecision::Refuse(rej(403, "Only the person who recorded this transaction can split it"@, ""@))
                    } else {
                        match share_party_of(username_sent, name_sent) {
                            Err(v) => ShareDecision::Refuse(v),
                            Ok((false, n)) => ShareDecision::Write(None, n),
                            Ok((true, wanted)) => match member {
                                None => ShareDecision::FindMember(wanted),
                                Some(None) => ShareDecision::Refuse(rej(404, "Member not found"@,
                                    "Registered users must be members of this group. Use a name instead."@)),
                                Some(Some(m)) => if eq_ignore_ascii_case_seq(m, username) {
                                    ShareDecision::Refuse(rej(400, "Choose someone else"@, "You already paid your part."@))
                                } else {
                                    ShareDecision::Write(Some(m), m)
                                },
                            },
                        }
                    },
                },
            }
        },
    }
}

/// The next step of a new share by the caller `username`; `member` is the
/// lookup of the registered user the request names, once made.
pub fn split_share_next(
    is_member: Option<bool>,
    existing_owner: Option<Option<String>>,
    reread: Option<bool>,
    spending_owner: Option<Option<String>>,
    member: Option<Option<String>>,
    body: &ShareBody,
    username: &str,
) -> (r: ShareNext)
    ensures
        share_next_view(r) == share_decision(is_member, known_text(existing_owner), reread, known_text(spending_owner),
            known_text(member), body.amount_le_zero, opt_text(body.username), opt_text(body.name), username@),
{
    let is_in = match is_member {
        None => return ShareNext::Find(ShareLookup::Membership),
        Some(m) => m,
    };
    if let Err(e) = crate::group_plan::require_membership(is_in) {
        return ShareNext::Refuse(e);
    }
    if let Err(e) = check_settlement_amount(body.amount_le_zero) {
        return ShareNext::Refuse(e);
    }
    let existing = match existing_owner {
        None => return ShareNext::Find(ShareLookup::Existing),
        Some(e) => e,
    };
    let replay = match &existing {
        Some(o) => share_replay(Some(o.as_str()), username),
        None => share_replay(None, username),
    };
    match replay {
        Err(e) => return ShareNext::Refuse(e),
        Ok(ShareReplay::Reread) => {
            return match reread {
                None => ShareNext::Find(ShareLookup::Share),
                Some(found) => {
                    let back = if found { Some(()) } else { None };
                    match reread_share(back) {
                        Err(e) => ShareNext::Refuse(e),
                        Ok(()) => ShareNext::AnswerExisting,
                    }
                },
            };
        },
        Ok(ShareReplay::Fresh) => {},
    }
    let owner_found = match spending_owner {
        None => return ShareNext::Find(ShareLookup::Spending),
        Some(o) => o,
    };
    let split = match &owner_found {
        Some(o) => splittable(Some(o.as_str()), username),
        None => splittable(None, username),
    };
    if let Err(e) = split {
        return ShareNext::Refuse(e);
    }
    let party = match (&body.username, &body.name) {
        (Some(u), Some(n)) => share_party(Some(u.as_str()), Some(n.as_str())),
        (Some(u), None) => share_party(Some(u.as_str()), None),
        (None, Some(n)) => share_party(None, Some(n.as_str())),
        (None, None) => share_party(None, None),
    };
    match party {
        Err(e) => ShareNext::Refuse(e),
        Ok(ShareParty::Name(n)) => ShareNext::Write(None, n),
        Ok(ShareParty::Member(wanted)) => {
            let found = match member {
                None => return ShareNext::FindMember(wanted),
                Some(f) => f,
            };
            match share_member(found, username) {
                Err(e) => ShareNext::Refuse(e),
                Ok(m) => {
                    let name = m.clone();
                    ShareNext::Write(Some(m), name)
                },
            }
        },
    }
}

/// A reimbursement is written only by a member, with sound amounts and a
/// new id, for a spending of the group that someone else recorded; and it
/// is filed under the Transfer category exactly when money moves through a
/// personal source on either side. It goes to the spending's owner, from the
/// caller's group balance or the named source of theirs, to the owner's
/// named source for a personal part, and it returns the amount to the
/// owner's group balance exactly when the body asks for that.
pub proof fn law_reimbursement_written_only_when_checked(
    is_member: Option<bool>,
    existing_payer: Option<Option<Seq<char>>>,
    spending: Option<Option<(Seq<char>, Seq<char>)>>,
    payer_source: Option<Option<Seq<char>>>,
    owner_source: Option<Option<Seq<char>>>,
    category: Option<Option<(u128, Seq<char>)>>,
    body: ReimburseBody,
    username: Seq<char>,
)
    requires
        reimburse_decision(is_member, existing_payer, spending, payer_source, owner_source, category, body, username) is Write,
    ensures
        is_member == Some(true),
        !body.part_negative && !body.total_le_zero,
        existing_payer == Some(None::<Seq<char>>),
        spending matches Some(Some((owner, _))) && !eq_ignore_ascii_case_seq(owner, username),
        (reimburse_decision(is_member, existing_payer, spending, payer_source, owner_source, category, body, username)->Write_1 is Some
            || reimburse_decision(is_member, existing_payer, spending, payer_source, owner_source, category, body, username)->Write_3 is Some)
            <==> reimburse_decision(is_member, existing_payer, spending, payer_source, owner_source, category, body, username)->Write_4 is Some,
        body.personal_positive <==> reimburse_decision(is_member, existing_payer, spending, payer_source, owner_source, category, body, username)->Write_3 is Some,
        (match spending {
            Some(Some((owner, description))) => {
            let d = reimburse_decision(is_member, existing_payer, spending, payer_source, owner_source, category, body, username);
            &&& d->Write_0 == owner
            &&& d->Write_5 <==> body.return_balance == Some(true)
            &&& body.from_group_balance ==> d->Write_1 is None && d->Write_2 == "Group balance"@
            &&& !body.from_group_balance ==> (payer_source matches Some(Some(n))
                && d->Write_1 == Some((body.from_source_id->0, n)) && d->Write_2 == n)
            &&& body.personal_positive ==> (owner_source matches Some(Some(n))
                && d->Write_3 == Some((body.to_source_id->0, n)))
            &&& d->Write_4 matches Some(c) ==> category == Some(Some(c))
            &&& d->Write_6 == with_note("Reimburse "@ + owner, description)
            &&& d->Write_7 == with_note("Reimbursement from "@ + username, description)
            },
            _ => false,
        }),
{
}

/// A share for a registered user is never the caller's own: it is written
/// only by the member who recorded the spending, and a registered share
/// goes to another member of the group. A share is for the registered user
/// named when a username is sent, as found among the members, else for the
/// trimmed name sent.
pub proof fn law_shares_go_to_someone_else(
    is_member: Option<bool>,
    existing_owner: Option<Option<Seq<char>>>,
    reread: Option<bool>,
    spending_owner: Option<Option<Seq<char>>>,
    member: Option<Option<Seq<char>>>,
    amount_le_zero: bool,
    username_sent: Option<Seq<char>>,
    name_sent: Option<Seq<char>>,
    username: Seq<char>,
)
    requires
        share_decision(is_member, existing_owner, reread, spending_owner, member, amount_le_zero, username_sent,
            name_sent, username) is Write,
    ensures
        is_member == Some(true),
        !amount_le_zero,
        spending_owner == Some(Some(username)),
        share_decision(is_member, existing_owner, reread, spending_owner, member, amount_le_zero, username_sent,
            name_sent, username)->Write_0 matches Some(m) ==> !eq_ignore_ascii_case_seq(m, username),
        ({
            let d = share_decision(is_member, existing_owner, reread, spending_owner, member, amount_le_zero,
                username_sent, name_sent, username);
            &&& d->Write_0 matches Some(m) ==> (member == Some(Some(m)) && d->Write_1 == m
                && username_sent is Some && trim_seq(username_sent->0).len() > 0)
            &&& d->Write_0 is None ==> ((username_sent is None || trim_seq(username_sent->0).len() == 0)
                && name_sent is Some && d->Write_1 == trim_seq(name_sent->0) && 0 < d->Write_1.len() <= 255)
        }),
{
}

/// What a payment of a share, or its review, needs looked up.
pub enum SplitPayLookup {
    Membership,
    /// A payment already holding the id, and whether it is the caller's in
    /// the sense of the flow.
    Existing,
    /// The share paid, by id.
    Share,
    /// The payment reviewed or withdrawn, by id.
    Payment,
    /// The payer's own source the money leaves.
    PayerSource,
    /// The owner's own source the money lands in.
    OwnerSource,
    /// The server's Transfer category.
    Category,
    /// The settled spending's description (empty when it cannot be read).
    Description,
}

/// A share as far as paying it goes.
pub struct ShareInfo {
    pub group_id: u128,
    pub owner: String,
    /// The registered member it is for, if any.
    pub member: Option<String>,
    pub name: String,
}

/// A payment as far as reviewing or withdrawing it goes.
pub struct PaymentInfo {
    pub group_id: u128,
    pub owner: String,
    pub paid_by: Option<String>,
    pub payer_name: String,
    pub status: String,
    pub from_source_id: Option<u128>,
}

/// How a payment is written, or how it moves money when approved.
pub struct SettlePlan {
    /// The payer's source; `None` for their group balance or a name.
    pub from_source: Option<(u128, String)>,
    /// The owner's source; `None` for their group balance.
    pub to_source: Option<(u128, String)>,
    /// The name shown for the side the flow chose.
    pub label: String,
    pub category: Option<(u128, String)>,
    pub texts: LegTexts,
    pub status: String,
}

/// What a share-payment flow does next.
pub enum SplitPayNext {
    Find(SplitPayLookup),
    /// The caller's own earlier payment with this id: answer with it.
    AnswerExisting,
    Refuse(Rejection),
    /// Close the pending payment with this status.
    Close(String),
    Write(SettlePlan),
}

/// The abstract next step.
pub enum SplitPayDecision {
    Find(SplitPayLookup),
    AnswerExisting,
    Refuse(RejectionView),
    Close(Seq<char>),
    /// Payer's source, owner's source, label, category, payer's and
    /// receiver's texts, status.
    Write(Option<(u128, Seq<char>)>, Option<(u128, Seq<char>)>, Seq<char>, Option<(u128, Seq<char>)>,
        Seq<char>, Seq<char>, Seq<char>),
}

/// The abstract view of the next step.
pub open spec fn split_pay_view(n: SplitPayNext) -> SplitPayDecision {
    match n {
        SplitPayNext::Find(l) => SplitPayDecision::Find(l),
        SplitPayNext::AnswerExisting => SplitPayDecision::AnswerExisting,
        SplitPayNext::Refuse(e) => SplitPayDecision::Refuse(e@),
        SplitPayNext::Close(st) => SplitPayDecision::Close(st@),
        SplitPayNext::Write(p) => SplitPayDecision::Write(opt_named(p.from_source), opt_named(p.to_source), p.label@,
            opt_named(p.category), p.texts.payer@, p.texts.receiver@, p.status@),
    }
}

/// The share fact by its characters.
pub open spec fn known_share(x: Option<Option<ShareInfo>>) -> Option<Option<(u128, Seq<char>, Option<Seq<char>>, Seq<char>)>> {
    match x {
        None => None,
        Some(None) => Some(None),
        Some(Some(i)) => Some(Some((i.group_id, i.owner@, opt_text(i.member), i.name@))),
    }
}

/// A member pays their share, step by step: members only; a positive
/// amount; a retried id is answered when it is the caller's payment and
/// refused otherwise; the share must be the group's and the caller's; the
/// money leaves the caller's group balance or a source of theirs. The
/// payment then waits for the owner (`pending`).
pub open spec fn split_payment_decision(
    is_member: Option<bool>,
    existing: Option<Option<bool>>,
    share: Option<Option<(u128, Seq<char>, Option<Seq<char>>, Seq<char>)>>,
    payer_source: Option<Option<Seq<char>>>,
    amount_le_zero: bool,
    from_group_balance: bool,
    from_source_id: Option<u128>,
    group_id: u128,
    username: Seq<char>,
) -> SplitPayDecision {
    match is_member {
        None => SplitPayDecision::Find(SplitPayLookup::Membership),
        Some(false) => SplitPayDecision::Refuse(rej(404, "Group not found"@, ""@)),
        Some(true) => if amount_le_zero {
            SplitPayDecision::Refuse(rej(400, "Amount must be positive"@, ""@))
        } else {
            match existing {
                None => SplitPayDecision::Find(SplitPayLookup::Existing),
                Some(Some(true)) => SplitPayDecision::AnswerExisting,
                Some(Some(false)) => SplitPayDecision::Refuse(rej(409, "Payment id already used"@, ""@)),
                Some(None) => match share {
                    None => SplitPayDecision::Find(SplitPayLookup::Share),
                    Some(None) => SplitPayDecision::Refuse(rej(404, "Share not found"@, ""@)),
                    Some(Some((g, _owner, member, _name))) => if g != group_id {
                        SplitPayDecision::Refuse(rej(404, "Share not found"@, ""@))
                    } else if !(member matches Some(m) && eq_ignore_ascii_case_seq(m, username)) {
                        SplitPayDecision::Refuse(rej(403, "This share is not yours to pay"@, ""@))
                    } else if from_group_balance {
                        SplitPayDecision::Write(None, None, "Group balance"@, None, ""@, ""@, "pending"@)
                    } else {
                        match from_source_id {
                            None => SplitPayDecision::Refuse(rej(400, "Choose where the money comes from"@, "Send a from_source_id or set from_group_balance."@)),
                            Some(f) => match payer_source {
                                None => SplitPayDecision::Find(SplitPayLookup::PayerSource),
                                Some(None) => SplitPayDecision::Refuse(rej(400, "Source not found"@, "Pay from one of your own sources."@)),
                                Some(Some(n)) => SplitPayDecision::Write(Some((f, n)), None, n, None, ""@, ""@, "pending"@),
                            },
                        }
                    },
                },
            }
        },
    }
}

fn empty_texts() -> (r: LegTexts)
    ensures
        r.payer@ == ""@,
        r.receiver@ == ""@,
{
    proof {
        reveal_strlit("");
    }
    LegTexts { payer: String::new(), receiver: String::new() }
}

/// The next step of a member's payment of a share in `group_id`;
/// `existing` tells, for a payment already holding the id, whether the
/// caller made it (`paid_by_caller`).
pub fn split_payment_next(
    is_member: Option<bool>,
    existing: Option<Option<bool>>,
    share: Option<Option<ShareInfo>>,
    payer_source: Option<Option<String>>,
    amount_le_zero: bool,
    from_group_balance: bool,
    from_source_id: Option<u128>,
    group_id: u128,
    username: &str,
) -> (r: SplitPayNext)
    ensures
        split_pay_view(r) == split_payment_decision(is_member, existing, known_share(share), known_text(payer_source),
            amount_le_zero, from_group_balance, from_source_id, group_id, username@),
{
    let m = match is_member {
        None => return SplitPayNext::Find(SplitPayLookup::Membership),
        Some(m) => m,
    };
    if let Err(e) = crate::group_plan::require_membership(m) {
        return SplitPayNext::Refuse(e);
    }
    if let Err(e) = check_settlement_amount(amount_le_zero) {
        return SplitPayNext::Refuse(e);
    }
    let prior = match existing {
        None => return SplitPayNext::Find(SplitPayLookup::Existing),
        Some(p) => p,
    };
    match payment_replay(prior) {
        Err(e) => return SplitPayNext::Refuse(e),
        Ok(true) => return SplitPayNext::AnswerExisting,
        Ok(false) => {},
    }
    let found = match share {
        None => return SplitPayNext::Find(SplitPayLookup::Share),
        Some(f) => f,
    };
    let info = match found_in_group(match found { Some(i) => { let g = i.group_id; Some((i, g)) }, None => None }, group_id, "Share not found") {
        Err(e) => return SplitPayNext::Refuse(e),
        Ok(i) => i,
    };
    let mine = match &info.member {
        Some(x) => check_share_payer(Some(x.as_str()), username),
        None => check_share_payer(None, username),
    };
    if let Err(e) = mine {
        return SplitPayNext::Refuse(e);
    }
    let from = match payer_side(from_group_balance, from_source_id) {
        Err(e) => return SplitPayNext::Refuse(e),
        Ok(Side::GroupBalance) => None,
        Ok(Side::Source(f)) => {
            let from_found = match payer_source {
                None => return SplitPayNext::Find(SplitPayLookup::PayerSource),
                Some(x) => x,
            };
            match owned_source(from_found, "Pay from one of your own sources.") {
                Err(e) => return SplitPayNext::Refuse(e),
                Ok(n) => Some((f, n)),
            }
        },
    };
    let label = match &from {
        Some(f) => source_label(Some(f.1.clone())),
        None => source_label(None),
    };
    SplitPayNext::Write(SettlePlan {
        from_source: from,
        to_source: None,
        label,
        category: None,
        texts: empty_texts(),
        status: new_split_payment_status(true),
    })
}

/// The owner's side of a settlement and its category: the money lands in
/// the owner's group balance or a source of theirs (refused with
/// `not_found` when not theirs); the Transfer category is needed when it
/// lands in a source or `from_source` says it left one; then the spending's
/// description is read for the texts.
pub open spec fn owner_side_part(
    to_group_balance: bool,
    to_source_id: Option<u128>,
    owner_source: Option<Option<Seq<char>>>,
    from_source: bool,
    category: Option<Option<(u128, Seq<char>)>>,
    description: Option<Seq<char>>,
) -> Result<(Option<(u128, Seq<char>)>, Option<(u128, Seq<char>)>, Seq<char>), SplitPayDecision> {
    let to: Result<Option<(u128, Seq<char>)>, SplitPayDecision> = if to_group_balance {
        Ok(None)
    } else {
        match to_source_id {
            None => Err(SplitPayDecision::Refuse(rej(400, "Choose where the money goes"@, "Send a to_source_id or set to_group_balance."@))),
            Some(t) => match owner_source {
                None => Err(SplitPayDecision::Find(SplitPayLookup::OwnerSource)),
                Some(None) => Err(SplitPayDecision::Refuse(rej(400, "Source not found"@, "Pick one of your own sources."@))),
                Some(Some(n)) => Ok(Some((t, n))),
            },
        }
    };
    match to {
        Err(d) => Err(d),
        Ok(to) => match category {
            None => Err(SplitPayDecision::Find(SplitPayLookup::Category)),
            Some(c) => if (to is Some || from_source) && c is None {
                Err(SplitPayDecision::Refuse(no_transfer_category()))
            } else {
                match description {
                    None => Err(SplitPayDecision::Find(SplitPayLookup::Description)),
                    Some(d) => Ok((to, c, d)),
                }
            },
        },
    }
}

/// The owner records a payment from a name, step by step: members only; a
/// positive amount; a retried id is answered when the caller recorded it and
/// refused otherwise; the share must be the group's, the caller's spending,
/// and for a name only; then the owner's side (`owner_side_part`). It counts
/// at once (`approved`).
pub open spec fn manual_payment_decision(
    is_member: Option<bool>,
    existing: Option<Option<bool>>,
    share: Option<Option<(u128, Seq<char>, Option<Seq<char>>, Seq<char>)>>,
    owner_source: Option<Option<Seq<char>>>,
    category: Option<Option<(u128, Seq<char>)>>,
    description: Option<Seq<char>>,
    amount_le_zero: bool,
    to_group_balance: bool,
    to_source_id: Option<u128>,
    group_id: u128,
    username: Seq<char>,
) -> SplitPayDecision {
    match is_member {
        None => SplitPayDecision::Find(SplitPayLookup::Membership),
        Some(false) => SplitPayDecision::Refuse(rej(404, "Group not found"@, ""@)),
        Some(true) => if amount_le_zero {
            SplitPayDecision::Refuse(rej(400, "Amount must be positive"@, ""@))
        } else {
            match existing {
                None => SplitPayDecision::Find(SplitPayLookup::Existing),
                Some(Some(true)) => SplitPayDecision::AnswerExisting,
                Some(Some(false)) => SplitPayDecision::Refuse(rej(409, "Payment id already used"@, ""@)),
                Some(None) => match share {
                    None => SplitPayDecision::Find(SplitPayLookup::Share),
                    Some(None) => SplitPayDecision::Refuse(rej(404, "Share not found"@, ""@)),
                    Some(Some((g, owner, member, name))) => if g != group_id {
                        SplitPayDecision::Refuse(rej(404, "Share not found"@, ""@))
                    } else if owner != username {
                        SplitPayDecision::Refuse(rej(403, "Only the owner of the transaction can record payments"@, ""@))
                    } else if member is Some {
                        SplitPayDecision::Refuse(rej(400, "This person pays through the app"@, "Registered users send their own payment for you to approve."@))
                    } else {
                        match owner_side_part(to_group_balance, to_source_id, owner_source, false, category, description) {
                            Err(d) => d,
                            Ok((to, c, d)) => SplitPayDecision::Write(None, to,
                                match to { Some(t) => t.1, None => "Group balance"@ }, c,
                                ""@, with_note("Split bill from "@ + name, d), "approved"@),
                        }
                    },
                },
            }
        },
    }
}

/// The owner's side, the category and the description, or the step that
/// decides instead.
fn owner_side_next(
    to_group_balance: bool,
    to_source_id: Option<u128>,
    owner_source: Option<Option<String>>,
    from_source: bool,
    category: Option<Option<(u128, String)>>,
    description: Option<String>,
) -> (r: Result<(Option<(u128, String)>, Option<(u128, String)>, String), SplitPayNext>)
    ensures
        match (r, owner_side_part(to_group_balance, to_source_id, known_text(owner_source), from_source,
            known_named(category), opt_text(description))) {
            (Ok((to, c, d)), Ok((vt, vc, vd))) => opt_named(to) == vt && opt_named(c) == vc && d@ == vd,
            (Err(n), Err(v)) => split_pay_view(n) == v,
            _ => false,
        },
{
    let to = match owner_side(to_group_balance, to_source_id) {
        Err(e) => return Err(SplitPayNext::Refuse(e)),
        Ok(Side::GroupBalance) => None,
        Ok(Side::Source(t)) => {
            let found = match owner_source {
                None => return Err(SplitPayNext::Find(SplitPayLookup::OwnerSource)),
                Some(x) => x,
            };
            match owned_source(found, "Pick one of your own sources.") {
                Err(e) => return Err(SplitPayNext::Refuse(e)),
                Ok(n) => Some((t, n)),
            }
        },
    };
    let wired = match category {
        None => return Err(SplitPayNext::Find(SplitPayLookup::Category)),
        Some(c) => c,
    };
    let needed = approval_needs_transfer_category(to.is_some(), from_source);
    let chosen = match settlement_category(needed, wired) {
        Err(e) => return Err(SplitPayNext::Refuse(e)),
        Ok(c) => c,
    };
    match description {
        None => Err(SplitPayNext::Find(SplitPayLookup::Description)),
        Some(d) => Ok((to, chosen, d)),
    }
}

/// The next step of the owner recording a payment from a name; `existing`
/// tells, for a payment already holding the id, whether the caller recorded
/// it (`recorded_by_caller`).
pub fn manual_payment_next(
    is_member: Option<bool>,
    existing: Option<Option<bool>>,
    share: Option<Option<ShareInfo>>,
    owner_source: Option<Option<String>>,
    category: Option<Option<(u128, String)>>,
    description: Option<String>,
    amount_le_zero: bool,
    to_group_balance: bool,
    to_source_id: Option<u128>,
    group_id: u128,
    username: &str,
) -> (r: SplitPayNext)
    ensures
        split_pay_view(r) == manual_payment_decision(is_member, existing, known_share(share), known_text(owner_source),
            known_named(category), opt_text(description), amount_le_zero, to_group_balance, to_source_id, group_id, username@),
{
    let m = match is_member {
        None => return SplitPayNext::Find(SplitPayLookup::Membership),
        Some(m) => m,
    };
    if let Err(e) = crate::group_plan::require_membership(m) {
        return SplitPayNext::Refuse(e);
    }
    if let Err(e) = check_settlement_amount(amount_le_zero) {
        return SplitPayNext::Refuse(e);
    }
    let prior = match existing {
        None => return SplitPayNext::Find(SplitPayLookup::Existing),
        Some(p) => p,
    };
    match payment_replay(prior) {
        Err(e) => return SplitPayNext::Refuse(e),
        Ok(true) => return SplitPayNext::AnswerExisting,
        Ok(false) => {},
    }
    let found = match share {
        None => return SplitPayNext::Find(SplitPayLookup::Share),
        Some(f) => f,
    };
    let info = match found_in_group(match found { Some(i) => { let g = i.group_id; Some((i, g)) }, None => None }, group_id, "Share not found") {
        Err(e) => return SplitPayNext::Refuse(e),
        Ok(i) => i,
    };
    if let Err(e) = check_manual_payment(info.owner.as_str(), info.member.is_some(), username) {
        return SplitPayNext::Refuse(e);
    }
    let (to, chosen, d) = match owner_side_next(to_group_balance, to_source_id, owner_source, false, category, description) {
        Err(n) => return n,
        Ok(x) => x,
    };
    let label = match &to {
        Some(t) => source_label(Some(t.1.clone())),
        None => source_label(None),
    };
    SplitPayNext::Write(SettlePlan {
        from_source: None,
        to_source: to,
        label,
        category: chosen,
        texts: LegTexts { payer: empty_texts().payer, receiver: split_from_text(info.name.as_str(), d.as_str()) },
        status: new_split_payment_status(false),
    })
}

/// The payment fact by its characters.
pub open spec fn known_payment(x: Option<Option<PaymentInfo>>) -> Option<Option<(u128, Seq<char>, Option<Seq<char>>, Seq<char>, Seq<char>, bool)>> {
    match x {
        None => None,
        Some(None) => Some(None),
        Some(Some(i)) => Some(Some((i.group_id, i.owner@, opt_text(i.paid_by), i.payer_name@, i.status@, i.from_source_id is Some))),
    }
}

/// The owner reviews a payment, step by step: members only; the payment
/// must be the group's and the caller's to review; a refusal closes it as
/// `rejected`; an approval needs it `pending`, then the owner's side
/// (`owner_side_part`, the category also needed when the payer paid from a
/// source), and the money moves with `Split bill to/from` texts.
pub open spec fn review_decision(
    is_member: Option<bool>,
    payment: Option<Option<(u128, Seq<char>, Option<Seq<char>>, Seq<char>, Seq<char>, bool)>>,
    owner_source: Option<Option<Seq<char>>>,
    category: Option<Option<(u128, Seq<char>)>>,
    description: Option<Seq<char>>,
    approve: bool,
    to_group_balance: bool,
    to_source_id: Option<u128>,
    group_id: u128,
    username: Seq<char>,
) -> SplitPayDecision {
    match is_member {
        None => SplitPayDecision::Find(SplitPayLookup::Membership),
        Some(false) => SplitPayDecision::Refuse(rej(404, "Group not found"@, ""@)),
        Some(true) => match payment {
            None => SplitPayDecision::Find(SplitPayLookup::Payment),
            Some(None) => SplitPayDecision::Refuse(rej(404, "Payment not found"@, ""@)),
            Some(Some((g, owner, _paid_by, payer_name, status, from_source))) => if g != group_id {
                SplitPayDecision::Refuse(rej(404, "Payment not found"@, ""@))
            } else {
                match review_check_of(owner, status, approve, username) {
                    Err(v) => SplitPayDecision::Refuse(v),
                    Ok(Review::Reject) => SplitPayDecision::Close("rejected"@),
                    Ok(Review::Approve) => match owner_side_part(to_group_balance, to_source_id, owner_source, from_source, category, description) {
                        Err(d) => d,
                        Ok((to, c, d)) => SplitPayDecision::Write(None, to,
                            match to { Some(t) => t.1, None => "Group balance"@ }, c,
                            with_note("Split bill to "@ + owner, d), with_note("Split bill from "@ + payer_name, d), "approved"@),
                    },
                }
            },
        },
    }
}

/// The next step of the owner's review of a payment.
pub fn payment_review_next(
    is_member: Option<bool>,
    payment: Option<Option<PaymentInfo>>,
    owner_source: Option<Option<String>>,
    category: Option<Option<(u128, String)>>,
    description: Option<String>,
    approve: bool,
    to_group_balance: bool,
    to_source_id: Option<u128>,
    group_id: u128,
    username: &str,
) -> (r: SplitPayNext)
    ensures
        split_pay_view(r) == review_decision(is_member, known_payment(payment), known_text(owner_source),
            known_named(category), opt_text(description), approve, to_group_balance, to_source_id, group_id, username@),
{
    let m = match is_member {
        None => return SplitPayNext::Find(SplitPayLookup::Membership),
        Some(m) => m,
    };
    if let Err(e) = crate::group_plan::require_membership(m) {
        return SplitPayNext::Refuse(e);
    }
    let found = match payment {
        None => return SplitPayNext::Find(SplitPayLookup::Payment),
        Some(f) => f,
    };
    let info = match found_in_group(match found { Some(i) => { let g = i.group_id; Some((i, g)) }, None => None }, group_id, "Payment not found") {
        Err(e) => return SplitPayNext::Refuse(e),
        Ok(i) => i,
    };
    match review_check(info.owner.as_str(), info.status.as_str(), approve, username) {
        Err(e) => return SplitPayNext::Refuse(e),
        Ok(Review::Reject) => return SplitPayNext::Close(closing_status(false)),
        Ok(Review::Approve) => {},
    }
    let (to, chosen, d) = match owner_side_next(to_group_balance, to_source_id, owner_source, info.from_source_id.is_some(), category, description) {
        Err(n) => return n,
        Ok(x) => x,
    };
    let label = match &to {
        Some(t) => source_label(Some(t.1.clone())),
        None => source_label(None),
    };
    SplitPayNext::Write(SettlePlan {
        from_source: None,
        to_source: to,
        label,
        category: chosen,
        texts: LegTexts {
            payer: split_to_text(info.owner.as_str(), d.as_str()),
            receiver: split_from_text(info.payer_name.as_str(), d.as_str()),
        },
        status: to_owned_string("approved"),
    })
}

/// The payer withdraws a payment, step by step: members only; the payment
/// must be the group's and the caller's; then it is closed as `cancelled`.
pub open spec fn withdrawal_decision(
    is_member: Option<bool>,
    payment: Option<Option<(u128, Seq<char>, Option<Seq<char>>, Seq<char>, Seq<char>, bool)>>,
    group_id: u128,
    username: Seq<char>,
) -> SplitPayDecision {
    match is_member {
        None => SplitPayDecision::Find(SplitPayLookup::Membership),
        Some(false) => SplitPayDecision::Refuse(rej(404, "Group not found"@, ""@)),
        Some(true) => match payment {
            None => SplitPayDecision::Find(SplitPayLookup::Payment),
            Some(None) => SplitPayDecision::Refuse(rej(404, "Payment not found"@, ""@)),
            Some(Some((g, _owner, paid_by, _name, _status, _from))) => if g != group_id {
                SplitPayDecision::Refuse(rej(404, "Payment not found"@, ""@))
            } else if is_members_payment(paid_by, username) {
                SplitPayDecision::Close("cancelled"@)
            } else {
                SplitPayDecision::Refuse(rej(403, "Only the payer can withdraw a payment"@, ""@))
            },
        },
    }
}

/// The next step of the payer withdrawing a payment.
pub fn payment_withdrawal_next(is_member: Option<bool>, payment: Option<Option<PaymentInfo>>, group_id: u128, username: &str) -> (r: SplitPayNext)
    ensures
        split_pay_view(r) == withdrawal_decision(is_member, known_payment(payment), group_id, username@),
{
    let m = match is_member {
        None => return SplitPayNext::Find(SplitPayLookup::Membership),
        Some(m) => m,
    };
    if let Err(e) = crate::group_plan::require_membership(m) {
        return SplitPayNext::Refuse(e);
    }
    let found = match payment {
        None => return SplitPayNext::Find(SplitPayLookup::Payment),
        Some(f) => f,
    };
    let info = match found_in_group(match found { Some(i) => { let g = i.group_id; Some((i, g)) }, None => None }, group_id, "Payment not found") {
        Err(e) => return SplitPayNext::Refuse(e),
        Ok(i) => i,
    };
    let withdrawn = match &info.paid_by {
        Some(p) => check_withdrawal(Some(p.as_str()), username),
        None => check_withdrawal(None, username),
    };
    match withdrawn {
        Err(e) => SplitPayNext::Refuse(e),
        Ok(()) => SplitPayNext::Close(closing_status(true)),
    }
}

/// A member's payment of their share waits for the owner: it is stored
/// `pending`, only for a share of the group that is the caller's, from the
/// caller's group balance or the named source of theirs, and moves nothing
/// to the owner yet. A payment the owner records for a name-only share
/// counts at once: it is stored `approved`, only by the share's owner, and
/// moves nothing out of anyone's source.
pub proof fn law_share_payments_wait_for_the_owner(
    is_member: Option<bool>,
    existing: Option<Option<bool>>,
    share: Option<Option<(u128, Seq<char>, Option<Seq<char>>, Seq<char>)>>,
    payer_source: Option<Option<Seq<char>>>,
    owner_source: Option<Option<Seq<char>>>,
    category: Option<Option<(u128, Seq<char>)>>,
    description: Option<Seq<char>>,
    amount_le_zero: bool,
    from_group_balance: bool,
    from_source_id: Option<u128>,
    to_group_balance: bool,
    to_source_id: Option<u128>,
    group_id: u128,
    username: Seq<char>,
)
    ensures
        split_payment_decision(is_member, existing, share, payer_source, amount_le_zero, from_group_balance,
            from_source_id, group_id, username) matches SplitPayDecision::Write(from, to, label, c, _, _, status) ==> {
            &&& status == "pending"@
            &&& to is None && c is None
            &&& !amount_le_zero && existing == Some(None::<bool>)
            &&& share matches Some(Some(sh)) && sh.0 == group_id && sh.2 is Some && eq_ignore_ascii_case_seq(sh.2->0, username)
            &&& from_group_balance ==> from is None && label == "Group balance"@
            &&& !from_group_balance ==> (payer_source matches Some(Some(n)) && from == Some((from_source_id->0, n)) && label == n)
        },
        manual_payment_decision(is_member, existing, share, owner_source, category, description, amount_le_zero,
            to_group_balance, to_source_id, group_id, username) matches SplitPayDecision::Write(from, _, _, _, _, _, status) ==> {
            &&& status == "approved"@
            &&& from is None
            &&& !amount_le_zero && existing == Some(None::<bool>)
            &&& share matches Some(Some(sh)) && sh.0 == group_id && sh.1 == username && sh.2 is None
        },
{
}

/// Money moves at an approval only by the owner's decision on a payment
/// that was pending, and never to the one who paid: a withdrawal is the
/// payer's own, and both only close a payment of the group. An approval
/// leaves the payment `approved`, a refusal `rejected`, a withdrawal
/// `cancelled`.
pub proof fn law_reviews_and_withdrawals(
    is_member: Option<bool>,
    payment: Option<Option<(u128, Seq<char>, Option<Seq<char>>, Seq<char>, Seq<char>, bool)>>,
    owner_source: Option<Option<Seq<char>>>,
    category: Option<Option<(u128, Seq<char>)>>,
    description: Option<Seq<char>>,
    approve: bool,
    to_group_balance: bool,
    to_source_id: Option<u128>,
    group_id: u128,
    username: Seq<char>,
)
    ensures
        review_decision(is_member, payment, owner_source, category, description, approve, to_group_balance,
            to_source_id, group_id, username) is Write ==> {
            &&& approve
            &&& payment matches Some(Some(p)) && p.0 == group_id && p.1 == username && p.4 == "pending"@
            &&& review_decision(is_member, payment, owner_source, category, description, approve, to_group_balance,
                to_source_id, group_id, username)->Write_6 == "approved"@
        },
        review_decision(is_member, payment, owner_source, category, description, approve, to_group_balance,
            to_source_id, group_id, username) is Close ==> {
            &&& !approve
            &&& payment matches Some(Some(p)) && p.0 == group_id && p.1 == username
            &&& review_decision(is_member, payment, owner_source, category, description, approve, to_group_balance,
                to_source_id, group_id, username)->Close_0 == "rejected"@
        },
        withdrawal_decision(is_member, payment, group_id, username) is Close ==>
            (payment matches Some(Some(p)) && p.0 == group_id && p.2 == Some(username)
                && withdrawal_decision(is_member, payment, group_id, username)->Close_0 == "cancelled"@),
{
}

} // verus!
