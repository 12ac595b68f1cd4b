//! Rules of a group's shared purchases: recurring routines that any member
//! pays, and planned expenses that members request, the leader reviews and
//! someone finally buys.
use vstd::prelude::*;
use vstd::string::*;
use crate::text::{concat3, is_blank, str_equal, to_owned_string, trim, trim_seq, trimmed};
use crate::responses::{Rejection, RejectionView, rej, refused, known_text, opt_text};

verus! {

/// Body of the leader's review of a requested item.
pub struct GroupPlannedExpenseReviewInput {
    pub approve: bool,
}

/// The caller's standing in a group.
pub enum Role {
    Leader,
    Member,
}

/// The refusal given when the caller is not in the group.
pub open spec fn group_not_found() -> RejectionView {
    rej(404, "Group not found"@, ""@)
}

/// Only members go on; anyone else is told the group does not exist.
pub fn require_membership(is_member: bool) -> (r: Result<(), Rejection>)
    ensures
        r is Ok <==> is_member,
        !is_member ==> refused(r) == Some(group_not_found()),
{
    if is_member {
        Ok(())
    } else {
        Err(Rejection::new(404, "Group not found", ""))
    }
}

/// A member is the leader when the group's leader is exactly their name.
pub open spec fn role_of(leader: Option<Seq<char>>, username: Seq<char>) -> Role {
    match leader {
        Some(l) => if l == username { Role::Leader } else { Role::Member },
        None => Role::Member,
    }
}

/// The role of a member, given the group's leader.
pub fn role_from_leader(leader: Option<&str>, username: &str) -> (r: Role)
    ensures
        r == role_of(match leader { Some(l) => Some(l@), None => None }, username@),
{
    match leader {
        Some(l) => if str_equal(l, username) { Role::Leader } else { Role::Member },
        None => Role::Member,
    }
}

/// Routines are managed by the leader alone.
pub fn require_routine_manager(role: &Role) -> (r: Result<(), Rejection>)
    ensures
        r is Ok <==> *role is Leader,
        *role is Member ==> refused(r) == Some(rej(403, "Only the group leader can manage routines"@, ""@)),
{
    match role {
        Role::Leader => Ok(()),
        Role::Member => Err(Rejection::new(403, "Only the group leader can manage routines", "")),
    }
}

/// The refusal of an item without a name or a positive price.
pub open spec fn name_and_price_required() -> RejectionView {
    rej(400, "Name and a positive price are required"@, ""@)
}

/// A routine or planned expense needs a name (after trimming) and a price
/// above zero; `price_le_zero` is the price compared with `<= 0.0`. Gives the
/// trimmed name.
pub fn check_name_and_price(item_name: &str, price_le_zero: bool) -> (r: Result<String, Rejection>)
    ensures
        r is Ok <==> (trim_seq(item_name@).len() > 0 && !price_le_zero),
        r matches Ok(name) ==> name@ == trim_seq(item_name@),
        r is Err ==> refused(r) == Some(name_and_price_required()),
{
    let name = trimmed(item_name);
    if name.as_str().unicode_len() == 0 || price_le_zero {
        return Err(Rejection::new(400, "Name and a positive price are required", ""));
    }
    Ok(name)
}

/// A payment needs a price above zero; `price_le_zero` is the price compared
/// with `<= 0.0`.
pub fn check_payment_price(price_le_zero: bool) -> (r: Result<(), Rejection>)
    ensures
        r is Ok <==> !price_le_zero,
        r is Err ==> refused(r) == Some(rej(400, "Price must be positive"@, ""@)),
{
    if price_le_zero {
        Err(Rejection::new(400, "Price must be positive", ""))
    } else {
        Ok(())
    }
}

/// The status a new planned expense starts in: `planned` when the leader
/// adds it, `requested` (waiting for the leader) otherwise.
pub open spec fn initial_status_of(role: Role) -> Seq<char> {
    match role {
        Role::Leader => "planned"@,
        Role::Member => "requested"@,
    }
}

/// The status of a new planned expense.
pub fn initial_plan_status(role: &Role) -> (r: String)
    ensures
        r@ == initial_status_of(*role),
{
    match role {
        Role::Leader => to_owned_string("planned"),
        Role::Member => to_owned_string("requested"),
    }
}

/// Who reviewed a new planned expense: the leader themself when they added
/// it, nobody yet otherwise.
pub fn initial_reviewed_by(role: &Role, username: &str) -> (r: Option<String>)
    ensures
        *role is Leader ==> (r matches Some(n) && n@ == username@),
        *role is Member ==> r is None,
{
    match role {
        Role::Leader => Some(to_owned_string(username)),
        Role::Member => None,
    }
}

/// The answer's message for a new planned expense.
pub fn plan_created_message(role: &Role) -> (r: String)
    ensures
        *role is Leader ==> r@ == "Group planned expense added"@,
        *role is Member ==> r@ == "Request sent to the group leader"@,
{
    match role {
        Role::Leader => to_owned_string("Group planned expense added"),
        Role::Member => to_owned_string("Request sent to the group leader"),
    }
}

/// Reviewing requests is the leader's alone.
pub fn require_leader_to_review(role: &Role) -> (r: Result<(), Rejection>)
    ensures
        r is Ok <==> *role is Leader,
        *role is Member ==> refused(r) == Some(rej(403, "Only the group leader can review requests"@, ""@)),
{
    match role {
        Role::Leader => Ok(()),
        Role::Member => Err(Rejection::new(403, "Only the group leader can review requests", "")),
    }
}

/// Where a review moves a request: approval plans it, refusal rejects it.
/// Only a `requested` item can be reviewed.
pub open spec fn review_target_of(current: Seq<char>, approve: bool) -> Option<Seq<char>> {
    if current == "requested"@ {
        Some(if approve { "planned"@ } else { "rejected"@ })
    } else {
        None
    }
}

/// The refusal of a review of an item that is no longer a request.
pub open spec fn already_handled() -> RejectionView {
    rej(409, "This request was already handled"@, ""@)
}

/// The status a review moves an item to, or the refusal when the item is no
/// longer a request.
pub fn review_transition(current: &str, approve: bool) -> (r: Result<String, Rejection>)
    ensures
        review_target_of(current@, approve) matches Some(t) ==> (r matches Ok(s) && s@ == t),
        review_target_of(current@, approve) is None ==> refused(r) == Some(already_handled()),
{
    if !str_equal(current, "requested") {
        return Err(Rejection::new(409, "This request was already handled", ""));
    }
    if approve {
        Ok(to_owned_string("planned"))
    } else {
        Ok(to_owned_string("rejected"))
    }
}

/// The status a review moves a waiting request to.
pub fn review_target(approve: bool) -> (r: String)
    ensures
        r@ == review_target_of("requested"@, approve)->0,
{
    if approve { to_owned_string("planned") } else { to_owned_string("rejected") }
}

/// The answer when the store moved a request only if it was still waiting:
/// a request that was no longer waiting is refused as already handled.
pub fn review_outcome(updated: bool) -> (r: Result<(), Rejection>)
    ensures
        r is Ok <==> updated,
        !updated ==> refused(r) == Some(already_handled()),
{
    if updated { Ok(()) } else { Err(Rejection::new(409, "This request was already handled", "")) }
}

/// The answer when the store cancelled an item only if its status was still
/// the one checked.
pub fn cancel_outcome(updated: bool) -> (r: Result<(), Rejection>)
    ensures
        r is Ok <==> updated,
        !updated ==> refused(r) == Some(rej(409, "This item changed meanwhile - refresh and try again"@, ""@)),
{
    if updated { Ok(()) } else { Err(Rejection::new(409, "This item changed meanwhile - refresh and try again", "")) }
}

/// A planned expense of the group, found by id.
pub fn planned_expense_found<T>(found: Option<T>) -> (r: Result<T, Rejection>)
    ensures
        found matches Some(t) ==> r == Ok::<T, Rejection>(t),
        found is None ==> refused(r) == Some(rej(404, "Planned expense not found"@, ""@)),
{
    match found {
        Some(t) => Ok(t),
        None => Err(Rejection::new(404, "Planned expense not found", "")),
    }
}

/// A routine of the group, found by id.
pub fn group_routine_found<T>(found: Option<T>) -> (r: Result<T, Rejection>)
    ensures
        found matches Some(t) ==> r == Ok::<T, Rejection>(t),
        found is None ==> refused(r) == Some(rej(404, "Group routine not found"@, ""@)),
{
    match found {
        Some(t) => Ok(t),
        None => Err(Rejection::new(404, "Group routine not found", "")),
    }
}

/// The source id a routine payment is stored with: the nil id when it came
/// from the group balance, else the named source (nil when none was named).
pub fn routine_payment_source_id(from_group_balance: bool, source_id: Option<u128>) -> (r: u128)
    ensures
        from_group_balance ==> r == 0,
        !from_group_balance ==> r == match source_id { Some(id) => id, None => 0 },
{
    if from_group_balance {
        0
    } else {
        match source_id {
            Some(id) => id,
            None => 0,
        }
    }
}

/// What a purchase of a planned expense does.
pub enum FulfilStep {
    /// The caller already bought it: answer with the item as it is.
    AlreadyYours,
    /// Buy it now.
    Buy,
}

/// The refusal of a purchase of an item in `status`.
pub open spec fn not_buyable(status: Seq<char>) -> RejectionView {
    rej(409, "This item cannot be bought right now"@, "It is "@ + status + "."@)
}

/// A purchase goes ahead only on a `planned` item; a repeat of the caller's
/// own purchase is answered as done.
pub open spec fn fulfil_step_of(status: Seq<char>, fulfilled_by: Option<Seq<char>>, username: Seq<char>) -> Result<FulfilStep, RejectionView> {
    if status == "fulfilled"@ && fulfilled_by == Some(username) {
        Ok(FulfilStep::AlreadyYours)
    } else if status != "planned"@ {
        Err(not_buyable(status))
    } else {
        Ok(FulfilStep::Buy)
    }
}

/// Decides a purchase of a planned expense.
pub fn fulfil_step(status: &str, fulfilled_by: Option<&str>, username: &str) -> (r: Result<FulfilStep, Rejection>)
    ensures
        match (r, fulfil_step_of(status@, match fulfilled_by { Some(f) => Some(f@), None => None }, username@)) {
            (Ok(a), Ok(b)) => a == b,
            (Err(a), Err(b)) => a@ == b,
            _ => false,
        },
{
    let by_caller = match fulfilled_by {
        Some(f) => str_equal(f, username),
        None => false,
    };
    if str_equal(status, "fulfilled") && by_caller {
        return Ok(FulfilStep::AlreadyYours);
    }
    if !str_equal(status, "planned") {
        return Err(Rejection::with_description(409, "This item cannot be bought right now", concat3("It is ", status, ".")));
    }
    Ok(FulfilStep::Buy)
}

/// Who may cancel an item: the leader any open one (`planned` or
/// `requested`), a member only their own request still waiting for review.
pub open spec fn may_cancel(role: Role, status: Seq<char>, requested_by: Seq<char>, username: Seq<char>) -> bool {
    match role {
        Role::Leader => status == "planned"@ || status == "requested"@,
        Role::Member => status == "requested"@ && requested_by == username,
    }
}

/// The refusal of a cancellation the caller may not make.
pub open spec fn cannot_cancel() -> RejectionView {
    rej(403, "You cannot cancel this item"@, ""@)
}

/// Checks that the caller may cancel the item.
pub fn check_cancel(role: &Role, status: &str, requested_by: &str, username: &str) -> (r: Result<(), Rejection>)
    ensures
        r is Ok <==> may_cancel(*role, status@, requested_by@, username@),
        r is Err ==> refused(r) == Some(cannot_cancel()),
{
    let allowed = match role {
        Role::Leader => str_equal(status, "planned") || str_equal(status, "requested"),
        Role::Member => str_equal(status, "requested") && str_equal(requested_by, username),
    };
    if allowed {
        Ok(())
    } else {
        Err(Rejection::new(403, "You cannot cancel this item", ""))
    }
}

/// The status a permitted cancellation moves an item to.
pub open spec fn cancel_target_of(role: Role, status: Seq<char>, requested_by: Seq<char>, username: Seq<char>) -> Option<Seq<char>> {
    if may_cancel(role, status, requested_by, username) {
        Some("canceled"@)
    } else {
        None
    }
}

/// The description of a payment: the one given when it is not blank, else
/// the item's name.
pub open spec fn payment_description_of(description: Option<Seq<char>>, item_name: Seq<char>) -> Seq<char> {
    match description {
        Some(d) => if trim_seq(d).len() > 0 { d } else { item_name },
        None => item_name,
    }
}

/// The description a payment is recorded with.
pub fn payment_description(description: Option<&str>, item_name: &str) -> (r: String)
    ensures
        r@ == payment_description_of(match description { Some(d) => Some(d@), None => None }, item_name@),
{
    match description {
        Some(d) => if !is_blank(d) { to_owned_string(d) } else { to_owned_string(item_name) },
        None => to_owned_string(item_name),
    }
}

/// What a member pays from.
pub enum PaySource {
    /// Their balance in the group.
    GroupBalance,
    /// One of their own sources; whether it is theirs is checked next.
    Source(u128),
}

/// The refusal of a payment that names no source and is not from the group
/// balance.
pub open spec fn no_pay_source() -> RejectionView {
    rej(400, "Choose where the money comes from"@, "Send a source_id or set from_group_balance."@)
}

/// Where a group payment comes from: the group balance when asked for, else
/// the named source, which must be given.
pub fn pay_source(from_group_balance: bool, source_id: Option<u128>) -> (r: Result<PaySource, Rejection>)
    ensures
        from_group_balance ==> r == Ok::<PaySource, Rejection>(PaySource::GroupBalance),
        !from_group_balance ==> match source_id {
            Some(id) => r == Ok::<PaySource, Rejection>(PaySource::Source(id)),
            None => refused(r) == Some(no_pay_source()),
        },
{
    if from_group_balance {
        return Ok(PaySource::GroupBalance);
    }
    match source_id {
        Some(id) => Ok(PaySource::Source(id)),
        None => Err(Rejection::new(400, "Choose where the money comes from", "Send a source_id or set from_group_balance.")),
    }
}

/// The payer's own source, by name, when the lookup found it among theirs.
pub fn owned_pay_source(found: Option<String>) -> (r: Result<String, Rejection>)
    ensures
        found matches Some(n) ==> r == Ok::<String, Rejection>(n),
        found is None ==> refused(r) == Some(rej(400, "Source not found"@, "Pay from one of your own sources."@)),
{
    match found {
        Some(n) => Ok(n),
        None => Err(Rejection::new(400, "Source not found", "Pay from one of your own sources.")),
    }
}

/// The name shown as the source of money taken from a group balance.
pub fn group_balance_source() -> (r: String)
    ensures
        r@ == "Group balance"@,
{
    to_owned_string("Group balance")
}

/// A member's spending that pays for a group item. The amount and the date
/// (`A`, `D`) are carried through unread.
pub struct MemberSpending<A, D> {
    pub spending_id: u128,
    pub group_id: u128,
    pub spent_by: String,
    pub total_amount: A,
    pub description: String,
    pub spending_category_id: u128,
    pub spending_category: String,
    pub created_date: D,
}

/// A movement of a member's group balance that pays for something: a
/// `spending` entry of the amount spent, taken from what the member holds
/// in the group and filed under a spending category.
pub struct BalanceSpending<A, D> {
    pub entry_id: u128,
    pub group_id: u128,
    pub username: String,
    pub spent: A,
    pub entry_type: String,
    pub description: String,
    pub spending_category_id: u128,
    pub spending_category: String,
    pub created_date: D,
}

/// How a payment is recorded: as a personal spending from one of the
/// payer's sources, or as the same spending made from their group balance.
pub enum Payer<A, D> {
    Source(MemberSpending<A, D>),
    GroupBalance(BalanceSpending<A, D>),
}

/// Whether `b` is the group-balance spending that stands for the member's
/// spending `s`: a `spending` entry with the same id, group, member, amount,
/// description, category and date.
pub open spec fn is_balance_spending_of<A, D>(b: BalanceSpending<A, D>, s: MemberSpending<A, D>) -> bool {
    &&& b.entry_id == s.spending_id
    &&& b.group_id == s.group_id
    &&& b.username@ == s.spent_by@
    &&& b.spent == s.total_amount
    &&& b.entry_type@ == "spending"@
    &&& b.description@ == s.description@
    &&& b.spending_category_id == s.spending_category_id
    &&& b.spending_category@ == s.spending_category@
    &&& b.created_date == s.created_date
}

/// The payment as a personal spending, or - with `from_group_balance` - as
/// the same amount spent from the payer's group balance instead.
pub fn make_payer<A, D>(from_group_balance: bool, spending: MemberSpending<A, D>) -> (r: Payer<A, D>)
    ensures
        !from_group_balance ==> r == Payer::Source(spending),
        from_group_balance ==> (r matches Payer::GroupBalance(b) && is_balance_spending_of(b, spending)),
{
    if !from_group_balance {
        return Payer::Source(spending);
    }
    let MemberSpending {
        spending_id, group_id, spent_by, total_amount, description, spending_category_id,
        spending_category, created_date,
    } = spending;
    Payer::GroupBalance(BalanceSpending {
        entry_id: spending_id,
        group_id,
        username: spent_by,
        spent: total_amount,
        entry_type: to_owned_string("spending"),
        description,
        spending_category_id,
        spending_category,
        created_date,
    })
}

/// The result of buying a planned expense, as the store reports it.
pub enum FulfilOutcome {
    Done,
    /// The item stopped being `planned` meanwhile.
    NotPlanned,
    InsufficientBalance,
}

/// The refusal when the group balance does not cover a payment.
pub open spec fn insufficient_balance() -> RejectionView {
    rej(409, "Not enough group balance"@, "Add balance first, or pay from one of your sources."@)
}

/// The answer to a purchase the store could not make.
pub fn fulfil_refusal(outcome: FulfilOutcome) -> (r: Result<(), Rejection>)
    ensures
        outcome is Done <==> r is Ok,
        outcome is NotPlanned ==> refused(r) == Some(rej(409, "Someone already bought this item"@, ""@)),
        outcome is InsufficientBalance ==> refused(r) == Some(insufficient_balance()),
{
    match outcome {
        FulfilOutcome::Done => Ok(()),
        FulfilOutcome::NotPlanned => Err(Rejection::new(409, "Someone already bought this item", "")),
        FulfilOutcome::InsufficientBalance => Err(Rejection::new(409, "Not enough group balance", "Add balance first, or pay from one of your sources.")),
    }
}

/// The answer to a routine payment the store refused for want of balance.
pub fn routine_payment_refusal(paid: bool) -> (r: Result<(), Rejection>)
    ensures
        paid <==> r is Ok,
        !paid ==> refused(r) == Some(insufficient_balance()),
{
    if paid {
        Ok(())
    } else {
        Err(Rejection::new(409, "Not enough group balance", "Add balance first, or pay from one of your sources."))
    }
}

/// What a group payment (of a routine, or of a planned expense) needs looked
/// up, in this order.
pub enum PaymentLookup {
    Membership,
    /// Whether a routine payment with the id was already made.
    Existing,
    /// The routine or planned expense paid for.
    Item,
    /// The payer's own source the money leaves.
    PayerSource,
}

/// A routine as far as paying it goes.
pub struct RoutineInfo {
    pub item_name: String,
    pub spending_category_id: u128,
    pub spending_category: String,
}

/// A planned expense as far as buying it goes.
pub struct PlannedInfo {
    pub status: String,
    pub fulfilled_by: Option<String>,
    pub item_name: String,
    pub spending_category_id: u128,
    pub spending_category: String,
}

/// What the request body says of a group payment; `price_le_zero` is the
/// price compared with `<= 0.0`.
pub struct PaymentBody {
    pub price_le_zero: bool,
    pub source_id: Option<u128>,
    pub from_group_balance: bool,
    pub description: Option<String>,
}

/// A payment to be written: what it buys, where the money comes from, and
/// the description of the payer's spending.
pub struct PaymentWrite {
    pub item_name: String,
    pub spending_category_id: u128,
    pub spending_category: String,
    /// The source's name, or `Group balance`.
    pub source: String,
    /// The source id stored with the payment.
    pub source_id: u128,
    pub description: String,
    pub from_group_balance: bool,
}

/// What a group payment flow does next.
pub enum PaymentNext {
    Find(PaymentLookup),
    /// The payment was already made: answer that it is.
    AnswerExisting,
    Refuse(Rejection),
    Write(PaymentWrite),
}

/// The abstract next step.
pub enum PaymentDecision {
    Find(PaymentLookup),
    AnswerExisting,
    Refuse(RejectionView),
    /// Item, category id and name, source name, source id, description,
    /// whether from the group balance.
    Write(Seq<char>, u128, Seq<char>, Seq<char>, u128, Seq<char>, bool),
}

/// The abstract view of the next step.
pub open spec fn payment_next_view(n: PaymentNext) -> PaymentDecision {
    match n {
        PaymentNext::Find(l) => PaymentDecision::Find(l),
        PaymentNext::AnswerExisting => PaymentDecision::AnswerExisting,
        PaymentNext::Refuse(e) => PaymentDecision::Refuse(e@),
        PaymentNext::Write(w) => PaymentDecision::Write(w.item_name@, w.spending_category_id, w.spending_category@,
            w.source@, w.source_id, w.description@, w.from_group_balance),
    }
}

/// Where a payment's money comes from: the group balance, or the payer's
/// named source found among theirs; then the payment is written with
/// `source_id` stored.
pub open spec fn payment_source_part(
    item_name: Seq<char>,
    category_id: u128,
    category: Seq<char>,
    from_group_balance: bool,
    source_id: Option<u128>,
    stored_source_id: u128,
    description: Option<Seq<char>>,
    payer_source: Option<Option<Seq<char>>>,
) -> PaymentDecision {
    let text = payment_description_of(description, item_name);
    if from_group_balance {
        PaymentDecision::Write(item_name, category_id, category, "Group balance"@, stored_source_id, text, true)
    } else {
        match source_id {
            None => PaymentDecision::Refuse(no_pay_source()),
            Some(_) => match payer_source {
                None => PaymentDecision::Find(PaymentLookup::PayerSource),
                Some(None) => PaymentDecision::Refuse(rej(400, "Source not found"@, "Pay from one of your own sources."@)),
                Some(Some(n)) => PaymentDecision::Write(item_name, category_id, category, n, stored_source_id, text, false),
            },
        }
    }
}

fn pay_from(
    item_name: String,
    category_id: u128,
    category: String,
    body: &PaymentBody,
    stored_source_id: u128,
    payer_source: Option<Option<String>>,
) -> (r: PaymentNext)
    ensures
        payment_next_view(r) == payment_source_part(item_name@, category_id, category@, body.from_group_balance,
            body.source_id, stored_source_id, opt_text(body.description), known_text(payer_source)),
{
    let source = match pay_source(body.from_group_balance, body.source_id) {
        Err(e) => return PaymentNext::Refuse(e),
        Ok(PaySource::GroupBalance) => group_balance_source(),
        Ok(PaySource::Source(_)) => {
            let found = match payer_source {
                None => return PaymentNext::Find(PaymentLookup::PayerSource),
                Some(f) => f,
            };
            match owned_pay_source(found) {
                Err(e) => return PaymentNext::Refuse(e),
                Ok(n) => n,
            }
        },
    };
    let description = match &body.description {
        Some(d) => payment_description(Some(d.as_str()), item_name.as_str()),
        None => payment_description(None, item_name.as_str()),
    };
    PaymentNext::Write(PaymentWrite {
        item_name,
        spending_category_id: category_id,
        spending_category: category,
        source,
        source_id: stored_source_id,
        description,
        from_group_balance: body.from_group_balance,
    })
}

/// Paying a group routine, step by step: members only; the price must be
/// positive; a payment id already used is answered as paid; the routine must
/// be the group's; then where the money comes from (`payment_source_part`),
/// the source id stored as the nil id for the group balance.
pub open spec fn routine_payment_decision(
    is_member: Option<bool>,
    existing: Option<bool>,
    routine: Option<Option<(Seq<char>, u128, Seq<char>)>>,
    payer_source: Option<Option<Seq<char>>>,
    price_le_zero: bool,
    source_id: Option<u128>,
    from_group_balance: bool,
    description: Option<Seq<char>>,
) -> PaymentDecision {
    match is_member {
        None => PaymentDecision::Find(PaymentLookup::Membership),
        Some(false) => PaymentDecision::Refuse(group_not_found()),
        Some(true) => if price_le_zero {
            PaymentDecision::Refuse(rej(400, "Price must be positive"@, ""@))
        } else {
            match existing {
                None => PaymentDecision::Find(PaymentLookup::Existing),
                Some(true) => PaymentDecision::AnswerExisting,
                Some(false) => match routine {
                    None => PaymentDecision::Find(PaymentLookup::Item),
                    Some(None) => PaymentDecision::Refuse(rej(404, "Group routine not found"@, ""@)),
                    Some(Some((name, cid, cat))) => payment_source_part(name, cid, cat, from_group_balance, source_id,
                        if from_group_balance { 0 } else { match source_id { Some(i) => i, None => 0 } },
                        description, payer_source),
                },
            }
        },
    }
}

/// The routine fact by its characters.
pub open spec fn known_routine(r: Option<Option<RoutineInfo>>) -> Option<Option<(Seq<char>, u128, Seq<char>)>> {
    match r {
        None => None,
        Some(None) => Some(None),
        Some(Some(i)) => Some(Some((i.item_name@, i.spending_category_id, i.spending_category@))),
    }
}

/// The next step of paying a group routine.
pub fn routine_payment_next(
    is_member: Option<bool>,
    existing: Option<bool>,
    routine: Option<Option<RoutineInfo>>,
    payer_source: Option<Option<String>>,
    body: &PaymentBody,
) -> (r: PaymentNext)
    ensures
        payment_next_view(r) == routine_payment_decision(is_member, existing, known_routine(routine),
            known_text(payer_source), body.price_le_zero, body.source_id, body.from_group_balance, opt_text(body.description)),
{
    let member = match is_member {
        None => return PaymentNext::Find(PaymentLookup::Membership),
        Some(m) => m,
    };
    if let Err(e) = require_membership(member) {
        return PaymentNext::Refuse(e);
    }
    if let Err(e) = check_payment_price(body.price_le_zero) {
        return PaymentNext::Refuse(e);
    }
    match existing {
        None => return PaymentNext::Find(PaymentLookup::Existing),
        Some(true) => return PaymentNext::AnswerExisting,
        Some(false) => {},
    }
    let found = match routine {
        None => return PaymentNext::Find(PaymentLookup::Item),
        Some(f) => f,
    };
    let info = match group_routine_found(found) {
        Err(e) => return PaymentNext::Refuse(e),
        Ok(i) => i,
    };
    let stored = routine_payment_source_id(body.from_group_balance, body.source_id);
    pay_from(info.item_name, info.spending_category_id, info.spending_category, body, stored, payer_source)
}

/// Buying a planned expense, step by step: members only; the price must be
/// positive; the item must be the group's; the caller's own earlier purchase
/// is answered, anything but a `planned` item refused (`fulfil_step_of`);
/// then where the money comes from (`payment_source_part`), the named
/// source id stored as given.
pub open spec fn fulfil_decision(
    is_member: Option<bool>,
    item: Option<Option<(Seq<char>, Option<Seq<char>>, Seq<char>, u128, Seq<char>)>>,
    payer_source: Option<Option<Seq<char>>>,
    price_le_zero: bool,
    source_id: Option<u128>,
    from_group_balance: bool,
    description: Option<Seq<char>>,
    username: Seq<char>,
) -> PaymentDecision {
    match is_member {
        None => PaymentDecision::Find(PaymentLookup::Membership),
        Some(false) => PaymentDecision::Refuse(group_not_found()),
        Some(true) => if price_le_zero {
            PaymentDecision::Refuse(rej(400, "Price must be positive"@, ""@))
        } else {
            match item {
                None => PaymentDecision::Find(PaymentLookup::Item),
                Some(None) => PaymentDecision::Refuse(rej(404, "Planned expense not found"@, ""@)),
                Some(Some((status, fulfilled_by, name, cid, cat))) => match fulfil_step_of(status, fulfilled_by, username) {
                    Err(v) => PaymentDecision::Refuse(v),
                    Ok(FulfilStep::AlreadyYours) => PaymentDecision::AnswerExisting,
                    Ok(FulfilStep::Buy) => payment_source_part(name, cid, cat, from_group_balance, source_id,
                        match source_id { Some(i) => i, None => 0 }, description, payer_source),
                },
            }
        },
    }
}

/// The planned-expense fact by its characters.
pub open spec fn known_planned(r: Option<Option<PlannedInfo>>) -> Option<Option<(Seq<char>, Option<Seq<char>>, Seq<char>, u128, Seq<char>)>> {
    match r {
        None => None,
        Some(None) => Some(None),
        Some(Some(i)) => Some(Some((i.status@, opt_text(i.fulfilled_by), i.item_name@, i.spending_category_id, i.spending_category@))),
    }
}

/// The next step of buying a planned expense.
pub fn planned_fulfil_next(
    is_member: Option<bool>,
    item: Option<Option<PlannedInfo>>,
    payer_source: Option<Option<String>>,
    body: &PaymentBody,
    username: &str,
) -> (r: PaymentNext)
    ensures
        payment_next_view(r) == fulfil_decision(is_member, known_planned(item), known_text(payer_source),
            body.price_le_zero, body.source_id, body.from_group_balance, opt_text(body.description), username@),
{
    let member = match is_member {
        None => return PaymentNext::Find(PaymentLookup::Membership),
        Some(m) => m,
    };
    if let Err(e) = require_membership(member) {
        return PaymentNext::Refuse(e);
    }
    if let Err(e) = check_payment_price(body.price_le_zero) {
        return PaymentNext::Refuse(e);
    }
    let found = match item {
        None => return PaymentNext::Find(PaymentLookup::Item),
        Some(f) => f,
    };
    let info = match planned_expense_found(found) {
        Err(e) => return PaymentNext::Refuse(e),
        Ok(i) => i,
    };
    let step = match &info.fulfilled_by {
        Some(f) => fulfil_step(info.status.as_str(), Some(f.as_str()), username),
        None => fulfil_step(info.status.as_str(), None, username),
    };
    match step {
        Err(e) => return PaymentNext::Refuse(e),
        Ok(FulfilStep::AlreadyYours) => return PaymentNext::AnswerExisting,
        Ok(FulfilStep::Buy) => {},
    }
    let stored = match body.source_id {
        Some(i) => i,
        None => 0,
    };
    pay_from(info.item_name, info.spending_category_id, info.spending_category, body, stored, payer_source)
}

/// A group payment is written only by a member, for a positive price and
/// an item of the group, from the group balance or from a source found
/// among the payer's own; a planned expense is bought only while it is
/// `planned`. The payment carries the item's name and category, the source
/// it is paid from (`Group balance` for the balance), and the description
/// sent, or the item's name when none is.
pub proof fn law_payments_only_when_checked(
    is_member: Option<bool>,
    existing: Option<bool>,
    routine: Option<Option<(Seq<char>, u128, Seq<char>)>>,
    item: Option<Option<(Seq<char>, Option<Seq<char>>, Seq<char>, u128, Seq<char>)>>,
    payer_source: Option<Option<Seq<char>>>,
    price_le_zero: bool,
    source_id: Option<u128>,
    from_group_balance: bool,
    description: Option<Seq<char>>,
    username: Seq<char>,
)
    ensures
        routine_payment_decision(is_member, existing, routine, payer_source, price_le_zero, source_id,
            from_group_balance, description) is Write ==> {
            &&& is_member == Some(true)
            &&& !price_le_zero
            &&& existing == Some(false)
            &&& routine matches Some(Some(_))
            &&& (from_group_balance || payer_source matches Some(Some(_)))
        },
        fulfil_decision(is_member, item, payer_source, price_le_zero, source_id, from_group_balance, description,
            username) is Write ==> {
            &&& is_member == Some(true)
            &&& !price_le_zero
            &&& item matches Some(Some(i)) && i.0 == "planned"@
            &&& (from_group_balance || payer_source matches Some(Some(_)))
        },
        routine_payment_decision(is_member, existing, routine, payer_source, price_le_zero, source_id,
            from_group_balance, description) matches PaymentDecision::Write(name, cid, cat, src, sid, text, fgb) ==> {
            &&& routine == Some(Some((name, cid, cat)))
            &&& fgb == from_group_balance
            &&& from_group_balance ==> src == "Group balance"@ && sid == 0
            &&& !from_group_balance ==> payer_source == Some(Some(src)) && source_id == Some(sid)
            &&& (description is Some && trim_seq(description->0).len() > 0) ==> text == description->0
            &&& (description is None || trim_seq(description->0).len() == 0) ==> text == name
        },
        fulfil_decision(is_member, item, payer_source, price_le_zero, source_id, from_group_balance, description,
            username) matches PaymentDecision::Write(name, cid, cat, src, sid, text, fgb) ==> {
            &&& item matches Some(Some(i)) && i.2 == name && i.3 == cid && i.4 == cat
            &&& fgb == from_group_balance
            &&& from_group_balance ==> src == "Group balance"@
            &&& !from_group_balance ==> payer_source == Some(Some(src))
            &&& sid == (match source_id { Some(v) => v, None => 0 })
            &&& (description is Some && trim_seq(description->0).len() > 0) ==> text == description->0
            &&& (description is None || trim_seq(description->0).len() == 0) ==> text == name
        },
{
    lemma_status_words_distinct();
}

/// What a change to a group's plans needs looked up, in this order.
pub enum PlanLookup {
    /// Whether the caller is a member of the group.
    Membership,
    /// The group's leader, which decides the caller's role.
    Leader,
    /// The planned expense, by id, in the group.
    Item,
}

/// What a change to a group's plans does next.
pub enum PlanNext {
    Find(PlanLookup),
    /// The item already exists: answer with it as stored.
    AnswerExisting,
    Refuse(Rejection),
    /// Add a planned expense with its name, remarks, status, the member who
    /// approved it (if any), and the message to answer with.
    Add(String, String, String, Option<String>, String),
    /// Save a routine under this trimmed name.
    SaveRoutine(String),
    /// Move a waiting request to this status.
    Review(String),
    /// Cancel the item, which is in this status.
    Cancel(String),
}

/// The abstract next step.
pub enum PlanDecision {
    Find(PlanLookup),
    AnswerExisting,
    Refuse(RejectionView),
    Add(Seq<char>, Seq<char>, Seq<char>, Option<Seq<char>>, Seq<char>),
    SaveRoutine(Seq<char>),
    Review(Seq<char>),
    Cancel(Seq<char>),
}

/// The abstract view of the next step.
pub open spec fn plan_next_view(n: PlanNext) -> PlanDecision {
    match n {
        PlanNext::Find(l) => PlanDecision::Find(l),
        PlanNext::AnswerExisting => PlanDecision::AnswerExisting,
        PlanNext::Refuse(e) => PlanDecision::Refuse(e@),
        PlanNext::Add(n, notes, st, rv, msg) => PlanDecision::Add(n@, notes@, st@, opt_text(rv), msg@),
        PlanNext::SaveRoutine(n) => PlanDecision::SaveRoutine(n@),
        PlanNext::Review(st) => PlanDecision::Review(st@),
        PlanNext::Cancel(st) => PlanDecision::Cancel(st@),
    }
}

/// The caller's role, once membership and the leader are known.
pub open spec fn role_step(is_member: Option<bool>, leader: Option<Option<Seq<char>>>, username: Seq<char>) -> Result<Role, PlanDecision> {
    match is_member {
        None => Err(PlanDecision::Find(PlanLookup::Membership)),
        Some(false) => Err(PlanDecision::Refuse(group_not_found())),
        Some(true) => match leader {
            None => Err(PlanDecision::Find(PlanLookup::Leader)),
            Some(l) => Ok(role_of(l, username)),
        },
    }
}

fn role_next(is_member: Option<bool>, leader: Option<Option<String>>, username: &str) -> (r: Result<Role, PlanNext>)
    ensures
        match (r, role_step(is_member, known_text(leader), username@)) {
            (Ok(a), Ok(b)) => a == b,
            (Err(n), Err(v)) => plan_next_view(n) == v,
            _ => false,
        },
{
    let m = match is_member {
        None => return Err(PlanNext::Find(PlanLookup::Membership)),
        Some(m) => m,
    };
    if let Err(e) = require_membership(m) {
        return Err(PlanNext::Refuse(e));
    }
    match leader {
        None => Err(PlanNext::Find(PlanLookup::Leader)),
        Some(Some(l)) => Ok(role_from_leader(Some(l.as_str()), username)),
        Some(None) => Ok(role_from_leader(None, username)),
    }
}

/// Adding a planned expense, step by step: members only; a name and a
/// positive price; an id already in the group is answered as it is; the
/// leader's item is planned at once and reviewed by them, anyone else's is a
/// request for the leader.
pub open spec fn add_plan_decision(
    is_member: Option<bool>,
    leader: Option<Option<Seq<char>>>,
    exists: Option<bool>,
    name: Seq<char>,
    price_le_zero: bool,
    notes: Seq<char>,
    username: Seq<char>,
) -> PlanDecision {
    match role_step(is_member, leader, username) {
        Err(d) => d,
        Ok(role) => if trim_seq(name).len() == 0 || price_le_zero {
            PlanDecision::Refuse(name_and_price_required())
        } else {
            match exists {
                None => PlanDecision::Find(PlanLookup::Item),
                Some(true) => PlanDecision::AnswerExisting,
                Some(false) => PlanDecision::Add(trim_seq(name), trim_seq(notes), initial_status_of(role),
                    match role { Role::Leader => Some(username), Role::Member => None },
                    match role { Role::Leader => "Group planned expense added"@, Role::Member => "Request sent to the group leader"@ }),
            }
        },
    }
}

/// The next step of adding a planned expense.
pub fn add_plan_next(
    is_member: Option<bool>,
    leader: Option<Option<String>>,
    exists: Option<bool>,
    name: &str,
    price_le_zero: bool,
    notes: &str,
    username: &str,
) -> (r: PlanNext)
    ensures
        plan_next_view(r) == add_plan_decision(is_member, known_text(leader), exists, name@, price_le_zero, notes@, username@),
{
    let role = match role_next(is_member, leader, username) {
        Err(n) => return n,
        Ok(r) => r,
    };
    let n = match check_name_and_price(name, price_le_zero) {
        Err(e) => return PlanNext::Refuse(e),
        Ok(n) => n,
    };
    match exists {
        None => PlanNext::Find(PlanLookup::Item),
        Some(true) => PlanNext::AnswerExisting,
        Some(false) => PlanNext::Add(n, trimmed(notes), initial_plan_status(&role), initial_reviewed_by(&role, username),
            plan_created_message(&role)),
    }
}

/// Saving a routine, step by step: members only, the leader alone, with a
/// name and a positive price.
pub open spec fn routine_decision(
    is_member: Option<bool>,
    leader: Option<Option<Seq<char>>>,
    name: Seq<char>,
    price_le_zero: bool,
    username: Seq<char>,
) -> PlanDecision {
    match role_step(is_member, leader, username) {
        Err(d) => d,
        Ok(Role::Member) => PlanDecision::Refuse(rej(403, "Only the group leader can manage routines"@, ""@)),
        Ok(Role::Leader) => if trim_seq(name).len() == 0 || price_le_zero {
            PlanDecision::Refuse(name_and_price_required())
        } else {
            PlanDecision::SaveRoutine(trim_seq(name))
        },
    }
}

/// The next step of saving a routine.
pub fn save_routine_next(is_member: Option<bool>, leader: Option<Option<String>>, name: &str, price_le_zero: bool, username: &str) -> (r: PlanNext)
    ensures
        plan_next_view(r) == routine_decision(is_member, known_text(leader), name@, price_le_zero, username@),
{
    let role = match role_next(is_member, leader, username) {
        Err(n) => return n,
        Ok(r) => r,
    };
    if let Err(e) = require_routine_manager(&role) {
        return PlanNext::Refuse(e);
    }
    match check_name_and_price(name, price_le_zero) {
        Err(e) => PlanNext::Refuse(e),
        Ok(n) => PlanNext::SaveRoutine(n),
    }
}

/// Reviewing a request, step by step: members only, the leader alone; the
/// request then moves to `planned` or `rejected` (if it is still waiting,
/// `review_outcome`).
pub open spec fn review_plan_decision(is_member: Option<bool>, leader: Option<Option<Seq<char>>>, approve: bool, username: Seq<char>) -> PlanDecision {
    match role_step(is_member, leader, username) {
        Err(d) => d,
        Ok(Role::Member) => PlanDecision::Refuse(rej(403, "Only the group leader can review requests"@, ""@)),
        Ok(Role::Leader) => PlanDecision::Review(review_target_of("requested"@, approve)->0),
    }
}

/// The next step of reviewing a request.
pub fn review_plan_next(is_member: Option<bool>, leader: Option<Option<String>>, approve: bool, username: &str) -> (r: PlanNext)
    ensures
        plan_next_view(r) == review_plan_decision(is_member, known_text(leader), approve, username@),
{
    let role = match role_next(is_member, leader, username) {
        Err(n) => return n,
        Ok(r) => r,
    };
    match require_leader_to_review(&role) {
        Err(e) => PlanNext::Refuse(e),
        Ok(()) => PlanNext::Review(review_target(approve)),
    }
}

/// Cancelling an item, step by step: members only; the item must be the
/// group's; then the cancellation rights (`may_cancel`). The store cancels it
/// only if its status did not change meanwhile (`cancel_outcome`).
pub open spec fn cancel_plan_decision(
    is_member: Option<bool>,
    leader: Option<Option<Seq<char>>>,
    item: Option<Option<(Seq<char>, Seq<char>)>>,
    username: Seq<char>,
) -> PlanDecision {
    match role_step(is_member, leader, username) {
        Err(d) => d,
        Ok(role) => match item {
            None => PlanDecision::Find(PlanLookup::Item),
            Some(None) => PlanDecision::Refuse(rej(404, "Planned expense not found"@, ""@)),
            Some(Some((status, requested_by))) => if may_cancel(role, status, requested_by, username) {
                PlanDecision::Cancel(status)
            } else {
                PlanDecision::Refuse(cannot_cancel())
            },
        },
    }
}

/// The next step of cancelling an item; `item` is its status and who
/// requested it.
pub fn cancel_plan_next(is_member: Option<bool>, leader: Option<Option<String>>, item: Option<Option<(String, String)>>, username: &str) -> (r: PlanNext)
    ensures
        plan_next_view(r) == cancel_plan_decision(is_member, known_text(leader),
            match item { None => None, Some(None) => Some(None), Some(Some((s, b))) => Some(Some((s@, b@))) }, username@),
{
    let role = match role_next(is_member, leader, username) {
        Err(n) => return n,
        Ok(r) => r,
    };
    let found = match item {
        None => return PlanNext::Find(PlanLookup::Item),
        Some(f) => f,
    };
    let (status, requested_by) = match planned_expense_found(found) {
        Err(e) => return PlanNext::Refuse(e),
        Ok(x) => x,
    };
    match check_cancel(&role, status.as_str(), requested_by.as_str(), username) {
        Err(e) => PlanNext::Refuse(e),
        Ok(()) => PlanNext::Cancel(status),
    }
}

/// The five status words differ from one another.
proof fn lemma_status_words_distinct()
    ensures
        "requested"@ != "planned"@,
        "requested"@ != "rejected"@,
        "requested"@ != "fulfilled"@,
        "requested"@ != "canceled"@,
        "planned"@ != "rejected"@,
        "planned"@ != "fulfilled"@,
        "planned"@ != "canceled"@,
        "rejected"@ != "fulfilled"@,
        "rejected"@ != "canceled"@,
        "fulfilled"@ != "canceled"@,
{
    reveal_strlit("requested");
    reveal_strlit("planned");
    reveal_strlit("rejected");
    reveal_strlit("fulfilled");
    reveal_strlit("canceled");
    assert("requested"@.len() == 9);
    assert("planned"@.len() == 7);
    assert("rejected"@.len() == 8);
    assert("fulfilled"@.len() == 9);
    assert("canceled"@.len() == 8);
    assert("requested"@[0] != "fulfilled"@[0]);
    assert("rejected"@[0] != "canceled"@[0]);
}

/// A status no rule moves an item out of: rejected, fulfilled or canceled.
pub open spec fn is_closed_status(status: Seq<char>) -> bool {
    status == "rejected"@ || status == "fulfilled"@ || status == "canceled"@
}

/// Once an item is rejected, fulfilled or canceled it stays so: it cannot be
/// reviewed, bought (beyond answering its buyer's repeat) or canceled, by
/// anyone.
pub proof fn law_closed_items_stay_closed(
    status: Seq<char>,
    approve: bool,
    role: Role,
    requested_by: Seq<char>,
    fulfilled_by: Option<Seq<char>>,
    username: Seq<char>,
)
    requires
        is_closed_status(status),
    ensures
        review_target_of(status, approve) is None,
        fulfil_step_of(status, fulfilled_by, username) != Ok::<FulfilStep, RejectionView>(FulfilStep::Buy),
        cancel_target_of(role, status, requested_by, username) is None,
{
    lemma_status_words_distinct();
}

/// Only a waiting request is reviewed, and a review ends in `planned` or
/// `rejected`.
pub proof fn law_review_moves_requests_only(status: Seq<char>, approve: bool)
    ensures
        review_target_of(status, approve) is Some <==> status == "requested"@,
        review_target_of(status, approve) matches Some(t) ==> (t == "planned"@ <==> approve),
        review_target_of(status, approve) matches Some(t) ==> (t == "rejected"@ <==> !approve),
{
    lemma_status_words_distinct();
}

/// A review records the leader's answer: approving a request makes it
/// `planned`, refusing it makes it `rejected`. Only the leader of the group
/// reviews, and the leader's review is always taken.
pub proof fn law_review_records_the_leaders_answer(
    is_member: Option<bool>,
    leader: Option<Option<Seq<char>>>,
    approve: bool,
    username: Seq<char>,
)
    ensures
        review_plan_decision(is_member, leader, approve, username) matches PlanDecision::Review(s) ==> {
            &&& approve ==> s == "planned"@
            &&& !approve ==> s == "rejected"@
            &&& is_member == Some(true)
            &&& leader == Some(Some(username))
        },
        review_plan_decision(Some(true), Some(Some(username)), approve, username)
            == PlanDecision::Review(if approve { "planned"@ } else { "rejected"@ }),
{
}

/// A new planned expense is added only by a member, with a name and a
/// positive price, under its trimmed name and notes. The leader's is
/// `planned` at once and counts as reviewed by the leader; anyone else's is
/// a `requested` item that nobody has reviewed yet. A routine is saved only
/// by the leader, under its trimmed name.
pub proof fn law_new_items_follow_the_role(
    is_member: Option<bool>,
    leader: Option<Option<Seq<char>>>,
    exists: Option<bool>,
    name: Seq<char>,
    price_le_zero: bool,
    notes: Seq<char>,
    username: Seq<char>,
)
    ensures
        add_plan_decision(is_member, leader, exists, name, price_le_zero, notes, username)
            matches PlanDecision::Add(n, remarks, status, reviewed_by, message) ==> {
            &&& is_member == Some(true) && exists == Some(false) && !price_le_zero
            &&& n == trim_seq(name) && n.len() > 0 && remarks == trim_seq(notes)
            &&& leader == Some(Some(username)) ==> (status == "planned"@ && reviewed_by == Some(username)
                && message == "Group planned expense added"@)
            &&& leader != Some(Some(username)) ==> (status == "requested"@ && reviewed_by is None
                && message == "Request sent to the group leader"@)
        },
        routine_decision(is_member, leader, name, price_le_zero, username) matches PlanDecision::SaveRoutine(n) ==> {
            &&& is_member == Some(true) && leader == Some(Some(username)) && !price_le_zero
            &&& n == trim_seq(name) && n.len() > 0
        },
{
}

/// Cancelling keeps to the cancellation rights: the leader cancels a planned
/// item or a waiting request, a member only their own waiting request; the
/// item is cancelled from the status it was found in.
pub proof fn law_cancel_keeps_to_the_rights(
    is_member: Option<bool>,
    leader: Option<Option<Seq<char>>>,
    item: Option<Option<(Seq<char>, Seq<char>)>>,
    username: Seq<char>,
)
    ensures
        cancel_plan_decision(is_member, leader, item, username) matches PlanDecision::Cancel(s) ==> {
            &&& is_member == Some(true)
            &&& item matches Some(Some((status, by))) && s == status
                && (s == "planned"@ || s == "requested"@)
                && (leader != Some(Some(username)) ==> (s == "requested"@ && by == username))
        },
        (is_member == Some(true) && leader == Some(Some(username))) ==> (item matches Some(Some((status, by))) ==>
            ((status == "planned"@ || status == "requested"@) ==>
                cancel_plan_decision(is_member, leader, item, username) == PlanDecision::Cancel(status))),
{
}

/// A member can never cancel a planned item, nor someone else's request;
/// their own waiting request they can.
pub proof fn law_member_cancels_only_own_requests(status: Seq<char>, requested_by: Seq<char>, username: Seq<char>)
    ensures
        may_cancel(Role::Member, status, requested_by, username) <==> (status == "requested"@ && requested_by == username),
        !may_cancel(Role::Member, "planned"@, requested_by, username),
{
    lemma_status_words_distinct();
}

/// A new item starts open: the leader's is planned and can be bought at
/// once; a member's is a request that waits for review and that its
/// requester may still cancel. An approved request can then be bought.
pub proof fn law_new_items_start_open(username: Seq<char>, fulfilled_by: Option<Seq<char>>, buyer: Seq<char>)
    ensures
        fulfil_step_of(initial_status_of(Role::Leader), fulfilled_by, buyer) == Ok::<FulfilStep, RejectionView>(FulfilStep::Buy),
        review_target_of(initial_status_of(Role::Member), true) == Some("planned"@),
        may_cancel(Role::Member, initial_status_of(Role::Member), username, username),
        fulfil_step_of(review_target_of(initial_status_of(Role::Member), true)->0, fulfilled_by, buyer)
            == Ok::<FulfilStep, RejectionView>(FulfilStep::Buy),
{
    lemma_status_words_distinct();
}

/// Only a planned item can be bought.
pub proof fn law_only_planned_items_are_bought(status: Seq<char>, fulfilled_by: Option<Seq<char>>, username: Seq<char>)
    ensures
        fulfil_step_of(status, fulfilled_by, username) == Ok::<FulfilStep, RejectionView>(FulfilStep::Buy) <==> status == "planned"@,
{
    lemma_status_words_distinct();
}

} // verus!
