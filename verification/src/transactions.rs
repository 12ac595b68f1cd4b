//! Rules of recording spendings, earnings, debts and transfers between
//! members.
use vstd::prelude::*;
use vstd::string::*;
use crate::text::{concat2, concat3, eq_ignore_ascii_case, eq_ignore_ascii_case_seq, str_equal,
    to_owned_string, trim, trim_seq};
use crate::responses::{Rejection, RejectionView, rej, refused, known_text, known_named};
use crate::settings_client::{CategoryWiring, WiringView, uuid_parse, uuid_text_value};
use crate::group_fund::{append_note, with_note};

verus! {

/// What is being recorded.
pub enum RecordKind {
    Spending,
    Earning,
}

/// `spending` or `earning`.
pub open spec fn kind_word(k: RecordKind) -> Seq<char> {
    match k {
        RecordKind::Spending => "spending"@,
        RecordKind::Earning => "earning"@,
    }
}

/// `Spending` or `Earning`.
pub open spec fn kind_title(k: RecordKind) -> Seq<char> {
    match k {
        RecordKind::Spending => "Spending"@,
        RecordKind::Earning => "Earning"@,
    }
}

fn word(k: &RecordKind) -> (r: &'static str)
    ensures
        r@ == kind_word(*k),
{
    match k {
        RecordKind::Spending => "spending",
        RecordKind::Earning => "earning",
    }
}

fn title(k: &RecordKind) -> (r: &'static str)
    ensures
        r@ == kind_title(*k),
{
    match k {
        RecordKind::Spending => "Spending",
        RecordKind::Earning => "Earning",
    }
}

/// Whether a new record may be written, given the lookups of its category
/// and source (the number of matching rows, or the error) and whether the
/// category is one of the server's wired ones: both must be found, the
/// category either found or wired. Otherwise the first failure in the order
/// category error, category missing, source error, source missing; a wired
/// category bypasses the local category check, so it is never reported
/// missing.
pub open spec fn record_check_of(
    k: RecordKind,
    category: Result<u64, Seq<char>>,
    source: Result<u64, Seq<char>>,
    wired: bool,
) -> Result<(), RejectionView> {
    if category is Ok && source is Ok && (category->Ok_0 > 0 || wired) && source->Ok_0 > 0 {
        Ok(())
    } else if category is Err {
        Err(rej(400, "Failed to create "@ + kind_word(k) + " [Category]"@, category->Err_0))
    } else if category->Ok_0 == 0 && !wired {
        Err(rej(400, kind_title(k) + " category not found"@, "Please create the "@ + kind_word(k) + " category first."@))
    } else if source is Err {
        Err(rej(400, "Failed to create "@ + kind_word(k) + " [Source]"@, source->Err_0))
    } else {
        Err(rej(400, "Source not found"@, "Please create the source first."@))
    }
}

/// The view of a lookup result.
pub open spec fn lookup_view(r: Result<u64, String>) -> Result<u64, Seq<char>> {
    match r {
        Ok(n) => Ok(n),
        Err(e) => Err(e@),
    }
}

/// Checks that a new spending or earning may be written.
pub fn record_check(k: &RecordKind, category: Result<u64, String>, source: Result<u64, String>, wired: bool) -> (r: Result<(), Rejection>)
    ensures
        refused(r) == match record_check_of(*k, lookup_view(category), lookup_view(source), wired) {
            Ok(_) => None,
            Err(v) => Some(v),
        },
{
    let category_found = match &category { Ok(n) => *n > 0, Err(_) => false };
    let source_found = match &source { Ok(n) => *n > 0, Err(_) => false };
    if category.is_ok() && source.is_ok() && (category_found || wired) && source_found {
        return Ok(());
    }
    match category {
        Err(e) => {
            return Err(Rejection::titled(400, concat3("Failed to create ", word(k), " [Category]"), e.as_str()));
        },
        Ok(n) => {
            if n == 0 && !wired {
                return Err(Rejection::titled(400, concat2(title(k), " category not found"),
                    concat3("Please create the ", word(k), " category first.").as_str()));
            }
        },
    }
    match source {
        Err(e) => Err(Rejection::titled(400, concat3("Failed to create ", word(k), " [Source]"), e.as_str())),
        Ok(_) => Err(Rejection::new(400, "Source not found", "Please create the source first.")),
    }
}

/// Checks a new spending: its category is looked up locally and among the
/// server's wired categories (`resolve_name`), its source locally. Gives the
/// wired name the spending takes instead of the one sent, if any.
pub fn spending_precheck(wiring: &CategoryWiring, category_id: u128, category: Result<u64, String>, source: Result<u64, String>) -> (r: Result<Option<String>, Rejection>)
    ensures
        refused(r) == match record_check_of(RecordKind::Spending, lookup_view(category), lookup_view(source),
            crate::settings_client::resolve_name_of(wiring@, category_id) is Some) {
            Ok(_) => None,
            Err(v) => Some(v),
        },
        r matches Ok(Some(n)) ==> crate::settings_client::resolve_name_of(wiring@, category_id) == Some(n@),
        r matches Ok(None) ==> crate::settings_client::resolve_name_of(wiring@, category_id) is None,
{
    let wired = wiring.resolve_name(category_id);
    match record_check(&RecordKind::Spending, category, source, wired.is_some()) {
        Err(e) => Err(e),
        Ok(()) => Ok(wired),
    }
}

/// Checks a new earning: its category is looked up locally and among the
/// wired categories (`earning_wired_name`), its source locally. Gives the
/// wired name the earning takes instead of the one sent, if any.
pub fn earning_precheck(wiring: &CategoryWiring, category_id: u128, category: Result<u64, String>, source: Result<u64, String>) -> (r: Result<Option<String>, Rejection>)
    ensures
        refused(r) == match record_check_of(RecordKind::Earning, lookup_view(category), lookup_view(source),
            earning_wired_name_of(wiring@, category_id) is Some) {
            Ok(_) => None,
            Err(v) => Some(v),
        },
        r matches Ok(Some(n)) ==> earning_wired_name_of(wiring@, category_id) == Some(n@),
        r matches Ok(None) ==> earning_wired_name_of(wiring@, category_id) is None,
{
    let wired = earning_wired_name(wiring, category_id);
    match record_check(&RecordKind::Earning, category, source, wired.is_some()) {
        Err(e) => Err(e),
        Ok(()) => Ok(wired),
    }
}

/// The refusal when the store could not write the record.
pub fn insert_failed(k: &RecordKind, err: &str) -> (r: Rejection)
    ensures
        r@ == rej(400, "Failed to create "@ + kind_word(*k) + " "@, err@),
{
    Rejection::titled(400, concat3("Failed to create ", word(k), " "), err)
}

/// The refusal when a spending's line items could not be written (the
/// spending itself is then removed again).
pub fn detail_insert_failed(err: &str) -> (r: Rejection)
    ensures
        r@ == rej(400, "Failed to create spending [Detail]"@, err@),
{
    Rejection::new(400, "Failed to create spending [Detail]", err)
}

/// What follows the writing of a new spending's line items.
pub enum DetailStep {
    /// They were written: the spending stands, with its lines.
    Keep,
    /// They could not be written: the spending just written is removed
    /// again, so that no total stands without its breakdown, and the
    /// refusal is answered.
    RemoveSpending(Rejection),
}

/// Decides, from the outcome of writing a spending's line items, whether
/// the spending stands or is removed again.
pub fn detail_step(details: Result<(), String>) -> (r: DetailStep)
    ensures
        details is Ok <==> r is Keep,
        details is Err ==> r is RemoveSpending
            && r->RemoveSpending_0@ == rej(400, "Failed to create spending [Detail]"@, details->Err_0@),
{
    match details {
        Ok(()) => DetailStep::Keep,
        Err(e) => DetailStep::RemoveSpending(detail_insert_failed(e.as_str())),
    }
}

/// The wired name an earning's category takes: the last of transfer,
/// recount, debt whose id is set and matches.
pub open spec fn earning_wired_name_of(w: WiringView, category_id: u128) -> Option<Seq<char>> {
    if w.debt_id != 0 && w.debt_id == category_id {
        Some(w.debt_name)
    } else if w.recount_id != 0 && w.recount_id == category_id {
        Some(w.recount_name)
    } else if w.transfer_id != 0 && w.transfer_id == category_id {
        Some(w.transfer_name)
    } else {
        None
    }
}

/// The name an earning's category takes when it is one of the wired
/// categories.
pub fn earning_wired_name(wiring: &CategoryWiring, category_id: u128) -> (r: Option<String>)
    ensures
        r matches Some(n) ==> earning_wired_name_of(wiring@, category_id) == Some(n@),
        r is None ==> earning_wired_name_of(wiring@, category_id) is None,
{
    let mut name: Option<String> = None;
    if wiring.transfer_category_id != 0 && wiring.transfer_category_id == category_id {
        name = Some(wiring.transfer_category_name.clone());
    }
    if wiring.recount_category_id != 0 && wiring.recount_category_id == category_id {
        name = Some(wiring.recount_category_name.clone());
    }
    if wiring.debt_category_id != 0 && wiring.debt_category_id == category_id {
        name = Some(wiring.debt_category_name.clone());
    }
    name
}

/// When the settings cannot be had, the wiring is empty and no category
/// takes a wired name, so a new record is written only when its category
/// and source are both found in the caller's own tables.
pub proof fn law_unreachable_settings_mean_local_checks(
    k: RecordKind,
    category_id: u128,
    category: Result<u64, Seq<char>>,
    source: Result<u64, Seq<char>>,
)
    ensures
        crate::settings_client::resolve_name_of(crate::settings_client::empty_wiring(), category_id) is None,
        earning_wired_name_of(crate::settings_client::empty_wiring(), category_id) is None,
        record_check_of(k, category, source, false) is Ok <==> (category is Ok && category->Ok_0 > 0 && source is Ok && source->Ok_0 > 0),
{
}

/// An earning filed under a wired category takes that category's configured
/// name: a set id equal to the transfer id alone names it Transfer's name,
/// to the recount id alone Recount's, to the debt id alone Debt's. Where one
/// id is wired to several, the debt name wins over the recount name and that
/// over the transfer name. The nil id, or an id wired to nothing, names
/// nothing.
pub proof fn law_earnings_take_the_wired_name(w: WiringView, id: u128)
    ensures
        (id != 0 && id == w.transfer_id && id != w.recount_id && id != w.debt_id)
            ==> earning_wired_name_of(w, id) == Some(w.transfer_name),
        (id != 0 && id == w.recount_id && id != w.debt_id)
            ==> earning_wired_name_of(w, id) == Some(w.recount_name),
        (id != 0 && id == w.debt_id) ==> earning_wired_name_of(w, id) == Some(w.debt_name),
        (id == 0 || (id != w.transfer_id && id != w.recount_id && id != w.debt_id))
            ==> earning_wired_name_of(w, id) is None,
{
}

/// A wired category bypasses the local category check: whether the caller
/// has a local row for it changes nothing, so the outcome is the one of a
/// category found locally.
pub proof fn law_wired_categories_bypass_local_check(
    k: RecordKind,
    rows: u64,
    source: Result<u64, Seq<char>>,
)
    ensures
        record_check_of(k, Ok(rows), source, true) == record_check_of(k, Ok(1), source, false),
{
}

/// Query of a debt update: which debt, and the records it is settled with.
pub struct DebtParam {
    pub description: Option<String>,
    pub debt_id: Option<String>,
    pub debt_type: Option<i32>,
    pub debt_earning_id: Option<String>,
    pub debt_spending_id: Option<String>,
    pub status: Option<i32>,
}

/// Which record a debt must point at. Type 1 (a loan given) points at an
/// earning, type 2 (a debt owed) at a spending.
pub enum DebtLookup {
    Earning(u128),
    Spending(u128),
    /// Any other type points at nothing, so the debt is refused.
    Nothing,
}

/// The record a new debt must point at: for type 1 its earning, for type 2
/// its spending, the nil id when none is given.
pub open spec fn new_debt_lookup_of(debt_type: i32, earning_id: Option<u128>, spending_id: Option<u128>) -> DebtLookup {
    if debt_type == 1 {
        DebtLookup::Earning(match earning_id { Some(e) => e, None => 0 })
    } else if debt_type == 2 {
        DebtLookup::Spending(match spending_id { Some(s) => s, None => 0 })
    } else {
        DebtLookup::Nothing
    }
}

/// Which record a new debt must point at.
pub fn new_debt_lookup(debt_type: i32, earning_id: Option<u128>, spending_id: Option<u128>) -> (r: DebtLookup)
    ensures
        r == new_debt_lookup_of(debt_type, earning_id, spending_id),
{
    if debt_type == 1 {
        DebtLookup::Earning(match earning_id { Some(e) => e, None => 0 })
    } else if debt_type == 2 {
        DebtLookup::Spending(match spending_id { Some(s) => s, None => 0 })
    } else {
        DebtLookup::Nothing
    }
}

/// A link of a new debt as stored: the given id, or the nil id.
pub fn debt_link(id: Option<u128>) -> (r: u128)
    ensures
        r == match id { Some(v) => v, None => 0 },
{
    match id {
        Some(v) => v,
        None => 0,
    }
}

/// A new debt is written only when the record it points at was found.
pub fn new_debt_outcome(found: bool) -> (r: Result<(), Rejection>)
    ensures
        r is Ok <==> found,
        !found ==> refused(r) == Some(rej(400, "Failed to create debt"@, "Statement Invalid, no transaction found"@)),
{
    if found { Ok(()) } else { Err(Rejection::new(400, "Failed to create debt", "Statement Invalid, no transaction found")) }
}

/// A debt to update must exist.
pub fn debt_found(found: bool) -> (r: Result<(), Rejection>)
    ensures
        r is Ok <==> found,
        !found ==> refused(r) == Some(rej(400, "Failed to retrieve debt"@, "Debt not found"@)),
{
    if found { Ok(()) } else { Err(Rejection::new(400, "Failed to retrieve debt", "Debt not found")) }
}

/// The record that settles a debt, the opposite of the one it was made
/// with: a type 1 debt's stored earning link is looked up as a spending, a
/// type 2 debt's stored spending link as an earning.
pub open spec fn settle_lookup_of(debt_type: i32, earning_id: Option<u128>, spending_id: Option<u128>) -> DebtLookup {
    if debt_type == 1 {
        DebtLookup::Spending(match earning_id { Some(e) => e, None => 0 })
    } else if debt_type == 2 {
        DebtLookup::Earning(match spending_id { Some(s) => s, None => 0 })
    } else {
        DebtLookup::Nothing
    }
}

/// Which record settles a stored debt.
pub fn settle_lookup(debt_type: i32, earning_id: Option<u128>, spending_id: Option<u128>) -> (r: DebtLookup)
    ensures
        r == settle_lookup_of(debt_type, earning_id, spending_id),
{
    if debt_type == 1 {
        DebtLookup::Spending(match earning_id { Some(e) => e, None => 0 })
    } else if debt_type == 2 {
        DebtLookup::Earning(match spending_id { Some(s) => s, None => 0 })
    } else {
        DebtLookup::Nothing
    }
}

/// What a new debt does next.
pub enum DebtNext {
    /// Look the record the debt points at up among the caller's.
    Find(DebtLookup),
    Refuse(Rejection),
    /// Write the debt with these earning and spending links.
    Write(u128, u128),
}

/// A new debt, step by step: it must point at a record of the caller's of
/// the kind its type names, which is looked up; then it is written with both
/// links, a missing one as the nil id.
pub open spec fn debt_decision(debt_type: i32, earning_id: Option<u128>, spending_id: Option<u128>, found: Option<bool>) -> Result<(u128, u128), Option<DebtLookup>> {
    let lookup = new_debt_lookup_of(debt_type, earning_id, spending_id);
    let links = (match earning_id { Some(e) => e, None => 0 }, match spending_id { Some(s) => s, None => 0 });
    if lookup is Nothing {
        Err(None)
    } else {
        match found {
            None => Err(Some(lookup)),
            Some(true) => Ok(links),
            Some(false) => Err(None),
        }
    }
}

/// The next step of a new debt; `found` is whether the record it points at
/// was found, once looked up.
pub fn new_debt_next(debt_type: i32, earning_id: Option<u128>, spending_id: Option<u128>, found: Option<bool>) -> (r: DebtNext)
    ensures
        r matches DebtNext::Find(l) ==> debt_decision(debt_type, earning_id, spending_id, found) == Err::<(u128, u128), Option<DebtLookup>>(Some(l)),
        r matches DebtNext::Write(e, s) ==> debt_decision(debt_type, earning_id, spending_id, found) == Ok::<(u128, u128), Option<DebtLookup>>((e, s)),
        r matches DebtNext::Refuse(e) ==> debt_decision(debt_type, earning_id, spending_id, found) == Err::<(u128, u128), Option<DebtLookup>>(None)
            && e@ == rej(400, "Failed to create debt"@, "Statement Invalid, no transaction found"@),
        debt_decision(debt_type, earning_id, spending_id, found) matches Err(None) ==> r is Refuse,
{
    let lookup = new_debt_lookup(debt_type, earning_id, spending_id);
    let ok = match lookup {
        DebtLookup::Nothing => false,
        _ => match found {
            None => return DebtNext::Find(lookup),
            Some(f) => f,
        },
    };
    match new_debt_outcome(ok) {
        Err(e) => DebtNext::Refuse(e),
        Ok(()) => DebtNext::Write(debt_link(earning_id), debt_link(spending_id)),
    }
}

/// An id text read as a UUID, `None` when it is not one.
pub open spec fn id_text_of(raw: Option<Seq<char>>) -> Option<u128> {
    match raw {
        Some(t) => uuid_text_value(t),
        None => None,
    }
}

fn parse_optional_id(raw: &Option<String>) -> (r: Option<u128>)
    ensures
        r == id_text_of(match raw { Some(s) => Some(s@), None => None }),
{
    match raw {
        Some(s) => match uuid_parse(s.as_str()) {
            Ok(v) => Some(v),
            Err(_) => None,
        },
        None => None,
    }
}

/// The links of a debt once settled: when the settling record was found, a
/// type 1 debt takes the spending link and a type 2 debt the earning link
/// from the request (read as UUIDs); the other link is kept.
pub open spec fn settled_links_of(
    debt_type: i32,
    found: bool,
    earning_id: Option<u128>,
    spending_id: Option<u128>,
    param_earning: Option<Seq<char>>,
    param_spending: Option<Seq<char>>,
) -> Result<(Option<u128>, Option<u128>), RejectionView> {
    if found && debt_type == 1 {
        Ok((earning_id, id_text_of(param_spending)))
    } else if found && debt_type == 2 {
        Ok((id_text_of(param_earning), spending_id))
    } else {
        Err(rej(400, "Failed to update debt"@, "Transaction data not found"@))
    }
}

/// The links a debt is stored with after it is settled.
pub fn settled_links(
    debt_type: i32,
    found: bool,
    earning_id: Option<u128>,
    spending_id: Option<u128>,
    param: &DebtParam,
) -> (r: Result<(Option<u128>, Option<u128>), Rejection>)
    ensures
        match (r, settled_links_of(debt_type, found, earning_id, spending_id,
            match param.debt_earning_id { Some(s) => Some(s@), None => None },
            match param.debt_spending_id { Some(s) => Some(s@), None => None })) {
            (Ok(a), Ok(b)) => a == b,
            (Err(a), Err(b)) => a@ == b,
            _ => false,
        },
{
    if found && debt_type == 1 {
        Ok((earning_id, parse_optional_id(&param.debt_spending_id)))
    } else if found && debt_type == 2 {
        Ok((parse_optional_id(&param.debt_earning_id), spending_id))
    } else {
        Err(Rejection::new(400, "Failed to update debt", "Transaction data not found"))
    }
}

/// A debt is written only when it points at a record of the kind its type
/// names (type 1 an earning, type 2 a spending) and that record was found;
/// it is written with the links sent, a missing one as the nil id.
pub proof fn law_debts_point_at_found_records(debt_type: i32, earning_id: Option<u128>, spending_id: Option<u128>, found: Option<bool>)
    ensures
        debt_decision(debt_type, earning_id, spending_id, found) is Ok ==> {
            &&& found == Some(true)
            &&& (debt_type == 1 || debt_type == 2)
        },
        debt_decision(debt_type, earning_id, spending_id, found) matches Ok((e, s)) ==> {
            &&& e == (match earning_id { Some(v) => v, None => 0 })
            &&& s == (match spending_id { Some(v) => v, None => 0 })
        },
{
}

/// A stored debt as far as settling it goes.
pub struct StoredDebt {
    pub debt_type: i32,
    pub earning_id: Option<u128>,
    pub spending_id: Option<u128>,
}

/// What settling a debt does next.
pub enum DebtSettleNext {
    /// Look the caller's debt up by the id sent.
    FindDebt,
    /// Look the record that settles it up among the caller's.
    Find(DebtLookup),
    Refuse(Rejection),
    /// Store the debt with these earning and spending links.
    Update(Option<u128>, Option<u128>),
}

/// The abstract next step of settling a debt.
pub enum DebtSettleDecision {
    FindDebt,
    Find(DebtLookup),
    Refuse(RejectionView),
    Update(Option<u128>, Option<u128>),
}

/// The abstract view of the next step.
pub open spec fn settle_next_view(n: DebtSettleNext) -> DebtSettleDecision {
    match n {
        DebtSettleNext::FindDebt => DebtSettleDecision::FindDebt,
        DebtSettleNext::Find(l) => DebtSettleDecision::Find(l),
        DebtSettleNext::Refuse(e) => DebtSettleDecision::Refuse(e@),
        DebtSettleNext::Update(e, s) => DebtSettleDecision::Update(e, s),
    }
}

/// Settling a debt, step by step: the debt must be the caller's; the record
/// that settles it (the opposite kind of the one it was made with) must be
/// found; then the link of that kind is taken from the request.
pub open spec fn debt_settle_decision(
    debt: Option<Option<StoredDebt>>,
    found: Option<bool>,
    param_earning: Option<Seq<char>>,
    param_spending: Option<Seq<char>>,
) -> DebtSettleDecision {
    match debt {
        None => DebtSettleDecision::FindDebt,
        Some(None) => DebtSettleDecision::Refuse(rej(400, "Failed to retrieve debt"@, "Debt not found"@)),
        Some(Some(d)) => {
            let lookup = settle_lookup_of(d.debt_type, d.earning_id, d.spending_id);
            if lookup is Nothing {
                DebtSettleDecision::Refuse(rej(400, "Failed to update debt"@, "Transaction data not found"@))
            } else {
                match found {
                    None => DebtSettleDecision::Find(lookup),
                    Some(f) => match settled_links_of(d.debt_type, f, d.earning_id, d.spending_id, param_earning, param_spending) {
                        Ok((e, s)) => DebtSettleDecision::Update(e, s),
                        Err(v) => DebtSettleDecision::Refuse(v),
                    },
                }
            }
        },
    }
}

/// Settling a found debt links it to the record that settles it, read from
/// the request as a UUID, and keeps its other link: a debt owed (type 2)
/// takes the repaying earning, a loan given (type 1) the spending. A text
/// that is not a UUID, or none, clears that link. A debt of another type,
/// or one whose settling record was not found, is not updated.
pub proof fn law_settling_links_the_settling_record(
    d: StoredDebt,
    param_earning: Option<Seq<char>>,
    param_spending: Option<Seq<char>>,
)
    ensures
        d.debt_type == 2 ==> debt_settle_decision(Some(Some(d)), Some(true), param_earning, param_spending)
            == DebtSettleDecision::Update(
                match param_earning { Some(t) => uuid_text_value(t), None => None },
                d.spending_id),
        d.debt_type == 1 ==> debt_settle_decision(Some(Some(d)), Some(true), param_earning, param_spending)
            == DebtSettleDecision::Update(
                d.earning_id,
                match param_spending { Some(t) => uuid_text_value(t), None => None }),
        debt_settle_decision(Some(Some(d)), Some(false), param_earning, param_spending) is Refuse,
        (d.debt_type != 1 && d.debt_type != 2) ==> debt_settle_decision(Some(Some(d)), Some(true), param_earning, param_spending) is Refuse,
{
}

/// The next step of settling a debt with the request `param`.
pub fn debt_settle_next(debt: Option<Option<StoredDebt>>, found: Option<bool>, param: &DebtParam) -> (r: DebtSettleNext)
    ensures
        settle_next_view(r) == debt_settle_decision(debt, found,
            match param.debt_earning_id { Some(s) => Some(s@), None => None },
            match param.debt_spending_id { Some(s) => Some(s@), None => None }),
{
    let stored = match debt {
        None => return DebtSettleNext::FindDebt,
        Some(d) => d,
    };
    if let Err(e) = debt_found(stored.is_some()) {
        return DebtSettleNext::Refuse(e);
    }
    let d = match stored {
        Some(d) => d,
        None => return DebtSettleNext::FindDebt,
    };
    let lookup = settle_lookup(d.debt_type, d.earning_id, d.spending_id);
    let f = match lookup {
        DebtLookup::Nothing => false,
        _ => match found {
            None => return DebtSettleNext::Find(lookup),
            Some(f) => f,
        },
    };
    match settled_links(d.debt_type, f, d.earning_id, d.spending_id, param) {
        Err(e) => DebtSettleNext::Refuse(e),
        Ok((e, s)) => DebtSettleNext::Update(e, s),
    }
}

/// A transfer needs an amount above zero (`amount_le_zero` is the amount
/// compared with `<= 0.0`).
pub fn check_transfer_amount(amount_le_zero: bool) -> (r: Result<(), Rejection>)
    ensures
        r is Ok <==> !amount_le_zero,
        amount_le_zero ==> refused(r) == Some(rej(400, "Amount must be positive"@, ""@)),
{
    if amount_le_zero { Err(Rejection::new(400, "Amount must be positive", "")) } else { Ok(()) }
}

/// A retried transfer: answered when the caller sent it, refused when
/// someone else's holds the id. Gives whether it is a repeat.
pub fn transfer_replay(existing_sender: Option<&str>, username: &str) -> (r: Result<bool, Rejection>)
    ensures
        existing_sender is None ==> r == Ok::<bool, Rejection>(false),
        existing_sender matches Some(s) ==> (if s@ == username@ { r == Ok::<bool, Rejection>(true) } else {
            refused(r) == Some(rej(409, "Transfer id already used"@, ""@)) }),
{
    match existing_sender {
        None => Ok(false),
        Some(s) => if str_equal(s, username) { Ok(true) } else { Err(Rejection::new(409, "Transfer id already used", "")) },
    }
}

/// The refusal for someone who shares no group with the caller.
pub open spec fn not_a_group_mate() -> RejectionView {
    rej(404, "Member not found"@, "You can only transfer to people in one of your groups."@)
}

/// A group mate found by name, for reading their sources.
pub fn group_mate(found: Option<String>) -> (r: Result<String, Rejection>)
    ensures
        found matches Some(m) ==> r == Ok::<String, Rejection>(m),
        found is None ==> refused(r) == Some(not_a_group_mate()),
{
    match found {
        Some(m) => Ok(m),
        None => Err(Rejection::new(404, "Member not found", "You can only transfer to people in one of your groups.")),
    }
}

/// The recipient of a transfer: a group mate who is not the caller.
pub fn transfer_recipient(found: Option<String>, username: &str) -> (r: Result<String, Rejection>)
    ensures
        found is None ==> refused(r) == Some(not_a_group_mate()),
        found matches Some(m) ==> (if eq_ignore_ascii_case_seq(m@, username@) {
            refused(r) == Some(rej(400, "Choose someone else"@, "Use a normal transfer to move money between your own sources."@))
        } else {
            r == Ok::<String, Rejection>(m)
        }),
{
    match found {
        None => Err(Rejection::new(404, "Member not found", "You can only transfer to people in one of your groups.")),
        Some(m) => {
            if eq_ignore_ascii_case(m.as_str(), username) {
                Err(Rejection::new(400, "Choose someone else", "Use a normal transfer to move money between your own sources."))
            } else {
                Ok(m)
            }
        },
    }
}

/// The sender's own source, by name.
pub fn sender_source(found: Option<String>) -> (r: Result<String, Rejection>)
    ensures
        found matches Some(n) ==> r == Ok::<String, Rejection>(n),
        found is None ==> refused(r) == Some(rej(400, "Source not found"@, "Send from one of your own sources."@)),
{
    match found {
        Some(n) => Ok(n),
        None => Err(Rejection::new(400, "Source not found", "Send from one of your own sources.")),
    }
}

/// The recipient's source, by name.
pub fn recipient_source(found: Option<String>, recipient: &str) -> (r: Result<String, Rejection>)
    ensures
        found matches Some(n) ==> r == Ok::<String, Rejection>(n),
        found is None ==> refused(r) == Some(rej(400, "Destination source not found"@, "Pick one of "@ + recipient@ + "'s sources."@)),
{
    match found {
        Some(n) => Ok(n),
        None => Err(Rejection::with_description(400, "Destination source not found", concat3("Pick one of ", recipient, "'s sources."))),
    }
}

/// What a transfer between members needs looked up, in this order.
pub enum TransferLookup {
    /// A transfer already holding the id: its sender.
    Existing,
    /// The recipient among the caller's group mates, by the trimmed name sent.
    Recipient,
    /// The caller's own source the money leaves.
    SenderSource,
    /// The recipient's source the money lands in.
    RecipientSource,
    /// The server's Transfer category.
    Category,
}

/// What is known about a transfer so far; `None` marks a lookup not made yet.
pub struct TransferFacts {
    /// The amount compared with `<= 0.0`.
    pub amount_le_zero: bool,
    pub existing_sender: Option<Option<String>>,
    pub recipient: Option<Option<String>>,
    pub sender_source: Option<Option<String>>,
    pub recipient_source: Option<Option<String>>,
    pub category: Option<Option<(u128, String)>>,
}

/// The transfer to store and the two records it writes, and how they are
/// filed; `description` is the trimmed note the transfer itself keeps.
pub struct TransferWrite {
    pub recipient: String,
    pub from_source: String,
    pub to_source: String,
    pub category_id: u128,
    pub category_name: String,
    pub description: String,
    pub texts: TransferTexts,
}

/// What the transfer flow does next.
pub enum TransferNext {
    Find(TransferLookup),
    /// The caller's own earlier transfer with this id: answer with it.
    AnswerExisting,
    Refuse(Rejection),
    Send(TransferWrite),
}

/// The abstract next step.
pub enum TransferDecision {
    Find(TransferLookup),
    AnswerExisting,
    Refuse(RejectionView),
    /// Recipient, sender's source, recipient's source, category id and name,
    /// the transfer's own (trimmed) description, sender's and recipient's
    /// descriptions.
    Send(Seq<char>, Seq<char>, Seq<char>, u128, Seq<char>, Seq<char>, Seq<char>, Seq<char>),
}

/// The abstract view of the next step.
pub open spec fn transfer_next_view(n: TransferNext) -> TransferDecision {
    match n {
        TransferNext::Find(l) => TransferDecision::Find(l),
        TransferNext::AnswerExisting => TransferDecision::AnswerExisting,
        TransferNext::Refuse(e) => TransferDecision::Refuse(e@),
        TransferNext::Send(w) => TransferDecision::Send(w.recipient@, w.from_source@, w.to_source@,
            w.category_id, w.category_name@, w.description@, w.texts.sender@, w.texts.recipient@),
    }
}

/// A transfer between members, step by step: the amount must be positive;
/// a retried id is answered when the caller sent it and refused otherwise;
/// the recipient must be a group mate other than the caller; the money
/// leaves one of the caller's sources and lands in one of the recipient's;
/// the Transfer category must be configured. Then the transfer is stored
/// with the trimmed note, and both records are written with `Transfer
/// to/from` descriptions carrying it.
pub open spec fn transfer_decision(
    amount_le_zero: bool,
    existing_sender: Option<Option<Seq<char>>>,
    recipient: Option<Option<Seq<char>>>,
    sender_source: Option<Option<Seq<char>>>,
    recipient_source: Option<Option<Seq<char>>>,
    category: Option<Option<(u128, Seq<char>)>>,
    username: Seq<char>,
    description: Seq<char>,
) -> TransferDecision {
    if amount_le_zero {
        TransferDecision::Refuse(rej(400, "Amount must be positive"@, ""@))
    } else {
        match existing_sender {
            None => TransferDecision::Find(TransferLookup::Existing),
            Some(Some(s)) => if s == username {
                TransferDecision::AnswerExisting
            } else {
                TransferDecision::Refuse(rej(409, "Transfer id already used"@, ""@))
            },
            Some(None) => match recipient {
                None => TransferDecision::Find(TransferLookup::Recipient),
                Some(None) => TransferDecision::Refuse(not_a_group_mate()),
                Some(Some(m)) => if eq_ignore_ascii_case_seq(m, username) {
                    TransferDecision::Refuse(rej(400, "Choose someone else"@, "Use a normal transfer to move money between your own sources."@))
                } else {
                    match sender_source {
                        None => TransferDecision::Find(TransferLookup::SenderSource),
                        Some(None) => TransferDecision::Refuse(rej(400, "Source not found"@, "Send from one of your own sources."@)),
                        Some(Some(from)) => match recipient_source {
                            None => TransferDecision::Find(TransferLookup::RecipientSource),
                            Some(None) => TransferDecision::Refuse(rej(400, "Destination source not found"@, "Pick one of "@ + m + "'s sources."@)),
                            Some(Some(to)) => match category {
                                None => TransferDecision::Find(TransferLookup::Category),
                                Some(None) => TransferDecision::Refuse(rej(503, "Transfer category is not configured on the server"@, ""@)),
                                Some(Some((id, name))) => TransferDecision::Send(m, from, to, id, name, trim_seq(description),
                                    with_note("Transfer to "@ + m, description), with_note("Transfer from "@ + username, description)),
                            },
                        },
                    }
                },
            },
        }
    }
}

/// The next step of a transfer from the caller `username`, given what is
/// known; `description` is the note sent with it.
pub fn member_transfer_next(facts: TransferFacts, username: &str, description: &str) -> (r: TransferNext)
    ensures
        transfer_next_view(r) == transfer_decision(facts.amount_le_zero, known_text(facts.existing_sender),
            known_text(facts.recipient), known_text(facts.sender_source), known_text(facts.recipient_source),
            known_named(facts.category), username@, description@),
{
    let TransferFacts { amount_le_zero, existing_sender, recipient, sender_source: from_fact, recipient_source: to_fact, category } = facts;
    if let Err(e) = check_transfer_amount(amount_le_zero) {
        return TransferNext::Refuse(e);
    }
    let existing = match existing_sender {
        None => return TransferNext::Find(TransferLookup::Existing),
        Some(e) => e,
    };
    let replay = match &existing {
        Some(s) => transfer_replay(Some(s.as_str()), username),
        None => transfer_replay(None, username),
    };
    match replay {
        Err(e) => return TransferNext::Refuse(e),
        Ok(true) => return TransferNext::AnswerExisting,
        Ok(false) => {},
    }
    let found = match recipient {
        None => return TransferNext::Find(TransferLookup::Recipient),
        Some(f) => f,
    };
    let mate = match transfer_recipient(found, username) {
        Err(e) => return TransferNext::Refuse(e),
        Ok(m) => m,
    };
    let from_found = match from_fact {
        None => return TransferNext::Find(TransferLookup::SenderSource),
        Some(f) => f,
    };
    let from_source = match sender_source(from_found) {
        Err(e) => return TransferNext::Refuse(e),
        Ok(n) => n,
    };
    let to_found = match to_fact {
        None => return TransferNext::Find(TransferLookup::RecipientSource),
        Some(f) => f,
    };
    let to_source = match recipient_source(to_found, mate.as_str()) {
        Err(e) => return TransferNext::Refuse(e),
        Ok(n) => n,
    };
    let wired = match category {
        None => return TransferNext::Find(TransferLookup::Category),
        Some(c) => c,
    };
    let (category_id, category_name) = match crate::group_fund::transfer_category_required(wired) {
        Err(e) => return TransferNext::Refuse(e),
        Ok(c) => c,
    };
    let texts = transfer_texts(username, mate.as_str(), description);
    let note = to_owned_string(trim(description));
    TransferNext::Send(TransferWrite { recipient: mate, from_source, to_source, category_id, category_name, description: note, texts })
}

/// A transfer is written only when every check passed: the amount is
/// positive, the id is new, the recipient is a group mate who is not the
/// caller, both sources were found and the Transfer category is configured.
/// It goes to that recipient, between those sources, under that category,
/// keeps the trimmed note, and its records read `Transfer to <recipient>`
/// and `Transfer from <caller>` with the note.
pub proof fn law_transfer_sent_only_when_checked(
    amount_le_zero: bool,
    existing_sender: Option<Option<Seq<char>>>,
    recipient: Option<Option<Seq<char>>>,
    sender_source: Option<Option<Seq<char>>>,
    recipient_source: Option<Option<Seq<char>>>,
    category: Option<Option<(u128, Seq<char>)>>,
    username: Seq<char>,
    description: Seq<char>,
)
    requires
        transfer_decision(amount_le_zero, existing_sender, recipient, sender_source, recipient_source,
            category, username, description) is Send,
    ensures
        !amount_le_zero,
        existing_sender == Some(None::<Seq<char>>),
        recipient matches Some(Some(m)) && !eq_ignore_ascii_case_seq(m, username),
        sender_source matches Some(Some(_)),
        recipient_source matches Some(Some(_)),
        category matches Some(Some(_)),
        transfer_decision(amount_le_zero, existing_sender, recipient, sender_source, recipient_source,
            category, username, description) matches TransferDecision::Send(m, from, to, id, name, note, sent, received)
        ==> {
            &&& recipient == Some(Some(m))
            &&& sender_source == Some(Some(from))
            &&& recipient_source == Some(Some(to))
            &&& category == Some(Some((id, name)))
            &&& note == trim_seq(description)
            &&& sent == with_note("Transfer to "@ + m, description)
            &&& received == with_note("Transfer from "@ + username, description)
        },
{
}

/// The descriptions of a transfer's two records: the sender's spending and
/// the recipient's earning.
pub struct TransferTexts {
    pub sender: String,
    pub recipient: String,
}

/// `Transfer to <recipient>` and `Transfer from <sender>`, each followed by
/// the trimmed description when there is one.
pub fn transfer_texts(sender: &str, recipient: &str, description: &str) -> (r: TransferTexts)
    ensures
        r.sender@ == with_note("Transfer to "@ + recipient@, description@),
        r.recipient@ == with_note("Transfer from "@ + sender@, description@),
{
    TransferTexts {
        sender: append_note(concat2("Transfer to ", recipient), description),
        recipient: append_note(concat2("Transfer from ", sender), description),
    }
}

} // verus!
