//! Rules of money asked from, or sent to, a group mate for a purpose (a
//! tag): who is who, what a request must hold, and who may answer it.
use vstd::prelude::*;
use vstd::string::*;
use crate::text::{concat2, concat3, eq_ignore_ascii_case, eq_ignore_ascii_case_seq, normalize,
    normalized, str_equal, to_owned_string, trim, trim_seq, trimmed};
use crate::responses::{Rejection, RejectionView, rej, refused, known_text, known_named, named_view};

verus! {

/// Body of a waiver: an optional note.
pub struct FundWaiveInput {
    pub note: String,
}

impl Default for FundWaiveInput {
    fn default() -> (r: FundWaiveInput)
        ensures
            r.note@ == Seq::<char>::empty(),
    {
        FundWaiveInput { note: String::new() }
    }
}

/// Whether the caller leads the group: the leader's name compared without
/// regard to ASCII case. A group without a leader is treated as missing.
pub fn leader_flag(leader: Option<&str>, username: &str) -> (r: Result<bool, Rejection>)
    ensures
        leader matches Some(l) ==> r == Ok::<bool, Rejection>(eq_ignore_ascii_case_seq(l@, username@)),
        leader is None ==> refused(r) == Some(rej(404, "Group not found"@, ""@)),
{
    match leader {
        Some(l) => Ok(eq_ignore_ascii_case(l, username)),
        None => Err(Rejection::new(404, "Group not found", "")),
    }
}

/// A fund is either asked for or sent straight away.
pub enum FundKind {
    /// The caller asks the other member for money.
    Request,
    /// The caller sends the other member money now.
    Send,
}

/// The kind named by a (normalized) kind text.
pub open spec fn fund_kind_of(kind: Seq<char>) -> Option<FundKind> {
    if kind == "request"@ {
        Some(FundKind::Request)
    } else if kind == "send"@ {
        Some(FundKind::Send)
    } else {
        None
    }
}

/// The kind a new fund is asked with when the body names none.
pub fn default_kind() -> (r: String)
    ensures
        r@ == "request"@,
{
    to_owned_string("request")
}

/// The kind as stored.
pub open spec fn kind_text(k: FundKind) -> Seq<char> {
    match k {
        FundKind::Request => "request"@,
        FundKind::Send => "send"@,
    }
}

/// The kind's stored text.
pub fn fund_kind_text(k: &FundKind) -> (r: String)
    ensures
        r@ == kind_text(*k),
{
    match k {
        FundKind::Request => to_owned_string("request"),
        FundKind::Send => to_owned_string("send"),
    }
}

/// A new fund's kind and tag once checked.
pub struct FundHead {
    pub kind: FundKind,
    pub tag: String,
}

/// The refusal a new fund meets, if any: an unknown kind, then an amount not
/// above zero, then a blank tag.
pub open spec fn fund_refusal(kind_raw: Seq<char>, amount_le_zero: bool, tag_raw: Seq<char>) -> Option<RejectionView> {
    if fund_kind_of(normalized(kind_raw)) is None {
        Some(rej(400, "kind must be request or send"@, ""@))
    } else if amount_le_zero {
        Some(rej(400, "Amount must be positive"@, ""@))
    } else if trim_seq(tag_raw).len() == 0 {
        Some(rej(400, "Pick a tag (what the money is for)"@, ""@))
    } else {
        None
    }
}

/// Checks a new fund's kind (trimmed, lower-cased), amount (`amount_le_zero`
/// is the amount compared with `<= 0.0`) and tag (trimmed).
pub fn check_fund_input(kind_raw: &str, amount_le_zero: bool, tag_raw: &str) -> (r: Result<FundHead, Rejection>)
    ensures
        refused(r) == fund_refusal(kind_raw@, amount_le_zero, tag_raw@),
        r matches Ok(h) ==> fund_kind_of(normalized(kind_raw@)) == Some(h.kind) && h.tag@ == trim_seq(tag_raw@),
{
    let kind_text = normalize(kind_raw);
    let kind = if str_equal(kind_text.as_str(), "request") {
        FundKind::Request
    } else if str_equal(kind_text.as_str(), "send") {
        FundKind::Send
    } else {
        return Err(Rejection::new(400, "kind must be request or send", ""));
    };
    if amount_le_zero {
        return Err(Rejection::new(400, "Amount must be positive", ""));
    }
    let tag = trimmed(tag_raw);
    if tag.as_str().unicode_len() == 0 {
        return Err(Rejection::new(400, "Pick a tag (what the money is for)", ""));
    }
    Ok(FundHead { kind, tag })
}

/// A retried fund: answered when the caller created it in this group,
/// refused when the id belongs to anything else, new otherwise. Gives
/// whether it is a repeat.
pub fn fund_replay(existing: Option<(&str, u128)>, username: &str, group_id: u128) -> (r: Result<bool, Rejection>)
    ensures
        existing is None ==> r == Ok::<bool, Rejection>(false),
        existing matches Some((creator, g)) ==> (
            if creator@ == username@ && g == group_id {
                r == Ok::<bool, Rejection>(true)
            } else {
                refused(r) == Some(rej(409, "Request id already used"@, ""@))
            }),
{
    match existing {
        None => Ok(false),
        Some((creator, g)) => {
            if str_equal(creator, username) && g == group_id {
                Ok(true)
            } else {
                Err(Rejection::new(409, "Request id already used", ""))
            }
        },
    }
}

/// The other member of a fund, as the group's member list spells them: not
/// the caller, and a member of the group.
pub fn fund_counterpart(found: Option<String>, username: &str) -> (r: Result<String, Rejection>)
    ensures
        found matches Some(n) ==> (
            if eq_ignore_ascii_case_seq(n@, username@) {
                refused(r) == Some(rej(400, "Choose someone else"@, ""@))
            } else {
                r == Ok::<String, Rejection>(n)
            }),
        found is None ==> refused(r) == Some(rej(404, "Member not found"@, "They must be a member of this group."@)),
{
    match found {
        Some(n) => {
            if eq_ignore_ascii_case(n.as_str(), username) {
                Err(Rejection::new(400, "Choose someone else", ""))
            } else {
                Ok(n)
            }
        },
        None => Err(Rejection::new(404, "Member not found", "They must be a member of this group.")),
    }
}

/// Who receives and who gives: asking makes the caller the requester,
/// sending makes the caller the payer.
pub open spec fn parties_of(kind: FundKind, username: Seq<char>, other: Seq<char>) -> (Seq<char>, Seq<char>) {
    match kind {
        FundKind::Request => (username, other),
        FundKind::Send => (other, username),
    }
}

/// The requester (who receives) and the payer (who gives) of a new fund.
pub fn fund_parties(kind: &FundKind, username: &str, other: String) -> (r: (String, String))
    ensures
        (r.0@, r.1@) == parties_of(*kind, username@, other@),
{
    match kind {
        FundKind::Request => (to_owned_string(username), other),
        FundKind::Send => (other, to_owned_string(username)),
    }
}

/// The two members of a fund are never the same person: whichever kind it
/// is, the caller is one side and the other side is a member who is not the
/// caller.
pub proof fn law_fund_parties_differ(kind: FundKind, username: Seq<char>, other: Seq<char>)
    requires
        !eq_ignore_ascii_case_seq(other, username),
    ensures
        parties_of(kind, username, other).0 != parties_of(kind, username, other).1,
        parties_of(kind, username, other).0 == username || parties_of(kind, username, other).1 == username,
{
    if other == username {
        assert(eq_ignore_ascii_case_seq(other, username));
    }
}

/// Each side of a fund has its own rights, never the other's: the member who
/// receives (the requester) can neither send the money nor turn the request
/// down, and the member who gives (the payer) cannot withdraw it.
pub proof fn law_fund_roles_are_exclusive(
    kind: FundKind,
    username: Seq<char>,
    other: Seq<char>,
    status: Seq<char>,
)
    requires
        !eq_ignore_ascii_case_seq(other, username),
    ensures
        fulfil_refusal_of(parties_of(kind, username, other).1, status, parties_of(kind, username, other).0) is Some,
        !may_close(CloseKind::Reject, parties_of(kind, username, other).0, parties_of(kind, username, other).1, parties_of(kind, username, other).0),
        !may_close(CloseKind::Cancel, parties_of(kind, username, other).0, parties_of(kind, username, other).1, parties_of(kind, username, other).1),
{
    if eq_ignore_ascii_case_seq(username, other) {
        assert forall|i: int| 0 <= i < other.len() implies
            crate::text::ascii_lower(#[trigger] other[i]) == crate::text::ascii_lower(username[i]) by {
            assert(crate::text::ascii_lower(username[i]) == crate::text::ascii_lower(other[i]));
        }
    }
}

/// A text followed by `: <note>` when the trimmed note is not empty.
pub open spec fn with_note(text: Seq<char>, note: Seq<char>) -> Seq<char> {
    if trim_seq(note).len() == 0 {
        text
    } else {
        text + ": "@ + trim_seq(note)
    }
}

/// The text with the trimmed note appended, when there is one.
pub fn append_note(text: String, note: &str) -> (r: String)
    ensures
        r@ == with_note(text@, note@),
{
    let n = trim(note);
    if n.unicode_len() == 0 {
        text
    } else {
        let mut r = text;
        r.append(": ");
        r.append(n);
        r
    }
}

/// The descriptions of the two records a fund transfer writes: the payer's
/// spending and the requester's earning.
pub struct FundTexts {
    pub payer: String,
    pub receiver: String,
}

/// `Funds to <requester> for <tag>` and `Funds from <payer> for <tag>`, each
/// with the note.
pub fn fund_texts(requester: &str, payer: &str, tag: &str, note: &str) -> (r: FundTexts)
    ensures
        r.payer@ == with_note("Funds to "@ + requester@ + " for "@ + tag@, note@),
        r.receiver@ == with_note("Funds from "@ + payer@ + " for "@ + tag@, note@),
{
    let mut to = concat3("Funds to ", requester, " for ");
    to.append(tag);
    let mut from = concat3("Funds from ", payer, " for ");
    from.append(tag);
    FundTexts { payer: append_note(to, note), receiver: append_note(from, note) }
}

/// The description of the member transfer that moves a fund: `<tag> funds`,
/// followed by `: <note>` when the note is not empty.
pub open spec fn transfer_description_of(tag: Seq<char>, note: Seq<char>) -> Seq<char> {
    tag + " funds"@ + (if note.len() == 0 { ""@ } else { ": "@ + note })
}

/// The description of a fund's member transfer.
pub fn fund_transfer_description(tag: &str, note: &str) -> (r: String)
    ensures
        r@ == transfer_description_of(tag@, note@),
{
    let mut r = concat2(tag, " funds");
    if note.unicode_len() == 0 {
        r.append("");
    } else {
        r.append(": ");
        r.append(note);
    }
    r
}

/// What the store reports after changing a fund.
pub enum FundOutcome {
    Done,
    Gone,
    /// The fund is in this status, which the change does not apply to.
    WrongStatus(String),
}

/// The refusal of a change to a fund in `status`.
pub open spec fn fund_wrong_status(status: Seq<char>) -> RejectionView {
    rej(409, "This request can no longer be changed"@, "It is "@ + status + "."@)
}

/// The answer to a change the store could not make.
pub fn fund_outcome(outcome: FundOutcome) -> (r: Result<(), Rejection>)
    ensures
        outcome is Done <==> r is Ok,
        outcome is Gone ==> refused(r) == Some(rej(404, "Request not found"@, ""@)),
        outcome matches FundOutcome::WrongStatus(s) ==> refused(r) == Some(fund_wrong_status(s@)),
{
    match outcome {
        FundOutcome::Done => Ok(()),
        FundOutcome::Gone => Err(Rejection::new(404, "Request not found", "")),
        FundOutcome::WrongStatus(s) => Err(Rejection::with_description(409, "This request can no longer be changed", concat3("It is ", s.as_str(), "."))),
    }
}

/// A fund is found only inside the group it was made in.
pub fn fund_in_group(found_group: Option<u128>, group_id: u128) -> (r: Result<(), Rejection>)
    ensures
        r is Ok <==> found_group == Some(group_id),
        r is Err ==> refused(r) == Some(rej(404, "Request not found"@, ""@)),
{
    match found_group {
        Some(g) => if g == group_id { Ok(()) } else { Err(Rejection::new(404, "Request not found", "")) },
        None => Err(Rejection::new(404, "Request not found", "")),
    }
}

/// Sending a waiting request: only its payer may, and only while it is
/// `requested`. The refusal, if any.
pub open spec fn fulfil_refusal_of(payer: Seq<char>, status: Seq<char>, username: Seq<char>) -> Option<RejectionView> {
    if !eq_ignore_ascii_case_seq(payer, username) {
        Some(rej(403, "Only the person asked can send it"@, ""@))
    } else if status != "requested"@ {
        Some(fund_wrong_status(status))
    } else {
        None
    }
}

/// Checks that the caller may send a waiting fund.
pub fn check_fulfil(payer: &str, status: &str, username: &str) -> (r: Result<(), Rejection>)
    ensures
        refused(r) == fulfil_refusal_of(payer@, status@, username@),
{
    if !eq_ignore_ascii_case(payer, username) {
        return Err(Rejection::new(403, "Only the person asked can send it", ""));
    }
    if !str_equal(status, "requested") {
        return Err(Rejection::with_description(409, "This request can no longer be changed", concat3("It is ", status, ".")));
    }
    Ok(())
}

/// Where a sent request lands: the source the requester chose when asking,
/// else the one the payer names now, which must then be given.
pub fn fulfil_destination(chosen: Option<u128>, named: Option<u128>) -> (r: Result<u128, Rejection>)
    ensures
        chosen matches Some(id) ==> r == Ok::<u128, Rejection>(id),
        chosen is None && named is Some ==> r == Ok::<u128, Rejection>(named->0),
        chosen is None && named is None ==> refused(r) == Some(rej(400, "Choose which of their sources receives it"@, ""@)),
{
    match chosen {
        Some(id) => Ok(id),
        None => match named {
            Some(id) => Ok(id),
            None => Err(Rejection::new(400, "Choose which of their sources receives it", "")),
        },
    }
}

/// How a waiting fund is closed without money moving.
pub enum CloseKind {
    /// The payer turns it down.
    Reject,
    /// The requester withdraws it.
    Cancel,
}

/// The status a close moves a fund to.
pub open spec fn close_status_of(k: CloseKind) -> Seq<char> {
    match k {
        CloseKind::Reject => "rejected"@,
        CloseKind::Cancel => "canceled"@,
    }
}

/// The status text of a close.
pub fn close_status(k: &CloseKind) -> (r: String)
    ensures
        r@ == close_status_of(*k),
{
    match k {
        CloseKind::Reject => to_owned_string("rejected"),
        CloseKind::Cancel => to_owned_string("canceled"),
    }
}

/// Only the payer can reject a fund and only the requester can withdraw it.
pub open spec fn may_close(k: CloseKind, requester: Seq<char>, payer: Seq<char>, username: Seq<char>) -> bool {
    match k {
        CloseKind::Reject => eq_ignore_ascii_case_seq(payer, username),
        CloseKind::Cancel => eq_ignore_ascii_case_seq(requester, username),
    }
}

/// Checks that the caller may close the fund this way.
pub fn check_close(k: &CloseKind, requester: &str, payer: &str, username: &str) -> (r: Result<(), Rejection>)
    ensures
        r is Ok <==> may_close(*k, requester@, payer@, username@),
        (r is Err && *k is Reject) ==> refused(r) == Some(rej(403, "Only the person asked can reject it"@, ""@)),
        (r is Err && *k is Cancel) ==> refused(r) == Some(rej(403, "Only the person who asked can withdraw it"@, ""@)),
{
    match k {
        CloseKind::Reject => {
            if eq_ignore_ascii_case(payer, username) {
                Ok(())
            } else {
                Err(Rejection::new(403, "Only the person asked can reject it", ""))
            }
        },
        CloseKind::Cancel => {
            if eq_ignore_ascii_case(requester, username) {
                Ok(())
            } else {
                Err(Rejection::new(403, "Only the person who asked can withdraw it", ""))
            }
        },
    }
}

/// Waiving is the group leader's alone.
pub fn require_waiver(is_leader: bool) -> (r: Result<(), Rejection>)
    ensures
        r is Ok <==> is_leader,
        !is_leader ==> refused(r) == Some(rej(403, "Only the group admin can waive a fund"@, ""@)),
{
    if is_leader {
        Ok(())
    } else {
        Err(Rejection::new(403, "Only the group admin can waive a fund", ""))
    }
}

/// Where a newly sent fund's money comes from and lands: both must be named.
pub fn send_sources(from: Option<u128>, to: Option<u128>) -> (r: Result<(u128, u128), Rejection>)
    ensures
        (from matches Some(f) && to matches Some(t)) ==> r == Ok::<(u128, u128), Rejection>((from->0, to->0)),
        (from is None || to is None) ==> refused(r) == Some(rej(400, "Choose where the money comes from and where it goes"@, "Send from_source_id (yours) and to_source_id (theirs)."@)),
{
    match (from, to) {
        (Some(f), Some(t)) => Ok((f, t)),
        _ => Err(Rejection::new(400, "Choose where the money comes from and where it goes", "Send from_source_id (yours) and to_source_id (theirs).")),
    }
}

/// The payer's own source, when found among theirs.
pub fn payer_source_found(found: Option<String>) -> (r: Result<String, Rejection>)
    ensures
        found matches Some(n) ==> r == Ok::<String, Rejection>(n),
        found is None ==> refused(r) == Some(rej(400, "Send from one of your own sources"@, ""@)),
{
    match found {
        Some(n) => Ok(n),
        None => Err(Rejection::new(400, "Send from one of your own sources", "")),
    }
}

/// The requester's own source, when found among theirs.
pub fn requester_source_found(found: Option<String>, requester: &str) -> (r: Result<String, Rejection>)
    ensures
        found matches Some(n) ==> r == Ok::<String, Rejection>(n),
        found is None ==> refused(r) == Some(rej(400, "Pick one of "@ + requester@ + "'s sources"@, ""@)),
{
    match found {
        Some(n) => Ok(n),
        None => Err(Rejection::titled(400, concat3("Pick one of ", requester, "'s sources"), "")),
    }
}

/// A receiving source the caller named when asking, which must be theirs.
pub fn receiving_source_found(found: Option<String>) -> (r: Result<String, Rejection>)
    ensures
        found matches Some(n) ==> r == Ok::<String, Rejection>(n),
        found is None ==> refused(r) == Some(rej(400, "Receive into one of your own sources"@, ""@)),
{
    match found {
        Some(n) => Ok(n),
        None => Err(Rejection::new(400, "Receive into one of your own sources", "")),
    }
}

/// The refusal when no Transfer category is configured.
pub fn transfer_category_required<T>(category: Option<T>) -> (r: Result<T, Rejection>)
    ensures
        category matches Some(c) ==> r == Ok::<T, Rejection>(c),
        category is None ==> refused(r) == Some(rej(503, "Transfer category is not configured on the server"@, ""@)),
{
    match category {
        Some(c) => Ok(c),
        None => Err(Rejection::new(503, "Transfer category is not configured on the server", "")),
    }
}

/// The status a new fund starts in: a request waits (`requested`), a send
/// has already moved the money (`sent`).
pub open spec fn initial_fund_status_of(k: FundKind) -> Seq<char> {
    match k {
        FundKind::Request => "requested"@,
        FundKind::Send => "sent"@,
    }
}

/// The status of a new fund.
pub fn initial_fund_status(k: &FundKind) -> (r: String)
    ensures
        r@ == initial_fund_status_of(*k),
{
    match k {
        FundKind::Request => to_owned_string("requested"),
        FundKind::Send => to_owned_string("sent"),
    }
}

/// What a new fund needs looked up, in this order.
pub enum FundLookup {
    /// Whether the caller is a member of the group.
    Membership,
    /// The group's leader.
    Leader,
    /// A fund already holding the id: its creator and group.
    Existing,
    /// The other member, by the trimmed name sent, among the group's members.
    Counterpart,
    /// The caller's own source named to receive a request.
    ReceivingSource,
    /// The payer's own source a sent fund leaves.
    PayerSource,
    /// The requester's source a sent fund lands in.
    RequesterSource,
    /// The server's Transfer category.
    Category,
}

/// What is known about a new fund so far; `None` marks a lookup not made yet.
pub struct FundFacts {
    pub is_member: Option<bool>,
    pub leader: Option<Option<String>>,
    pub existing: Option<Option<(String, u128)>>,
    pub counterpart: Option<Option<String>>,
    pub receiving_source: Option<Option<String>>,
    pub payer_source: Option<Option<String>>,
    pub requester_source: Option<Option<String>>,
    pub category: Option<Option<(u128, String)>>,
}

/// What the request body says of a new fund.
pub struct FundBody {
    pub kind: String,
    /// The amount compared with `<= 0.0`.
    pub amount_le_zero: bool,
    pub tag: String,
    pub note: String,
    pub from_source_id: Option<u128>,
    pub to_source_id: Option<u128>,
}

/// A request to be stored as `requested`.
pub struct FundAsk {
    pub requester: String,
    pub payer: String,
    pub tag: String,
    pub note: String,
    pub to_source: Option<(u128, String)>,
}

/// A fund sent at once: stored as `sent` together with its member transfer.
pub struct FundSend {
    pub requester: String,
    pub payer: String,
    pub tag: String,
    pub note: String,
    pub from_source: (u128, String),
    pub to_source: (u128, String),
    pub category: (u128, String),
    pub texts: FundTexts,
    pub transfer_description: String,
}

/// What the new-fund flow does next.
pub enum FundNext {
    Find(FundLookup),
    /// The caller's own earlier fund with this id in this group: answer with it.
    AnswerExisting,
    Refuse(Rejection),
    Ask(FundAsk),
    Send(FundSend),
}

/// The abstract next step.
pub enum FundDecision {
    Find(FundLookup),
    AnswerExisting,
    Refuse(RejectionView),
    /// Requester, payer, tag, note, and the receiving source if one was named.
    Ask(Seq<char>, Seq<char>, Seq<char>, Seq<char>, Option<(u128, Seq<char>)>),
    /// Requester, payer, tag, note, the two sources, the category, the payer's
    /// and receiver's record texts, and the transfer's description.
    Send(Seq<char>, Seq<char>, Seq<char>, Seq<char>, (u128, Seq<char>), (u128, Seq<char>), (u128, Seq<char>),
        Seq<char>, Seq<char>, Seq<char>),
}

/// The abstract view of the next step.
pub open spec fn fund_next_view(n: FundNext) -> FundDecision {
    match n {
        FundNext::Find(l) => FundDecision::Find(l),
        FundNext::AnswerExisting => FundDecision::AnswerExisting,
        FundNext::Refuse(e) => FundDecision::Refuse(e@),
        FundNext::Ask(a) => FundDecision::Ask(a.requester@, a.payer@, a.tag@, a.note@,
            match a.to_source { Some(t) => Some(named_view(t)), None => None }),
        FundNext::Send(s) => FundDecision::Send(s.requester@, s.payer@, s.tag@, s.note@,
            named_view(s.from_source), named_view(s.to_source), named_view(s.category),
            s.texts.payer@, s.texts.receiver@, s.transfer_description@),
    }
}

/// The existing-fund fact by its characters.
pub open spec fn known_existing(e: Option<Option<(String, u128)>>) -> Option<Option<(Seq<char>, u128)>> {
    match e {
        None => None,
        Some(None) => Some(None),
        Some(Some((c, g))) => Some(Some((c@, g))),
    }
}

/// The part of the new-fund flow once the other member is known: a request
/// is stored, receiving into the caller's named source if one was named; a
/// sent fund needs both sources named and found, and the Transfer category.
pub open spec fn fund_placement(
    kind: FundKind,
    requester: Seq<char>,
    payer: Seq<char>,
    tag: Seq<char>,
    note: Seq<char>,
    from_id: Option<u128>,
    to_id: Option<u128>,
    receiving: Option<Option<Seq<char>>>,
    payer_source: Option<Option<Seq<char>>>,
    requester_source: Option<Option<Seq<char>>>,
    category: Option<Option<(u128, Seq<char>)>>,
) -> FundDecision {
    match kind {
        FundKind::Request => match to_id {
            None => FundDecision::Ask(requester, payer, tag, note, None),
            Some(t) => match receiving {
                None => FundDecision::Find(FundLookup::ReceivingSource),
                Some(None) => FundDecision::Refuse(rej(400, "Receive into one of your own sources"@, ""@)),
                Some(Some(n)) => FundDecision::Ask(requester, payer, tag, note, Some((t, n))),
            },
        },
        FundKind::Send => if from_id is None || to_id is None {
            FundDecision::Refuse(rej(400, "Choose where the money comes from and where it goes"@,
                "Send from_source_id (yours) and to_source_id (theirs)."@))
        } else {
            match payer_source {
                None => FundDecision::Find(FundLookup::PayerSource),
                Some(None) => FundDecision::Refuse(rej(400, "Send from one of your own sources"@, ""@)),
                Some(Some(from_name)) => match requester_source {
                    None => FundDecision::Find(FundLookup::RequesterSource),
                    Some(None) => FundDecision::Refuse(rej(400, "Pick one of "@ + requester + "'s sources"@, ""@)),
                    Some(Some(to_name)) => match category {
                        None => FundDecision::Find(FundLookup::Category),
                        Some(None) => FundDecision::Refuse(rej(503, "Transfer category is not configured on the server"@, ""@)),
                        Some(Some(c)) => FundDecision::Send(requester, payer, tag, note,
                            (from_id->0, from_name), (to_id->0, to_name), c,
                            with_note("Funds to "@ + requester + " for "@ + tag, note),
                            with_note("Funds from "@ + payer + " for "@ + tag, note),
                            transfer_description_of(tag, note)),
                    },
                },
            }
        },
    }
}

/// A new fund, step by step: only members of a group with a leader; the
/// kind, amount and tag are checked; a retried id is answered when the
/// caller made it in this group and refused otherwise; the other member must
/// be in the group and not the caller; then the request is stored or the
/// money is sent (`fund_placement`).
pub open spec fn fund_decision(
    is_member: Option<bool>,
    leader: Option<Option<Seq<char>>>,
    existing: Option<Option<(Seq<char>, u128)>>,
    counterpart: Option<Option<Seq<char>>>,
    receiving: Option<Option<Seq<char>>>,
    payer_source: Option<Option<Seq<char>>>,
    requester_source: Option<Option<Seq<char>>>,
    category: Option<Option<(u128, Seq<char>)>>,
    kind_raw: Seq<char>,
    amount_le_zero: bool,
    tag_raw: Seq<char>,
    note_raw: Seq<char>,
    from_id: Option<u128>,
    to_id: Option<u128>,
    username: Seq<char>,
    group_id: u128,
) -> FundDecision {
    match is_member {
        None => FundDecision::Find(FundLookup::Membership),
        Some(false) => FundDecision::Refuse(rej(404, "Group not found"@, ""@)),
        Some(true) => match leader {
            None => FundDecision::Find(FundLookup::Leader),
            Some(None) => FundDecision::Refuse(rej(404, "Group not found"@, ""@)),
            Some(Some(_)) => match fund_refusal(kind_raw, amount_le_zero, tag_raw) {
                Some(e) => FundDecision::Refuse(e),
                None => match existing {
                    None => FundDecision::Find(FundLookup::Existing),
                    Some(Some((creator, g))) => if creator == username && g == group_id {
                        FundDecision::AnswerExisting
                    } else {
                        FundDecision::Refuse(rej(409, "Request id already used"@, ""@))
                    },
                    Some(None) => match counterpart {
                        None => FundDecision::Find(FundLookup::Counterpart),
                        Some(None) => FundDecision::Refuse(rej(404, "Member not found"@, "They must be a member of this group."@)),
                        Some(Some(other)) => if eq_ignore_ascii_case_seq(other, username) {
                            FundDecision::Refuse(rej(400, "Choose someone else"@, ""@))
                        } else {
                            let kind = fund_kind_of(normalized(kind_raw))->0;
                            fund_placement(kind, parties_of(kind, username, other).0, parties_of(kind, username, other).1,
                                trim_seq(tag_raw), trim_seq(note_raw), from_id, to_id, receiving, payer_source,
                                requester_source, category)
                        },
                    },
                },
            },
        },
    }
}

fn place_fund(
    kind: FundKind,
    requester: String,
    payer: String,
    tag: String,
    note: String,
    from_id: Option<u128>,
    to_id: Option<u128>,
    receiving: Option<Option<String>>,
    payer_fact: Option<Option<String>>,
    requester_fact: Option<Option<String>>,
    category: Option<Option<(u128, String)>>,
) -> (r: FundNext)
    ensures
        fund_next_view(r) == fund_placement(kind, requester@, payer@, tag@, note@, from_id, to_id,
            known_text(receiving), known_text(payer_fact), known_text(requester_fact), known_named(category)),
{
    match kind {
        FundKind::Request => match to_id {
            None => FundNext::Ask(FundAsk { requester, payer, tag, note, to_source: None }),
            Some(t) => {
                let found = match receiving {
                    None => return FundNext::Find(FundLookup::ReceivingSource),
                    Some(f) => f,
                };
                match receiving_source_found(found) {
                    Err(e) => FundNext::Refuse(e),
                    Ok(n) => FundNext::Ask(FundAsk { requester, payer, tag, note, to_source: Some((t, n)) }),
                }
            },
        },
        FundKind::Send => {
            let (f, t) = match send_sources(from_id, to_id) {
                Err(e) => return FundNext::Refuse(e),
                Ok(ids) => ids,
            };
            let from_found = match payer_fact {
                None => return FundNext::Find(FundLookup::PayerSource),
                Some(x) => x,
            };
            let from_name = match payer_source_found(from_found) {
                Err(e) => return FundNext::Refuse(e),
                Ok(n) => n,
            };
            let to_found = match requester_fact {
                None => return FundNext::Find(FundLookup::RequesterSource),
                Some(x) => x,
            };
            let to_name = match requester_source_found(to_found, requester.as_str()) {
                Err(e) => return FundNext::Refuse(e),
                Ok(n) => n,
            };
            let wired = match category {
                None => return FundNext::Find(FundLookup::Category),
                Some(c) => c,
            };
            let cat = match transfer_category_required(wired) {
                Err(e) => return FundNext::Refuse(e),
                Ok(c) => c,
            };
            let texts = fund_texts(requester.as_str(), payer.as_str(), tag.as_str(), note.as_str());
            let transfer_description = fund_transfer_description(tag.as_str(), note.as_str());
            FundNext::Send(FundSend {
                requester, payer, tag, note,
                from_source: (f, from_name),
                to_source: (t, to_name),
                category: cat,
                texts,
                transfer_description,
            })
        },
    }
}

/// The next step of a new fund from the caller `username` in `group_id`.
pub fn fund_request_next(facts: FundFacts, body: &FundBody, username: &str, group_id: u128) -> (r: FundNext)
    ensures
        fund_next_view(r) == fund_decision(facts.is_member, known_text(facts.leader), known_existing(facts.existing),
            known_text(facts.counterpart), known_text(facts.receiving_source), known_text(facts.payer_source),
            known_text(facts.requester_source), known_named(facts.category), body.kind@, body.amount_le_zero,
            body.tag@, body.note@, body.from_source_id, body.to_source_id, username@, group_id),
{
    let FundFacts { is_member, leader, existing, counterpart, receiving_source, payer_source, requester_source, category } = facts;
    let member = match is_member {
        None => return FundNext::Find(FundLookup::Membership),
        Some(m) => m,
    };
    if let Err(e) = crate::group_plan::require_membership(member) {
        return FundNext::Refuse(e);
    }
    let leader_found = match leader {
        None => return FundNext::Find(FundLookup::Leader),
        Some(l) => l,
    };
    let leads = match &leader_found {
        Some(l) => leader_flag(Some(l.as_str()), username),
        None => leader_flag(None, username),
    };
    if let Err(e) = leads {
        return FundNext::Refuse(e);
    }
    let head = match check_fund_input(body.kind.as_str(), body.amount_le_zero, body.tag.as_str()) {
        Err(e) => return FundNext::Refuse(e),
        Ok(h) => h,
    };
    let existing_found = match existing {
        None => return FundNext::Find(FundLookup::Existing),
        Some(e) => e,
    };
    let replay = match &existing_found {
        Some((creator, g)) => fund_replay(Some((creator.as_str(), *g)), username, group_id),
        None => fund_replay(None, username, group_id),
    };
    match replay {
        Err(e) => return FundNext::Refuse(e),
        Ok(true) => return FundNext::AnswerExisting,
        Ok(false) => {},
    }
    let other_found = match counterpart {
        None => return FundNext::Find(FundLookup::Counterpart),
        Some(o) => o,
    };
    let other = match fund_counterpart(other_found, username) {
        Err(e) => return FundNext::Refuse(e),
        Ok(o) => o,
    };
    let FundHead { kind, tag } = head;
    let (requester, payer) = fund_parties(&kind, username, other);
    let note = trimmed(body.note.as_str());
    place_fund(kind, requester, payer, tag, note, body.from_source_id, body.to_source_id,
        receiving_source, payer_source, requester_source, category)
}

/// A fund is sent only by a member of a group that has a leader, for a
/// valid `send` body with a new id, to another member of the group, from a
/// source of the caller's to a source of theirs, filed under the configured
/// Transfer category; and a request is stored only for a `request` body.
/// A sent fund goes from the caller to the member named, a request asks the
/// member named to pay the caller; both keep the trimmed tag and note, and a
/// sent fund's records read `Funds to` and `Funds from` with the tag.
pub proof fn law_fund_sent_only_when_checked(
    is_member: Option<bool>,
    leader: Option<Option<Seq<char>>>,
    existing: Option<Option<(Seq<char>, u128)>>,
    counterpart: Option<Option<Seq<char>>>,
    receiving: Option<Option<Seq<char>>>,
    payer_source: Option<Option<Seq<char>>>,
    requester_source: Option<Option<Seq<char>>>,
    category: Option<Option<(u128, Seq<char>)>>,
    kind_raw: Seq<char>,
    amount_le_zero: bool,
    tag_raw: Seq<char>,
    note_raw: Seq<char>,
    from_id: Option<u128>,
    to_id: Option<u128>,
    username: Seq<char>,
    group_id: u128,
)
    ensures
        fund_decision(is_member, leader, existing, counterpart, receiving, payer_source, requester_source, category,
            kind_raw, amount_le_zero, tag_raw, note_raw, from_id, to_id, username, group_id) is Send ==> {
            &&& is_member == Some(true)
            &&& leader matches Some(Some(_))
            &&& !amount_le_zero
            &&& fund_kind_of(normalized(kind_raw)) == Some(FundKind::Send)
            &&& existing == Some(None::<(Seq<char>, u128)>)
            &&& counterpart matches Some(Some(o)) && !eq_ignore_ascii_case_seq(o, username)
            &&& from_id is Some && to_id is Some
            &&& payer_source matches Some(Some(_))
            &&& requester_source matches Some(Some(_))
            &&& category matches Some(Some(_))
        },
        fund_decision(is_member, leader, existing, counterpart, receiving, payer_source, requester_source, category,
            kind_raw, amount_le_zero, tag_raw, note_raw, from_id, to_id, username, group_id) is Ask ==> {
            &&& is_member == Some(true)
            &&& !amount_le_zero
            &&& fund_kind_of(normalized(kind_raw)) == Some(FundKind::Request)
            &&& existing == Some(None::<(Seq<char>, u128)>)
            &&& counterpart matches Some(Some(o)) && !eq_ignore_ascii_case_seq(o, username)
        },
        fund_decision(is_member, leader, existing, counterpart, receiving, payer_source, requester_source, category,
            kind_raw, amount_le_zero, tag_raw, note_raw, from_id, to_id, username, group_id)
            matches FundDecision::Send(requester, payer, tag, note, from, to, c, sent, received, description) ==> {
            &&& counterpart == Some(Some(requester))
            &&& payer == username
            &&& tag == trim_seq(tag_raw) && note == trim_seq(note_raw)
            &&& from.0 == from_id->0 && payer_source == Some(Some(from.1))
            &&& to.0 == to_id->0 && requester_source == Some(Some(to.1))
            &&& category == Some(Some(c))
            &&& sent == with_note("Funds to "@ + requester + " for "@ + tag, note)
            &&& received == with_note("Funds from "@ + username + " for "@ + tag, note)
            &&& description == tag + " funds"@ + (if note.len() == 0 { ""@ } else { ": "@ + note })
        },
        fund_decision(is_member, leader, existing, counterpart, receiving, payer_source, requester_source, category,
            kind_raw, amount_le_zero, tag_raw, note_raw, from_id, to_id, username, group_id)
            matches FundDecision::Ask(requester, payer, tag, note, into) ==> {
            &&& requester == username
            &&& counterpart == Some(Some(payer))
            &&& tag == trim_seq(tag_raw) && note == trim_seq(note_raw)
            &&& to_id is None ==> into is None
            &&& to_id is Some ==> (receiving matches Some(Some(n)) && into == Some((to_id->0, n)))
        },
{
}

/// What answering a fund needs looked up, in this order.
pub enum FundActLookup {
    Membership,
    Leader,
    /// The fund, by id.
    Fund,
    /// The payer's own source the money leaves.
    PayerSource,
    /// The requester's source the money lands in.
    RequesterSource,
    Category,
}

/// A stored fund as far as answering it goes.
pub struct FundInfo {
    pub group_id: u128,
    pub requester: String,
    pub payer: String,
    pub status: String,
    /// The receiving source the requester chose, if any.
    pub to_source_id: Option<u128>,
    pub tag: String,
    pub note: String,
}

/// How a waiting fund is sent.
pub struct FundSendPlan {
    pub from_source: (u128, String),
    pub to_source: (u128, String),
    pub category: (u128, String),
    pub texts: FundTexts,
    pub transfer_description: String,
}

/// What answering a fund does next.
pub enum FundActNext {
    Find(FundActLookup),
    Refuse(Rejection),
    /// Close the waiting fund with this status.
    Close(String),
    /// Waive the fund with this (trimmed) note.
    Waive(String),
    Send(FundSendPlan),
}

/// The abstract next step.
pub enum FundActDecision {
    Find(FundActLookup),
    Refuse(RejectionView),
    Close(Seq<char>),
    Waive(Seq<char>),
    /// Sources, category, the payer's and receiver's texts, the transfer's
    /// description.
    Send((u128, Seq<char>), (u128, Seq<char>), (u128, Seq<char>), Seq<char>, Seq<char>, Seq<char>),
}

/// The abstract view of the next step.
pub open spec fn fund_act_view(n: FundActNext) -> FundActDecision {
    match n {
        FundActNext::Find(l) => FundActDecision::Find(l),
        FundActNext::Refuse(e) => FundActDecision::Refuse(e@),
        FundActNext::Close(st) => FundActDecision::Close(st@),
        FundActNext::Waive(n) => FundActDecision::Waive(n@),
        FundActNext::Send(p) => FundActDecision::Send(named_view(p.from_source), named_view(p.to_source),
            named_view(p.category), p.texts.payer@, p.texts.receiver@, p.transfer_description@),
    }
}

/// The fund fact by its characters.
pub open spec fn known_fund(x: Option<Option<FundInfo>>) -> Option<Option<(u128, Seq<char>, Seq<char>, Seq<char>, Option<u128>, Seq<char>, Seq<char>)>> {
    match x {
        None => None,
        Some(None) => Some(None),
        Some(Some(i)) => Some(Some((i.group_id, i.requester@, i.payer@, i.status@, i.to_source_id, i.tag@, i.note@))),
    }
}

/// The common start of answering a fund: the caller must be a member of a
/// group with a leader, and the fund one of the group's. Gives whether the
/// caller leads the group and the fund.
pub open spec fn fund_act_start(
    is_member: Option<bool>,
    leader: Option<Option<Seq<char>>>,
    fund: Option<Option<(u128, Seq<char>, Seq<char>, Seq<char>, Option<u128>, Seq<char>, Seq<char>)>>,
    leader_needed: bool,
    group_id: u128,
    username: Seq<char>,
) -> Result<(u128, Seq<char>, Seq<char>, Seq<char>, Option<u128>, Seq<char>, Seq<char>), FundActDecision> {
    match is_member {
        None => Err(FundActDecision::Find(FundActLookup::Membership)),
        Some(false) => Err(FundActDecision::Refuse(rej(404, "Group not found"@, ""@))),
        Some(true) => match leader {
            None => Err(FundActDecision::Find(FundActLookup::Leader)),
            Some(None) => Err(FundActDecision::Refuse(rej(404, "Group not found"@, ""@))),
            Some(Some(l)) => if leader_needed && !eq_ignore_ascii_case_seq(l, username) {
                Err(FundActDecision::Refuse(rej(403, "Only the group admin can waive a fund"@, ""@)))
            } else {
                match fund {
                    None => Err(FundActDecision::Find(FundActLookup::Fund)),
                    Some(None) => Err(FundActDecision::Refuse(rej(404, "Request not found"@, ""@))),
                    Some(Some(f)) => if f.0 != group_id {
                        Err(FundActDecision::Refuse(rej(404, "Request not found"@, ""@)))
                    } else {
                        Ok(f)
                    },
                }
            },
        },
    }
}

fn fund_act_begin(
    is_member: Option<bool>,
    leader: Option<Option<String>>,
    fund: Option<Option<FundInfo>>,
    leader_needed: bool,
    group_id: u128,
    username: &str,
) -> (r: Result<FundInfo, FundActNext>)
    ensures
        match (r, fund_act_start(is_member, known_text(leader), known_fund(fund), leader_needed, group_id, username@)) {
            (Ok(i), Ok(v)) => (i.group_id, i.requester@, i.payer@, i.status@, i.to_source_id, i.tag@, i.note@) == v,
            (Err(n), Err(v)) => fund_act_view(n) == v,
            _ => false,
        },
{
    let m = match is_member {
        None => return Err(FundActNext::Find(FundActLookup::Membership)),
        Some(m) => m,
    };
    if let Err(e) = crate::group_plan::require_membership(m) {
        return Err(FundActNext::Refuse(e));
    }
    let l = match leader {
        None => return Err(FundActNext::Find(FundActLookup::Leader)),
        Some(l) => l,
    };
    let leads = match &l {
        Some(name) => leader_flag(Some(name.as_str()), username),
        None => leader_flag(None, username),
    };
    let is_leader = match leads {
        Err(e) => return Err(FundActNext::Refuse(e)),
        Ok(b) => b,
    };
    if leader_needed {
        if let Err(e) = require_waiver(is_leader) {
            return Err(FundActNext::Refuse(e));
        }
    }
    let found = match fund {
        None => return Err(FundActNext::Find(FundActLookup::Fund)),
        Some(f) => f,
    };
    match found {
        None => {
            match fund_in_group(None, group_id) {
                Err(e) => Err(FundActNext::Refuse(e)),
                Ok(()) => Err(FundActNext::Find(FundActLookup::Fund)),
            }
        },
        Some(info) => {
            match fund_in_group(Some(info.group_id), group_id) {
                Err(e) => Err(FundActNext::Refuse(e)),
                Ok(()) => Ok(info),
            }
        },
    }
}

/// Sending a waiting fund, step by step: after the common start, only its
/// payer sends it and only while `requested` (`fulfil_refusal_of`); the money
/// leaves a source of the payer's and lands in the requester's chosen source
/// or the one named now, found among the requester's; the Transfer category
/// must be configured.
pub open spec fn fund_fulfil_decision(
    is_member: Option<bool>,
    leader: Option<Option<Seq<char>>>,
    fund: Option<Option<(u128, Seq<char>, Seq<char>, Seq<char>, Option<u128>, Seq<char>, Seq<char>)>>,
    payer_source: Option<Option<Seq<char>>>,
    requester_source: Option<Option<Seq<char>>>,
    category: Option<Option<(u128, Seq<char>)>>,
    from_source_id: u128,
    to_source_id: Option<u128>,
    group_id: u128,
    username: Seq<char>,
) -> FundActDecision {
    match fund_act_start(is_member, leader, fund, false, group_id, username) {
        Err(d) => d,
        Ok((_g, requester, payer, status, chosen, tag, note)) => match fulfil_refusal_of(payer, status, username) {
            Some(v) => FundActDecision::Refuse(v),
            None => match payer_source {
                None => FundActDecision::Find(FundActLookup::PayerSource),
                Some(None) => FundActDecision::Refuse(rej(400, "Send from one of your own sources"@, ""@)),
                Some(Some(from_name)) => {
                    let to_id = match chosen { Some(c) => Some(c), None => to_source_id };
                    match to_id {
                        None => FundActDecision::Refuse(rej(400, "Choose which of their sources receives it"@, ""@)),
                        Some(t) => match requester_source {
                            None => FundActDecision::Find(FundActLookup::RequesterSource),
                            Some(None) => FundActDecision::Refuse(rej(400, "Pick one of "@ + requester + "'s sources"@, ""@)),
                            Some(Some(to_name)) => match category {
                                None => FundActDecision::Find(FundActLookup::Category),
                                Some(None) => FundActDecision::Refuse(rej(503, "Transfer category is not configured on the server"@, ""@)),
                                Some(Some(c)) => FundActDecision::Send((from_source_id, from_name), (t, to_name), c,
                                    with_note("Funds to "@ + requester + " for "@ + tag, note),
                                    with_note("Funds from "@ + payer + " for "@ + tag, note),
                                    transfer_description_of(tag, note)),
                            },
                        },
                    }
                },
            },
        },
    }
}

/// The next step of sending a waiting fund.
pub fn fund_fulfil_next(
    is_member: Option<bool>,
    leader: Option<Option<String>>,
    fund: Option<Option<FundInfo>>,
    payer_source: Option<Option<String>>,
    requester_source: Option<Option<String>>,
    category: Option<Option<(u128, String)>>,
    from_source_id: u128,
    to_source_id: Option<u128>,
    group_id: u128,
    username: &str,
) -> (r: FundActNext)
    ensures
        fund_act_view(r) == fund_fulfil_decision(is_member, known_text(leader), known_fund(fund), known_text(payer_source),
            known_text(requester_source), known_named(category), from_source_id, to_source_id, group_id, username@),
{
    let info = match fund_act_begin(is_member, leader, fund, false, group_id, username) {
        Err(n) => return n,
        Ok(i) => i,
    };
    if let Err(e) = check_fulfil(info.payer.as_str(), info.status.as_str(), username) {
        return FundActNext::Refuse(e);
    }
    let from_found = match payer_source {
        None => return FundActNext::Find(FundActLookup::PayerSource),
        Some(f) => f,
    };
    let from_name = match payer_source_found(from_found) {
        Err(e) => return FundActNext::Refuse(e),
        Ok(n) => n,
    };
    let to_id = match fulfil_destination(info.to_source_id, to_source_id) {
        Err(e) => return FundActNext::Refuse(e),
        Ok(t) => t,
    };
    let to_found = match requester_source {
        None => return FundActNext::Find(FundActLookup::RequesterSource),
        Some(f) => f,
    };
    let to_name = match requester_source_found(to_found, info.requester.as_str()) {
        Err(e) => return FundActNext::Refuse(e),
        Ok(n) => n,
    };
    let wired = match category {
        None => return FundActNext::Find(FundActLookup::Category),
        Some(c) => c,
    };
    let cat = match transfer_category_required(wired) {
        Err(e) => return FundActNext::Refuse(e),
        Ok(c) => c,
    };
    let texts = fund_texts(info.requester.as_str(), info.payer.as_str(), info.tag.as_str(), info.note.as_str());
    let transfer_description = fund_transfer_description(info.tag.as_str(), info.note.as_str());
    FundActNext::Send(FundSendPlan {
        from_source: (from_source_id, from_name),
        to_source: (to_id, to_name),
        category: cat,
        texts,
        transfer_description,
    })
}

/// Closing a waiting fund, step by step: after the common start, the payer
/// rejects it or the requester withdraws it (`may_close`).
pub open spec fn fund_close_decision(
    is_member: Option<bool>,
    leader: Option<Option<Seq<char>>>,
    fund: Option<Option<(u128, Seq<char>, Seq<char>, Seq<char>, Option<u128>, Seq<char>, Seq<char>)>>,
    k: CloseKind,
    group_id: u128,
    username: Seq<char>,
) -> FundActDecision {
    match fund_act_start(is_member, leader, fund, false, group_id, username) {
        Err(d) => d,
        Ok((_g, requester, payer, _status, _chosen, _tag, _note)) => if may_close(k, requester, payer, username) {
            FundActDecision::Close(close_status_of(k))
        } else {
            match k {
                CloseKind::Reject => FundActDecision::Refuse(rej(403, "Only the person asked can reject it"@, ""@)),
                CloseKind::Cancel => FundActDecision::Refuse(rej(403, "Only the person who asked can withdraw it"@, ""@)),
            }
        },
    }
}

/// The next step of closing a waiting fund.
pub fn fund_close_next(
    is_member: Option<bool>,
    leader: Option<Option<String>>,
    fund: Option<Option<FundInfo>>,
    k: &CloseKind,
    group_id: u128,
    username: &str,
) -> (r: FundActNext)
    ensures
        fund_act_view(r) == fund_close_decision(is_member, known_text(leader), known_fund(fund), *k, group_id, username@),
{
    let info = match fund_act_begin(is_member, leader, fund, false, group_id, username) {
        Err(n) => return n,
        Ok(i) => i,
    };
    match check_close(k, info.requester.as_str(), info.payer.as_str(), username) {
        Err(e) => FundActNext::Refuse(e),
        Ok(()) => FundActNext::Close(close_status(k)),
    }
}

/// A waiting fund is sent only by the member asked for it, while it is still
/// `requested`, in a group of the caller's. The money leaves the payer's own
/// source named in the request and lands in the source the requester chose
/// when asking, else the one named now, found among the requester's, under
/// the configured Transfer category; the two records read `Funds to` and
/// `Funds from` with the fund's tag, and the transfer is `<tag> funds`.
pub proof fn law_fund_sent_as_asked(
    is_member: Option<bool>,
    leader: Option<Option<Seq<char>>>,
    fund: Option<Option<(u128, Seq<char>, Seq<char>, Seq<char>, Option<u128>, Seq<char>, Seq<char>)>>,
    payer_source: Option<Option<Seq<char>>>,
    requester_source: Option<Option<Seq<char>>>,
    category: Option<Option<(u128, Seq<char>)>>,
    from_source_id: u128,
    to_source_id: Option<u128>,
    group_id: u128,
    username: Seq<char>,
)
    ensures
        fund_fulfil_decision(is_member, leader, fund, payer_source, requester_source, category, from_source_id,
            to_source_id, group_id, username) matches FundActDecision::Send(from, to, c, payer_text, receiver_text, description)
        ==> (fund matches Some(Some(f)) && {
            &&& is_member == Some(true)
            &&& f.0 == group_id
            &&& eq_ignore_ascii_case_seq(f.2, username)
            &&& f.3 == "requested"@
            &&& from.0 == from_source_id && payer_source == Some(Some(from.1))
            &&& to.0 == (match f.4 { Some(chosen) => chosen, None => to_source_id->0 })
            &&& (f.4 is None ==> to_source_id is Some)
            &&& requester_source == Some(Some(to.1))
            &&& category == Some(Some(c))
            &&& payer_text == with_note("Funds to "@ + f.1 + " for "@ + f.5, f.6)
            &&& receiver_text == with_note("Funds from "@ + f.2 + " for "@ + f.5, f.6)
            &&& description == f.5 + " funds"@ + (if f.6.len() == 0 { ""@ } else { ": "@ + f.6 })
        }),
{
}

/// Waiving a fund is the group leader's, for a fund of the group, and keeps
/// the trimmed note.
pub proof fn law_waivers_are_the_leaders(
    is_member: Option<bool>,
    leader: Option<Option<Seq<char>>>,
    fund: Option<Option<(u128, Seq<char>, Seq<char>, Seq<char>, Option<u128>, Seq<char>, Seq<char>)>>,
    note: Seq<char>,
    group_id: u128,
    username: Seq<char>,
)
    ensures
        fund_waive_decision(is_member, leader, fund, note, group_id, username) matches FundActDecision::Waive(n) ==> {
            &&& n == trim_seq(note)
            &&& is_member == Some(true)
            &&& leader matches Some(Some(l)) && eq_ignore_ascii_case_seq(l, username)
            &&& fund matches Some(Some(f)) && f.0 == group_id
        },
        (is_member == Some(true) && leader == Some(Some(username))) ==> (fund matches Some(Some(f)) ==> (f.0 == group_id ==>
            fund_waive_decision(is_member, leader, fund, note, group_id, username) == FundActDecision::Waive(trim_seq(note)))),
{
}

/// Closing a request stores the status that says who ended it: the
/// requester withdrawing it stores `canceled`, the payer turning it down
/// stores `rejected`. Only that person closes it, and in a group with a
/// leader, a request of the group is closed this way by that person.
pub proof fn law_close_status_names_the_closer(
    is_member: Option<bool>,
    leader: Option<Option<Seq<char>>>,
    fund: Option<Option<(u128, Seq<char>, Seq<char>, Seq<char>, Option<u128>, Seq<char>, Seq<char>)>>,
    k: CloseKind,
    group_id: u128,
    username: Seq<char>,
)
    ensures
        fund_close_decision(is_member, leader, fund, k, group_id, username) matches FundActDecision::Close(s) ==> {
            &&& fund matches Some(Some(f))
            &&& (k is Cancel ==> s == "canceled"@ && eq_ignore_ascii_case_seq(f.1, username))
            &&& (k is Reject ==> s == "rejected"@ && eq_ignore_ascii_case_seq(f.2, username))
        },
        (is_member == Some(true) && leader is Some && leader->0 is Some) ==> (fund matches Some(Some(f)) ==> (f.0 == group_id ==> {
            &&& (k is Cancel && eq_ignore_ascii_case_seq(f.1, username)) ==>
                fund_close_decision(is_member, leader, fund, k, group_id, username) == FundActDecision::Close("canceled"@)
            &&& (k is Reject && eq_ignore_ascii_case_seq(f.2, username)) ==>
                fund_close_decision(is_member, leader, fund, k, group_id, username) == FundActDecision::Close("rejected"@)
        })),
{
}

/// Waiving a fund, step by step: after the common start, which here needs
/// the caller to lead the group, the fund is waived with the trimmed note.
pub open spec fn fund_waive_decision(
    is_member: Option<bool>,
    leader: Option<Option<Seq<char>>>,
    fund: Option<Option<(u128, Seq<char>, Seq<char>, Seq<char>, Option<u128>, Seq<char>, Seq<char>)>>,
    note: Seq<char>,
    group_id: u128,
    username: Seq<char>,
) -> FundActDecision {
    match fund_act_start(is_member, leader, fund, true, group_id, username) {
        Err(d) => d,
        Ok(_) => FundActDecision::Waive(trim_seq(note)),
    }
}

/// The next step of waiving a fund; `note` is the waiver's note (empty when
/// the body has none).
pub fn fund_waive_next(
    is_member: Option<bool>,
    leader: Option<Option<String>>,
    fund: Option<Option<FundInfo>>,
    note: &str,
    group_id: u128,
    username: &str,
) -> (r: FundActNext)
    ensures
        fund_act_view(r) == fund_waive_decision(is_member, known_text(leader), known_fund(fund), note@, group_id, username@),
{
    match fund_act_begin(is_member, leader, fund, true, group_id, username) {
        Err(n) => n,
        Ok(_) => FundActNext::Waive(trimmed(note)),
    }
}

} // verus!
