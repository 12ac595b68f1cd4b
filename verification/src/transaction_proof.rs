//! Rules for pictures attached to transactions and settlements: what an
//! upload must look like, what it may be attached to, and who may see it.
use vstd::prelude::*;
use vstd::string::*;
use vstd::utf8::encode_utf8;
use crate::text::{eq_ignore_ascii_case, eq_ignore_ascii_case_seq, normalize, normalized, str_equal,
    to_owned_string, trim, trim_seq};
use crate::responses::{Rejection, RejectionView, rej, refused, known_text};

verus! {

/// Query of the proofs of one record.
pub struct TransactionProofQuery {
    pub ref_type: String,
    pub ref_id: String,
}

/// The largest image accepted, as base64 text (about 1.5 MB of JPEG).
pub const MAX_BASE64_LEN: usize = 2000000;

/// Bytes that may appear in base64 text: ASCII letters and digits, `+`, `/`
/// and `=`.
pub open spec fn is_base64_byte(b: u8) -> bool {
    ||| (0x41 <= b && b <= 0x5a)
    ||| (0x61 <= b && b <= 0x7a)
    ||| (0x30 <= b && b <= 0x39)
    ||| b == 0x2b
    ||| b == 0x2f
    ||| b == 0x3d
}

/// Base64 text as accepted here: not empty, a multiple of four bytes long,
/// made of base64 bytes only, and not padded beyond the three bytes that
/// each four stand for (`====` is no base64).
pub open spec fn is_base64(bytes: Seq<u8>) -> bool {
    &&& bytes.len() > 0
    &&& bytes.len() % 4 == 0
    &&& forall|i: int| 0 <= i < bytes.len() ==> is_base64_byte(#[trigger] bytes[i])
    &&& trailing_padding(bytes) <= bytes.len() / 4 * 3
}

/// The number of `=` bytes at the end.
pub open spec fn trailing_padding(bytes: Seq<u8>) -> nat
    decreases bytes.len(),
{
    if bytes.len() > 0 && bytes.last() == 0x3d {
        1 + trailing_padding(bytes.drop_last())
    } else {
        0
    }
}

/// The decoded size of base64 text: three bytes per four, less the padding.
pub open spec fn decoded_size(bytes: Seq<u8>) -> int {
    bytes.len() as int / 4 * 3 - trailing_padding(bytes)
}

/// The number of `=` bytes that end `text`.
pub fn base64_padding(text: &str) -> (r: usize)
    ensures
        r == trailing_padding(text.spec_bytes()),
{
    let bytes = text.as_bytes();
    let n = bytes.len();
    let mut end: usize = n;
    let mut count: usize = 0;
    proof {
        assert(bytes@.subrange(0, n as int) =~= bytes@);
    }
    while end > 0 && bytes[end - 1] == 0x3d
        invariant
            n == bytes@.len(),
            bytes@ == text.spec_bytes(),
            end <= n,
            count + end == n,
            trailing_padding(bytes@) == count + trailing_padding(bytes@.subrange(0, end as int)),
        decreases end,
    {
        proof {
            assert(bytes@.subrange(0, end as int).drop_last() =~= bytes@.subrange(0, end - 1));
        }
        end = end - 1;
        count = count + 1;
    }
    proof {
        let t = bytes@.subrange(0, end as int);
        if end > 0 {
            assert(t.last() == bytes@[end - 1]);
        }
    }
    count
}

/// Whether every byte of `bytes` is a base64 byte.
fn all_base64_bytes(bytes: &[u8]) -> (r: bool)
    ensures
        r == forall|i: int| 0 <= i < bytes@.len() ==> is_base64_byte(#[trigger] bytes@[i]),
{
    let mut i: usize = 0;
    while i < bytes.len()
        invariant
            i <= bytes@.len(),
            forall|j: int| 0 <= j < i ==> is_base64_byte(#[trigger] bytes@[j]),
        decreases bytes@.len() - i,
    {
        let b = bytes[i];
        if !((0x41 <= b && b <= 0x5a) || (0x61 <= b && b <= 0x7a) || (0x30 <= b && b <= 0x39)
            || b == 0x2b || b == 0x2f || b == 0x3d) {
            return false;
        }
        i = i + 1;
    }
    true
}

/// Decoded size of a base64 text, or `None` when it is not base64.
pub fn base64_size(text: &str) -> (r: Option<i64>)
    ensures
        r is Some <==> is_base64(text.spec_bytes()),
        r matches Some(size) ==> size == decoded_size(text.spec_bytes()) as i64,
{
    let bytes = text.as_bytes();
    let n = bytes.len();
    let valid = n != 0 && n % 4 == 0 && all_base64_bytes(bytes);
    if !valid {
        return None;
    }
    let padding = base64_padding(text);
    if padding > n / 4 * 3 {
        return None;
    }
    Some((n / 4 * 3 - padding) as i64)
}

/// The image types accepted: JPEG, PNG, WebP.
pub open spec fn is_accepted_mime(m: Seq<char>) -> bool {
    m == "image/jpeg"@ || m == "image/png"@ || m == "image/webp"@
}

/// The MIME type assumed when an upload names none.
pub fn default_mime() -> (r: String)
    ensures
        r@ == "image/jpeg"@,
{
    to_owned_string("image/jpeg")
}

/// An upload that passed the checks: its MIME type (trimmed, lower-case), the
/// trimmed base64 text, and its decoded size.
pub struct CheckedUpload<'a> {
    pub mime_type: String,
    pub image: &'a str,
    pub size_bytes: i64,
}

/// The refusal an upload meets, if any: an unsupported image type, then a
/// base64 text longer than the limit, then text that is not base64.
pub open spec fn upload_refusal(mime_raw: Seq<char>, image_raw: Seq<char>) -> Option<RejectionView> {
    let image = encode_utf8(trim_seq(image_raw));
    if !is_accepted_mime(normalized(mime_raw)) {
        Some(rej(400, "Unsupported image type"@, "Send a JPEG, PNG or WebP image."@))
    } else if image.len() > MAX_BASE64_LEN {
        Some(rej(413, "Image is too large"@, ""@))
    } else if !is_base64(image) {
        Some(rej(400, "Image must be base64"@, ""@))
    } else {
        None
    }
}

/// Checks an upload's MIME type and image text, as the upload route does
/// before anything is stored.
pub fn check_upload<'a>(mime_raw: &str, image_raw: &'a str) -> (r: Result<CheckedUpload<'a>, Rejection>)
    ensures
        refused(r) == upload_refusal(mime_raw@, image_raw@),
        r matches Ok(u) ==> {
            &&& u.mime_type@ == normalized(mime_raw@)
            &&& u.image@ == trim_seq(image_raw@)
            &&& u.size_bytes == decoded_size(encode_utf8(trim_seq(image_raw@))) as i64
        },
{
    let mime_type = normalize(mime_raw);
    let m = mime_type.as_str();
    if !(str_equal(m, "image/jpeg") || str_equal(m, "image/png") || str_equal(m, "image/webp")) {
        return Err(Rejection::new(400, "Unsupported image type", "Send a JPEG, PNG or WebP image."));
    }
    let image = trim(image_raw);
    if image.as_bytes().len() > MAX_BASE64_LEN {
        return Err(Rejection::new(413, "Image is too large", ""));
    }
    match base64_size(image) {
        None => Err(Rejection::new(400, "Image must be base64", "")),
        Some(size_bytes) => Ok(CheckedUpload { mime_type, image, size_bytes }),
    }
}

/// What a proof can be attached to.
pub enum ProofRef {
    /// One of the uploader's own spendings or earnings.
    Transaction,
    Reimbursement,
    SplitPayment,
}

/// The kind of record a (normalized) `ref_type` names.
pub open spec fn proof_ref_of(ref_type: Seq<char>) -> Option<ProofRef> {
    if ref_type == "spending"@ || ref_type == "earning"@ {
        Some(ProofRef::Transaction)
    } else if ref_type == "reimbursement"@ {
        Some(ProofRef::Reimbursement)
    } else if ref_type == "split_payment"@ {
        Some(ProofRef::SplitPayment)
    } else {
        None
    }
}

/// The refusal of an unknown `ref_type`.
pub open spec fn unknown_ref_type() -> RejectionView {
    rej(400, "Unknown ref_type"@, "Use spending, earning, reimbursement or split_payment."@)
}

/// Reads a (normalized) `ref_type`, refusing an unknown one.
pub fn classify_ref_type(ref_type: &str) -> (r: Result<ProofRef, Rejection>)
    ensures
        proof_ref_of(ref_type@) matches Some(k) ==> r == Ok::<ProofRef, Rejection>(k),
        proof_ref_of(ref_type@) is None ==> refused(r) == Some(unknown_ref_type()),
{
    if str_equal(ref_type, "spending") || str_equal(ref_type, "earning") {
        Ok(ProofRef::Transaction)
    } else if str_equal(ref_type, "reimbursement") {
        Ok(ProofRef::Reimbursement)
    } else if str_equal(ref_type, "split_payment") {
        Ok(ProofRef::SplitPayment)
    } else {
        Err(Rejection::new(400, "Unknown ref_type", "Use spending, earning, reimbursement or split_payment."))
    }
}

/// The refusal given for a record the caller may not touch or that is not
/// there; the two are not told apart.
pub open spec fn record_not_found() -> RejectionView {
    rej(404, "Record not found"@, ""@)
}

/// Whether `name` is the caller, ignoring ASCII case.
pub open spec fn is_caller(name: Seq<char>, username: Seq<char>) -> bool {
    eq_ignore_ascii_case_seq(name, username)
}

/// A proof may be attached to a spending or earning only by its owner.
pub fn transaction_scope(owner: Option<&str>, username: &str) -> (r: Result<(), Rejection>)
    ensures
        r is Ok <==> (owner matches Some(o) && is_caller(o@, username@)),
        r is Err ==> refused(r) == Some(record_not_found()),
{
    match owner {
        Some(o) => {
            if eq_ignore_ascii_case(o, username) {
                Ok(())
            } else {
                Err(Rejection::new(404, "Record not found", ""))
            }
        },
        None => Err(Rejection::new(404, "Record not found", "")),
    }
}

/// A retried upload: answered with the stored proof when the caller uploaded
/// it (ignoring ASCII case), refused when someone else's proof holds the id.
/// Gives whether it is a repeat.
pub fn proof_replay(existing_uploader: Option<&str>, username: &str) -> (r: Result<bool, Rejection>)
    ensures
        existing_uploader is None ==> r == Ok::<bool, Rejection>(false),
        existing_uploader matches Some(u) ==> (if is_caller(u@, username@) {
            r == Ok::<bool, Rejection>(true)
        } else {
            refused(r) == Some(rej(409, "Proof id already used"@, ""@))
        }),
{
    match existing_uploader {
        None => Ok(false),
        Some(u) => {
            if eq_ignore_ascii_case(u, username) {
                Ok(true)
            } else {
                Err(Rejection::new(409, "Proof id already used", ""))
            }
        },
    }
}

/// Only the uploader removes a proof; anyone else is told it is not there.
pub fn check_proof_removal(uploader: Option<&str>, username: &str) -> (r: Result<(), Rejection>)
    ensures
        r is Ok <==> (uploader matches Some(u) && is_caller(u@, username@)),
        r is Err ==> refused(r) == Some(record_not_found()),
{
    match uploader {
        Some(u) => {
            if eq_ignore_ascii_case(u, username) {
                Ok(())
            } else {
                Err(Rejection::new(404, "Record not found", ""))
            }
        },
        None => Err(Rejection::new(404, "Record not found", "")),
    }
}

/// A settlement (reimbursement or split payment) as far as proofs go: who
/// paid (if a member did), the owner of the settled spending, and its group.
pub struct SettlementParties {
    pub paid_by: Option<String>,
    pub owner: String,
    pub group_id: u128,
}

/// Whether the caller takes part in a settlement, as payer or as owner.
pub open spec fn takes_part(p: SettlementParties, username: Seq<char>) -> bool {
    ||| (p.paid_by matches Some(payer) && is_caller(payer@, username))
    ||| is_caller(p.owner@, username)
}

/// A proof may be attached to a settlement only by its payer or owner; it is
/// then visible to the settlement's group.
pub fn settlement_scope(found: Option<SettlementParties>, username: &str) -> (r: Result<Option<u128>, Rejection>)
    ensures
        found matches Some(p) ==> (takes_part(p, username@) ==> r == Ok::<Option<u128>, Rejection>(Some(p.group_id))),
        found matches Some(p) ==> (!takes_part(p, username@) ==> refused(r) == Some(record_not_found())),
        found is None ==> refused(r) == Some(record_not_found()),
{
    match found {
        Some(p) => {
            let payer_is_caller = match &p.paid_by {
                Some(payer) => eq_ignore_ascii_case(payer.as_str(), username),
                None => false,
            };
            if payer_is_caller || eq_ignore_ascii_case(p.owner.as_str(), username) {
                Ok(Some(p.group_id))
            } else {
                Err(Rejection::new(404, "Record not found", ""))
            }
        },
        None => Err(Rejection::new(404, "Record not found", "")),
    }
}

/// Who may see a proof: its uploader at once, nobody else when it belongs to
/// no group, and otherwise whoever is a member of its group.
pub enum ViewAccess {
    Allowed,
    Denied,
    /// Allowed exactly when the caller is a member of this group.
    IfMemberOf(u128),
}

/// The access decision for a proof.
pub open spec fn view_access_of(uploaded_by: Seq<char>, group_id: Option<u128>, username: Seq<char>) -> ViewAccess {
    if is_caller(uploaded_by, username) {
        ViewAccess::Allowed
    } else {
        match group_id {
            None => ViewAccess::Denied,
            Some(g) => ViewAccess::IfMemberOf(g),
        }
    }
}

/// Decides whether the caller may see a proof, or which group's membership
/// decides it.
pub fn view_access(uploaded_by: &str, group_id: Option<u128>, username: &str) -> (r: ViewAccess)
    ensures
        r == view_access_of(uploaded_by@, group_id, username@),
{
    if eq_ignore_ascii_case(uploaded_by, username) {
        return ViewAccess::Allowed;
    }
    match group_id {
        None => ViewAccess::Denied,
        Some(g) => ViewAccess::IfMemberOf(g),
    }
}

/// The decoded size of base64 text is three bytes per four, less the
/// padding; it is never negative, without padding it is exactly three
/// quarters of the length, and it never exceeds that.
pub proof fn law_base64_size(bytes: Seq<u8>)
    requires
        is_base64(bytes),
    ensures
        0 <= decoded_size(bytes) <= bytes.len() / 4 * 3,
        trailing_padding(bytes) == 0 ==> decoded_size(bytes) == bytes.len() / 4 * 3,
        bytes.last() != 0x3d ==> trailing_padding(bytes) == 0,
{
}

/// The uploader always sees their own proof; a proof that belongs to no
/// group is seen by nobody else; otherwise exactly the group's members see
/// it.
pub proof fn law_proof_visibility(uploaded_by: Seq<char>, group_id: Option<u128>, username: Seq<char>)
    ensures
        uploaded_by == username ==> view_access_of(uploaded_by, group_id, username) == ViewAccess::Allowed,
        !is_caller(uploaded_by, username) && group_id is None ==> view_access_of(uploaded_by, group_id, username) == ViewAccess::Denied,
        (!is_caller(uploaded_by, username) && group_id is Some) ==> view_access_of(uploaded_by, group_id, username) == ViewAccess::IfMemberOf(group_id->0),
{
}

/// What attaching a proof needs looked up, in this order.
pub enum ProofLookup {
    /// A proof already holding the id: its uploader.
    Existing,
    /// The owner of the spending or earning named.
    TransactionOwner,
    /// The group of the spending or earning named, if it has one.
    TransactionGroup,
    /// The reimbursement or split payment named.
    Settlement,
}

/// What attaching a proof does next.
pub enum ProofNext {
    Find(ProofLookup),
    /// The caller's own earlier proof with this id: answer with it.
    AnswerExisting,
    Refuse(Rejection),
    /// Store the proof, visible to the members of this group if any.
    Store(Option<u128>),
}

/// The abstract next step.
pub enum ProofDecision {
    Find(ProofLookup),
    AnswerExisting,
    Refuse(RejectionView),
    Store(Option<u128>),
}

/// The abstract view of the next step.
pub open spec fn proof_next_view(n: ProofNext) -> ProofDecision {
    match n {
        ProofNext::Find(l) => ProofDecision::Find(l),
        ProofNext::AnswerExisting => ProofDecision::AnswerExisting,
        ProofNext::Refuse(e) => ProofDecision::Refuse(e@),
        ProofNext::Store(g) => ProofDecision::Store(g),
    }
}

/// Attaching a proof, step by step: the upload must pass its checks
/// (`upload_refusal`); a retried id is answered when the caller uploaded it
/// and refused otherwise; the record named must be one the caller may attach
/// to: their own spending or earning (visible to its group, if any), or a
/// settlement they take part in (visible to its group). The group is never
/// taken from the client.
pub open spec fn proof_decision(
    existing: Option<Option<Seq<char>>>,
    owner: Option<Option<Seq<char>>>,
    group: Option<Option<u128>>,
    settlement: Option<Option<SettlementParties>>,
    mime_raw: Seq<char>,
    image_raw: Seq<char>,
    ref_type_raw: Seq<char>,
    username: Seq<char>,
) -> ProofDecision {
    match upload_refusal(mime_raw, image_raw) {
        Some(v) => ProofDecision::Refuse(v),
        None => match existing {
            None => ProofDecision::Find(ProofLookup::Existing),
            Some(Some(u)) => if is_caller(u, username) {
                ProofDecision::AnswerExisting
            } else {
                ProofDecision::Refuse(rej(409, "Proof id already used"@, ""@))
            },
            Some(None) => match proof_ref_of(normalized(ref_type_raw)) {
                None => ProofDecision::Refuse(unknown_ref_type()),
                Some(ProofRef::Transaction) => match owner {
                    None => ProofDecision::Find(ProofLookup::TransactionOwner),
                    Some(o) => if o matches Some(x) && is_caller(x, username) {
                        match group {
                            None => ProofDecision::Find(ProofLookup::TransactionGroup),
                            Some(g) => ProofDecision::Store(g),
                        }
                    } else {
                        ProofDecision::Refuse(record_not_found())
                    },
                },
                Some(_) => match settlement {
                    None => ProofDecision::Find(ProofLookup::Settlement),
                    Some(Some(p)) => if takes_part(p, username) {
                        ProofDecision::Store(Some(p.group_id))
                    } else {
                        ProofDecision::Refuse(record_not_found())
                    },
                    Some(None) => ProofDecision::Refuse(record_not_found()),
                },
            },
        },
    }
}

/// The next step of attaching a proof.
pub fn proof_upload_next(
    existing: Option<Option<String>>,
    owner: Option<Option<String>>,
    group: Option<Option<u128>>,
    settlement: Option<Option<SettlementParties>>,
    mime_raw: &str,
    image_raw: &str,
    ref_type_raw: &str,
    username: &str,
) -> (r: ProofNext)
    ensures
        proof_next_view(r) == proof_decision(known_text(existing), known_text(owner), group, settlement,
            mime_raw@, image_raw@, ref_type_raw@, username@),
{
    if let Err(e) = check_upload(mime_raw, image_raw) {
        return ProofNext::Refuse(e);
    }
    let prior = match existing {
        None => return ProofNext::Find(ProofLookup::Existing),
        Some(p) => p,
    };
    let replay = match &prior {
        Some(u) => proof_replay(Some(u.as_str()), username),
        None => proof_replay(None, username),
    };
    match replay {
        Err(e) => return ProofNext::Refuse(e),
        Ok(true) => return ProofNext::AnswerExisting,
        Ok(false) => {},
    }
    let ref_type = normalize(ref_type_raw);
    match classify_ref_type(ref_type.as_str()) {
        Err(e) => ProofNext::Refuse(e),
        Ok(ProofRef::Transaction) => {
            let o = match owner {
                None => return ProofNext::Find(ProofLookup::TransactionOwner),
                Some(o) => o,
            };
            let scoped = match &o {
                Some(x) => transaction_scope(Some(x.as_str()), username),
                None => transaction_scope(None, username),
            };
            if let Err(e) = scoped {
                return ProofNext::Refuse(e);
            }
            match group {
                None => ProofNext::Find(ProofLookup::TransactionGroup),
                Some(g) => ProofNext::Store(g),
            }
        },
        Ok(_) => {
            let found = match settlement {
                None => return ProofNext::Find(ProofLookup::Settlement),
                Some(f) => f,
            };
            match settlement_scope(found, username) {
                Err(e) => ProofNext::Refuse(e),
                Ok(g) => ProofNext::Store(g),
            }
        },
    }
}

/// A proof is stored only after its upload passed the checks, under a new
/// id, on a record the caller owns or takes part in; and the group that may
/// see it is the one the record belongs to.
pub proof fn law_proofs_attach_only_to_own_records(
    existing: Option<Option<Seq<char>>>,
    owner: Option<Option<Seq<char>>>,
    group: Option<Option<u128>>,
    settlement: Option<Option<SettlementParties>>,
    mime_raw: Seq<char>,
    image_raw: Seq<char>,
    ref_type_raw: Seq<char>,
    username: Seq<char>,
)
    requires
        proof_decision(existing, owner, group, settlement, mime_raw, image_raw, ref_type_raw, username) is Store,
    ensures
        upload_refusal(mime_raw, image_raw) is None,
        existing == Some(None::<Seq<char>>),
        proof_ref_of(normalized(ref_type_raw)) == Some(ProofRef::Transaction) ==> {
            &&& owner matches Some(Some(o)) && is_caller(o, username)
            &&& group == Some(proof_decision(existing, owner, group, settlement, mime_raw, image_raw, ref_type_raw, username)->Store_0)
        },
        proof_ref_of(normalized(ref_type_raw)) != Some(ProofRef::Transaction) ==> {
            &&& settlement matches Some(Some(p)) && takes_part(p, username)
            &&& proof_decision(existing, owner, group, settlement, mime_raw, image_raw, ref_type_raw, username)->Store_0
                == Some(settlement->0->0.group_id)
        },
{
}

} // verus!
