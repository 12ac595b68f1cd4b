//! Outcomes shared by the request rules.
use vstd::prelude::*;
use vstd::string::*;
use crate::text::to_owned_string;

verus! {

/// Whether a row was written or was already there.
pub enum DatabaseResult {
    Inserted,
    Duplicate,
}

/// Why a request is refused, by kind.
pub enum AppError {
    Unauthorized,
    Forbidden,
    NotFound,
    InternalError,
}

/// A refused request: the HTTP status, the message and the description that
/// the error body carries.
pub struct Rejection {
    pub status: u16,
    pub message: String,
    pub description: String,
}

/// The abstract refusal.
pub struct RejectionView {
    pub status: u16,
    pub message: Seq<char>,
    pub description: Seq<char>,
}

impl View for Rejection {
    type V = RejectionView;

    open spec fn view(&self) -> RejectionView {
        RejectionView { status: self.status, message: self.message@, description: self.description@ }
    }
}

/// The refusal with these parts.
pub open spec fn rej(status: u16, message: Seq<char>, description: Seq<char>) -> RejectionView {
    RejectionView { status, message, description }
}

impl Rejection {
    /// A refusal with the given status, message and description.
    pub fn new(status: u16, message: &str, description: &str) -> (r: Rejection)
        ensures
            r@ == rej(status, message@, description@),
    {
        Rejection {
            status,
            message: to_owned_string(message),
            description: to_owned_string(description),
        }
    }

    /// A refusal whose message is already a `String`.
    pub fn titled(status: u16, message: String, description: &str) -> (r: Rejection)
        ensures
            r@ == rej(status, message@, description@),
    {
        Rejection { status, message, description: to_owned_string(description) }
    }

    /// A refusal whose description is already a `String`.
    pub fn with_description(status: u16, message: &str, description: String) -> (r: Rejection)
        ensures
            r@ == rej(status, message@, description@),
    {
        Rejection { status, message: to_owned_string(message), description }
    }
}

/// The view of a result whose error is a refusal.
pub open spec fn refused<T>(r: Result<T, Rejection>) -> Option<RejectionView> {
    match r {
        Ok(_) => None,
        Err(e) => Some(e@),
    }
}

/// What to do with a write that carries an id already in use: answer with the
/// stored record when the caller made it, refuse otherwise.
pub enum Replay {
    /// No record has the id: go on.
    Fresh,
    /// The caller's own earlier write: answer with it.
    Repeat,
    /// Someone else's record holds the id.
    Taken,
}

/// The replay decision: fresh when nothing holds the id, a repeat when the
/// holder is the caller, taken otherwise.
pub open spec fn replay_of(existing_is_callers: Option<bool>) -> Replay {
    match existing_is_callers {
        None => Replay::Fresh,
        Some(true) => Replay::Repeat,
        Some(false) => Replay::Taken,
    }
}

/// Decides what a write with a reused id does, given whether a record holds
/// the id and, if so, whether the caller made it.
pub fn replay_decision(existing_is_callers: Option<bool>) -> (r: Replay)
    ensures
        r == replay_of(existing_is_callers),
{
    match existing_is_callers {
        None => Replay::Fresh,
        Some(true) => Replay::Repeat,
        Some(false) => Replay::Taken,
    }
}

/// The characters of an optional text.
pub open spec fn opt_text(o: Option<String>) -> Option<Seq<char>> {
    match o {
        Some(t) => Some(t@),
        None => None,
    }
}

/// A looked-up text as far as it is known: `None` before the lookup, then
/// whether it found anything.
pub open spec fn known_text(x: Option<Option<String>>) -> Option<Option<Seq<char>>> {
    match x {
        None => None,
        Some(None) => Some(None),
        Some(Some(t)) => Some(Some(t@)),
    }
}

/// A named record (an id and its name) by its characters.
pub open spec fn named_view(s: (u128, String)) -> (u128, Seq<char>) {
    (s.0, s.1@)
}

/// A looked-up named record as far as it is known.
pub open spec fn known_named(c: Option<Option<(u128, String)>>) -> Option<Option<(u128, Seq<char>)>> {
    match c {
        None => None,
        Some(None) => Some(None),
        Some(Some(x)) => Some(Some(named_view(x))),
    }
}

/// What the store answers when a row is added: written, or already there.
pub fn insert_outcome(result: DatabaseResult, failure: &str, duplicate: &str) -> (r: Result<(), Rejection>)
    ensures
        result is Inserted <==> r is Ok,
        result is Duplicate ==> refused(r) == Some(rej(400, failure@, duplicate@)),
{
    match result {
        DatabaseResult::Inserted => Ok(()),
        DatabaseResult::Duplicate => Err(Rejection::new(400, failure, duplicate)),
    }
}

/// The position of the first record with the id, or `None` when no record
/// has it.
pub open spec fn first_position(ids: Seq<u128>, id: u128) -> Option<int> {
    if exists|i: int| 0 <= i < ids.len() && ids[i] == id {
        Some(choose|i: int| 0 <= i < ids.len() && ids[i] == id && forall|j: int| 0 <= j < i ==> ids[j] != id)
    } else {
        None
    }
}

/// Finds the first record with the id among the ids of a list of records.
pub fn position_of(ids: &[u128], id: u128) -> (r: Option<usize>)
    ensures
        r matches Some(i) ==> first_position(ids@, id) == Some(i as int),
        r is None ==> first_position(ids@, id) is None,
{
    let mut i: usize = 0;
    while i < ids.len()
        invariant
            i <= ids@.len(),
            forall|j: int| 0 <= j < i ==> ids@[j] != id,
        decreases ids@.len() - i,
    {
        if ids[i] == id {
            proof {
                let k = i as int;
                assert(0 <= k < ids@.len() && ids@[k] == id && forall|j: int| 0 <= j < k ==> ids@[j] != id);
                let c = choose|c: int| 0 <= c < ids@.len() && ids@[c] == id && forall|j: int| 0 <= j < c ==> ids@[j] != id;
                assert(c == k) by {
                    if c < k {
                        assert(ids@[c] != id);
                    } else if c > k {
                        assert(ids@[k] != id);
                    }
                }
            }
            return Some(i);
        }
        i = i + 1;
    }
    None
}

} // verus!
