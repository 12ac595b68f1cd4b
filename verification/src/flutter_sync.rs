//! The offline-cache sync endpoint of the mobile client: who is asking, and
//! how stored sources and categories are handed to the client.
#![allow(non_snake_case)]
use vstd::prelude::*;
use vstd::string::*;
use crate::text::to_owned_string;
use crate::jwt::{bearer_prefix, decode_username, has_two_dots, hs256_unexpired_sub};

verus! {

/// The claims of a token the sync endpoint accepts.
pub struct Claims {
    pub sub: String,
    pub exp: usize,
}

/// A source as the mobile client caches it.
pub struct FlutterSource {
    pub id: String,
    pub name: String,
    pub kind: String,
    pub syncState: String,
    pub updatedAt: String,
}

/// A category as the mobile client caches it.
pub struct FlutterCategory {
    pub id: String,
    pub name: String,
    pub kind: String,
    pub syncState: String,
    pub updatedAt: String,
}

/// The secret the sync endpoint checks tokens with: the configured one, else
/// `secret`.
pub fn sync_secret(configured: Option<String>) -> (r: String)
    ensures
        configured matches Some(c) ==> r == c,
        configured is None ==> r@ == "secret"@,
{
    match configured {
        Some(c) => c,
        None => to_owned_string("secret"),
    }
}

/// Whether `header` starts with `Bearer `.
pub open spec fn starts_with_bearer(header: Seq<char>) -> bool {
    header.len() >= 7 && header.subrange(0, 7) == bearer_prefix()
}

fn has_prefix(header: &str) -> (r: bool)
    ensures
        r == starts_with_bearer(header@),
{
    let n = header.unicode_len();
    if n < 7 {
        return false;
    }
    let ok = header.get_char(0) == 'B' && header.get_char(1) == 'e' && header.get_char(2) == 'a'
        && header.get_char(3) == 'r' && header.get_char(4) == 'e' && header.get_char(5) == 'r'
        && header.get_char(6) == ' ';
    proof {
        if ok {
            assert(header@.subrange(0, 7) =~= bearer_prefix());
        } else if header@.subrange(0, 7) == bearer_prefix() {
            assert(header@.subrange(0, 7)[0] == 'B');
            assert(header@.subrange(0, 7)[1] == 'e');
            assert(header@.subrange(0, 7)[2] == 'a');
            assert(header@.subrange(0, 7)[3] == 'r');
            assert(header@.subrange(0, 7)[4] == 'e');
            assert(header@.subrange(0, 7)[5] == 'r');
            assert(header@.subrange(0, 7)[6] == ' ');
        }
    }
    ok
}

/// The username of the sync request: the `Authorization` header must be
/// `Bearer <token>` and the token valid under `secret`. A missing header,
/// another scheme, a token without the three-part shape, or one the token
/// library refuses whatever the clock reads gives no user; a user given is
/// the `sub` text of the header's token under `secret`. Whether a token that
/// passes every other check has expired depends on the clock.
pub fn extract_username(authorization: Option<&str>, secret: &str) -> (r: Option<String>)
    ensures
        authorization is None ==> r is None,
        authorization matches Some(h) ==> (!starts_with_bearer(h@) ==> r is None),
        authorization matches Some(h) ==> (starts_with_bearer(h@) && !has_two_dots(h@.skip(7)) ==> r is None),
        authorization matches Some(h) ==> (hs256_unexpired_sub(h@.skip(7), secret@) is None ==> r is None),
        r matches Some(u) ==> (authorization matches Some(h) && starts_with_bearer(h@)
            && hs256_unexpired_sub(h@.skip(7), secret@) == Some(Some(u@))),
{
    let header = match authorization {
        Some(h) => h,
        None => return None,
    };
    if !has_prefix(header) {
        return None;
    }
    let n = header.unicode_len();
    let token = header.substring_char(7, n);
    match decode_username(token, secret) {
        Ok(sub) => Some(sub),
        Err(_) => None,
    }
}

/// The sync endpoints answer 401 without a valid token.
pub fn require_sync_user(user: Option<String>) -> (r: Result<String, crate::responses::Rejection>)
    ensures
        user matches Some(u) ==> r == Ok::<String, crate::responses::Rejection>(u),
        user is None ==> crate::responses::refused(r) == Some(crate::responses::rej(401, "Invalid or missing token"@, ""@)),
{
    match user {
        Some(u) => Ok(u),
        None => Err(crate::responses::Rejection::new(401, "Invalid or missing token", "")),
    }
}

/// A stored row of a source or category: id, name and creation date.
pub struct SyncRow {
    pub id: String,
    pub name: String,
    pub created_date: Option<String>,
}

/// A cached entry built from a row: the given kind, `done`, and the creation
/// date (empty when unknown) as the update time.
pub open spec fn entry_fields(row: SyncRow, kind: Seq<char>) -> (Seq<char>, Seq<char>, Seq<char>, Seq<char>, Seq<char>) {
    (row.id@, row.name@, kind, "done"@, match row.created_date { Some(d) => d@, None => Seq::empty() })
}

fn date_text(d: &Option<String>) -> (r: String)
    ensures
        r@ == match d { Some(s) => s@, None => Seq::empty() },
{
    match d {
        Some(s) => s.clone(),
        None => String::new(),
    }
}

/// The sources as the client caches them, in the stored order.
pub fn sync_sources(rows: &Vec<SyncRow>) -> (r: Vec<FlutterSource>)
    ensures
        r@.len() == rows@.len(),
        forall|i: int| 0 <= i < rows@.len() ==> {
            let s = #[trigger] r@[i];
            (s.id@, s.name@, s.kind@, s.syncState@, s.updatedAt@) == entry_fields(rows@[i], "source"@)
        },
{
    let mut out: Vec<FlutterSource> = Vec::new();
    let mut i: usize = 0;
    while i < rows.len()
        invariant
            i <= rows@.len(),
            out@.len() == i,
            forall|j: int| 0 <= j < i ==> {
                let s = #[trigger] out@[j];
                (s.id@, s.name@, s.kind@, s.syncState@, s.updatedAt@) == entry_fields(rows@[j], "source"@)
            },
        decreases rows@.len() - i,
    {
        let row = &rows[i];
        out.push(FlutterSource {
            id: row.id.clone(),
            name: row.name.clone(),
            kind: to_owned_string("source"),
            syncState: to_owned_string("done"),
            updatedAt: date_text(&row.created_date),
        });
        i = i + 1;
    }
    out
}

/// The categories of one kind (`earning` or `spending`) as the client caches
/// them, in the stored order.
pub fn sync_categories(rows: &Vec<SyncRow>, kind: &str) -> (r: Vec<FlutterCategory>)
    ensures
        r@.len() == rows@.len(),
        forall|i: int| 0 <= i < rows@.len() ==> {
            let c = #[trigger] r@[i];
            (c.id@, c.name@, c.kind@, c.syncState@, c.updatedAt@) == entry_fields(rows@[i], kind@)
        },
{
    let mut out: Vec<FlutterCategory> = Vec::new();
    let mut i: usize = 0;
    while i < rows.len()
        invariant
            i <= rows@.len(),
            out@.len() == i,
            forall|j: int| 0 <= j < i ==> {
                let c = #[trigger] out@[j];
                (c.id@, c.name@, c.kind@, c.syncState@, c.updatedAt@) == entry_fields(rows@[j], kind@)
            },
        decreases rows@.len() - i,
    {
        let row = &rows[i];
        out.push(FlutterCategory {
            id: row.id.clone(),
            name: row.name.clone(),
            kind: to_owned_string(kind),
            syncState: to_owned_string("done"),
            updatedAt: date_text(&row.created_date),
        });
        i = i + 1;
    }
    out
}

/// A stored spending or earning as the sync endpoint reads it, without its
/// amount, which is handed to the client unchanged.
pub struct SyncTransactionRow {
    pub id: String,
    pub description: String,
    pub category_id: String,
    pub source_id: String,
    pub created_date: Option<String>,
}

/// A transaction as the mobile client caches it, but for its amount.
pub struct FlutterTransactionEntry {
    pub id: String,
    pub kind: String,
    pub description: String,
    pub category: Option<String>,
    pub source: Option<String>,
    pub fromSource: Option<String>,
    pub toSource: Option<String>,
    pub date: String,
    pub syncState: String,
    pub updatedAt: String,
}

/// A cached transaction built from a row: the given kind, its category and
/// source, no transfer sides, `done`, and the creation date (empty when
/// unknown) as both its date and its update time.
pub open spec fn transaction_entry_ok(e: FlutterTransactionEntry, row: SyncTransactionRow, kind: Seq<char>) -> bool {
    let date = match row.created_date { Some(d) => d@, None => Seq::empty() };
    &&& e.id@ == row.id@
    &&& e.kind@ == kind
    &&& e.description@ == row.description@
    &&& e.category matches Some(c) && c@ == row.category_id@
    &&& e.source matches Some(s) && s@ == row.source_id@
    &&& e.fromSource is None
    &&& e.toSource is None
    &&& e.date@ == date
    &&& e.syncState@ == "done"@
    &&& e.updatedAt@ == date
}

/// The spendings or earnings (`kind`) as the client caches them, in the
/// stored order; the entry at a position belongs to the row at that position.
pub fn sync_transactions(rows: &Vec<SyncTransactionRow>, kind: &str) -> (r: Vec<FlutterTransactionEntry>)
    ensures
        r@.len() == rows@.len(),
        forall|i: int| 0 <= i < rows@.len() ==> transaction_entry_ok(#[trigger] r@[i], rows@[i], kind@),
{
    let mut out: Vec<FlutterTransactionEntry> = Vec::new();
    let mut i: usize = 0;
    while i < rows.len()
        invariant
            i <= rows@.len(),
            out@.len() == i,
            forall|j: int| 0 <= j < i ==> transaction_entry_ok(#[trigger] out@[j], rows@[j], kind@),
        decreases rows@.len() - i,
    {
        let row = &rows[i];
        out.push(FlutterTransactionEntry {
            id: row.id.clone(),
            kind: to_owned_string(kind),
            description: row.description.clone(),
            category: Some(row.category_id.clone()),
            source: Some(row.source_id.clone()),
            fromSource: None,
            toSource: None,
            date: date_text(&row.created_date),
            syncState: to_owned_string("done"),
            updatedAt: date_text(&row.created_date),
        });
        i = i + 1;
    }
    out
}

} // verus!
