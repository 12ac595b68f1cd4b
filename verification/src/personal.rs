//! Rules of a user's own records: consumable units, investment holdings,
//! planned expenses (the wishlist), planned transactions, activity
//! categories and routine transactions.
use vstd::prelude::*;
use vstd::string::*;
use crate::text::{normalize, normalized, str_equal, to_owned_string, trim, trim_seq, trimmed};
use crate::responses::{Rejection, RejectionView, rej, refused};
use crate::dates::{LocalDateTime, parse_date, parse_date_of};
use crate::settings_client::{uuid_parse, uuid_parse_of, uuid_text_value};
use crate::responses::{first_position, position_of};

verus! {

/// Body of a request naming a new activity category.
pub struct ActivityCategoryInput {
    pub activity_category: String,
}

/// Body of a request that marks a consumable unit used up (or, with no date,
/// back in use).
pub struct ConsumableOutInput {
    pub out_date: Option<String>,
}

/// Body of a request naming a new planned-expense category.
pub struct PlannedExpenseCategoryInput {
    pub planned_expense_category: String,
}

/// Body of a request that ticks or unticks a spending's line item.
pub struct SpendingDetailCheckedInput {
    pub checked: bool,
}

/// A required text field: trimmed, it must not be empty. Gives it trimmed;
/// otherwise the refusal with `message` and `description`.
pub open spec fn required_text_of(raw: Seq<char>, message: Seq<char>, description: Seq<char>) -> Result<Seq<char>, RejectionView> {
    if trim_seq(raw).len() == 0 {
        Err(rej(400, message, description))
    } else {
        Ok(trim_seq(raw))
    }
}

/// Checks a required text field.
pub fn required_text(raw: &str, message: &str, description: &str) -> (r: Result<String, Rejection>)
    ensures
        match (r, required_text_of(raw@, message@, description@)) {
            (Ok(a), Ok(b)) => a@ == b,
            (Err(a), Err(b)) => a@ == b,
            _ => false,
        },
{
    let t = trimmed(raw);
    if t.as_str().unicode_len() == 0 {
        return Err(Rejection::new(400, message, description));
    }
    Ok(t)
}

/// A consumable needs an item name.
pub fn check_consumable_name(item_name: &str) -> (r: Result<String, Rejection>)
    ensures
        match (r, required_text_of(item_name@, "Invalid consumable"@, "item_name is required"@)) {
            (Ok(a), Ok(b)) => a@ == b,
            (Err(a), Err(b)) => a@ == b,
            _ => false,
        },
{
    required_text(item_name, "Invalid consumable", "item_name is required")
}

/// The unit position or count a new consumable gets when the body names
/// none.
pub fn default_unit() -> (r: i32)
    ensures
        r == 1,
{
    1
}

/// A unit position or count below one counts as one.
pub fn at_least_one(v: i32) -> (r: i32)
    ensures
        r == if v < 1 { 1 } else { v },
{
    if v < 1 { 1 } else { v }
}

/// The date a unit came in: the one sent, when readable, else now.
pub fn in_date_or(raw: &Option<String>, now: LocalDateTime) -> (r: LocalDateTime)
    ensures
        r == match parse_date_of(match raw { Some(s) => Some(s@), None => None }) { Some(d) => d, None => now },
{
    match parse_date(raw) {
        Some(d) => d,
        None => now,
    }
}

/// The date a unit ran out: none puts it back in use, but a date that was
/// sent and cannot be read is refused.
pub fn check_out_date(raw: &Option<String>) -> (r: Result<Option<LocalDateTime>, Rejection>)
    ensures
        raw is None ==> r == Ok::<Option<LocalDateTime>, Rejection>(None),
        raw matches Some(s) ==> match parse_date_of(Some(s@)) {
            Some(d) => r == Ok::<Option<LocalDateTime>, Rejection>(Some(d)),
            None => refused(r) == Some(rej(400, "Invalid out date"@, "out_date could not be read as a date"@)),
        },
{
    let out_date = parse_date(raw);
    if raw.is_some() && out_date.is_none() {
        return Err(Rejection::new(400, "Invalid out date", "out_date could not be read as a date"));
    }
    Ok(out_date)
}

/// A change of a unit's out date that touched no row of the caller's.
pub fn consumable_out_updated(rows: u64) -> (r: Result<(), Rejection>)
    ensures
        r is Ok <==> rows > 0,
        rows == 0 ==> refused(r) == Some(rej(404, "Consumable not found"@, "No consumable with that id belongs to this user"@)),
{
    if rows == 0 { Err(Rejection::new(404, "Consumable not found", "No consumable with that id belongs to this user")) } else { Ok(()) }
}

/// The three holdings the clients know how to render.
pub open spec fn is_investment_kind(kind: Seq<char>) -> bool {
    kind == "mutual_fund"@ || kind == "gold"@ || kind == "silver"@
}

/// A holding needs a name; its kind (trimmed, lower-cased) must be one of
/// the three; units and buy price cannot be negative (`negative` is either
/// compared with `< 0.0`). Gives the trimmed name and the kind.
pub open spec fn investment_check_of(name: Seq<char>, kind: Seq<char>, negative: bool) -> Result<(Seq<char>, Seq<char>), RejectionView> {
    if trim_seq(name).len() == 0 {
        Err(rej(400, "Invalid investment"@, "name is required"@))
    } else if !is_investment_kind(normalized(kind)) {
        Err(rej(400, "Invalid investment"@, "kind must be one of mutual_fund, gold, silver"@))
    } else if negative {
        Err(rej(400, "Invalid investment"@, "units and buy_unit_price cannot be negative"@))
    } else {
        Ok((trim_seq(name), normalized(kind)))
    }
}

/// Checks a holding before it is saved.
pub fn check_investment(name: &str, kind: &str, negative: bool) -> (r: Result<(String, String), Rejection>)
    ensures
        match (r, investment_check_of(name@, kind@, negative)) {
            (Ok(a), Ok(b)) => a.0@ == b.0 && a.1@ == b.1,
            (Err(a), Err(b)) => a@ == b,
            _ => false,
        },
{
    let n = trimmed(name);
    if n.as_str().unicode_len() == 0 {
        return Err(Rejection::new(400, "Invalid investment", "name is required"));
    }
    let k = normalize(kind);
    let ks = k.as_str();
    if !(str_equal(ks, "mutual_fund") || str_equal(ks, "gold") || str_equal(ks, "silver")) {
        return Err(Rejection::new(400, "Invalid investment", "kind must be one of mutual_fund, gold, silver"));
    }
    if negative {
        return Err(Rejection::new(400, "Invalid investment", "units and buy_unit_price cannot be negative"));
    }
    Ok((n, k))
}

/// A fresh price cannot be negative (`negative` is the price compared with
/// `< 0.0`).
pub fn check_price(negative: bool) -> (r: Result<(), Rejection>)
    ensures
        r is Ok <==> !negative,
        negative ==> refused(r) == Some(rej(400, "Invalid price"@, "last_unit_price cannot be negative"@)),
{
    if negative { Err(Rejection::new(400, "Invalid price", "last_unit_price cannot be negative")) } else { Ok(()) }
}

/// A price update that changed no row of the caller's.
pub fn price_updated(rows: u64) -> (r: Result<(), Rejection>)
    ensures
        r is Ok <==> rows > 0,
        rows == 0 ==> refused(r) == Some(rej(404, "Investment not found"@, "No investment with that id belongs to this user"@)),
{
    if rows == 0 { Err(Rejection::new(404, "Investment not found", "No investment with that id belongs to this user")) } else { Ok(()) }
}

/// A planned expense is a `spending` (the default) or an `earning`.
pub fn planned_expense_type(transaction_type: Option<String>) -> (r: Result<String, Rejection>)
    ensures
        transaction_type is None ==> (r matches Ok(t) && t@ == "spending"@),
        transaction_type matches Some(t) ==> (if t@ == "spending"@ || t@ == "earning"@ {
            r == Ok::<String, Rejection>(t)
        } else {
            refused(r) == Some(rej(400, "Invalid planned expense type"@, "transaction_type must be spending or earning"@))
        }),
{
    let t = match transaction_type {
        Some(t) => t,
        None => to_owned_string("spending"),
    };
    if !str_equal(t.as_str(), "spending") && !str_equal(t.as_str(), "earning") {
        return Err(Rejection::new(400, "Invalid planned expense type", "transaction_type must be spending or earning"));
    }
    Ok(t)
}

/// The status a new planned expense starts in.
pub fn new_planned_expense_status() -> (r: String)
    ensures
        r@ == "active"@,
{
    to_owned_string("active")
}

/// A planned expense's status is `active`, `fulfilled` or `canceled`.
pub fn check_planned_expense_status(status: &str) -> (r: Result<(), Rejection>)
    ensures
        r is Ok <==> (status@ == "active"@ || status@ == "fulfilled"@ || status@ == "canceled"@),
        r is Err ==> refused(r) == Some(rej(400, "Invalid planned expense status"@, "Status must be active, fulfilled, or canceled"@)),
{
    if !str_equal(status, "active") && !str_equal(status, "fulfilled") && !str_equal(status, "canceled") {
        return Err(Rejection::new(400, "Invalid planned expense status", "Status must be active, fulfilled, or canceled"));
    }
    Ok(())
}

/// A planned transaction needs a name.
pub fn check_planned_transaction_name(name: &str) -> (r: Result<String, Rejection>)
    ensures
        match (r, required_text_of(name@, "Invalid planned transaction"@, "name is required"@)) {
            (Ok(a), Ok(b)) => a@ == b,
            (Err(a), Err(b)) => a@ == b,
            _ => false,
        },
{
    required_text(name, "Invalid planned transaction", "name is required")
}

/// The id in a path, or the refusal carrying the parser's message; `message`
/// names what the id is of.
pub fn path_id(raw: &str, message: &str) -> (r: Result<u128, Rejection>)
    ensures
        uuid_text_value(raw@) matches Some(v) ==> r == Ok::<u128, Rejection>(v),
        uuid_parse_of(raw@) matches Err(why) ==> refused(r) == Some(rej(400, message@, why)),
{
    match uuid_parse(raw) {
        Ok(v) => Ok(v),
        Err(why) => Err(Rejection::with_description(400, message, why)),
    }
}

/// A detail is added only to one of the caller's planned transactions.
pub fn planned_transaction_found(exists: bool) -> (r: Result<(), Rejection>)
    ensures
        r is Ok <==> exists,
        !exists ==> refused(r) == Some(rej(404, "Planned transaction not found"@, "No planned transaction with that id belongs to this user"@)),
{
    if exists { Ok(()) } else { Err(Rejection::new(404, "Planned transaction not found", "No planned transaction with that id belongs to this user")) }
}

/// A planned transaction's detail needs an item name.
pub fn check_planned_detail_name(item_name: &str) -> (r: Result<String, Rejection>)
    ensures
        match (r, required_text_of(item_name@, "Invalid planned transaction detail"@, "item_name is required"@)) {
            (Ok(a), Ok(b)) => a@ == b,
            (Err(a), Err(b)) => a@ == b,
            _ => false,
        },
{
    required_text(item_name, "Invalid planned transaction detail", "item_name is required")
}

/// An activity category needs a name.
pub fn check_activity_name(name: &str) -> (r: Result<String, Rejection>)
    ensures
        match (r, required_text_of(name@, "Invalid activity category"@, "activity_category is required"@)) {
            (Ok(a), Ok(b)) => a@ == b,
            (Err(a), Err(b)) => a@ == b,
            _ => false,
        },
{
    required_text(name, "Invalid activity category", "activity_category is required")
}

/// A saved activity category that could not be read back.
pub fn activity_read_back<T>(saved: Option<T>) -> (r: Result<T, Rejection>)
    ensures
        saved matches Some(s) ==> r == Ok::<T, Rejection>(s),
        saved is None ==> refused(r) == Some(rej(500, "Failed to save activity category"@, "Saved category could not be read back"@)),
{
    match saved {
        Some(s) => Ok(s),
        None => Err(Rejection::new(500, "Failed to save activity category", "Saved category could not be read back")),
    }
}

/// The position of the first routine with the id, among the caller's.
pub fn find_routine(ids: &[u128], routine_id: u128) -> (r: Result<usize, Rejection>)
    ensures
        r matches Ok(i) ==> first_position(ids@, routine_id) == Some(i as int),
        r is Err ==> first_position(ids@, routine_id) is None
            && refused(r) == Some(rej(404, "Routine transaction not found"@, ""@)),
{
    match position_of(ids, routine_id) {
        Some(i) => Ok(i),
        None => Err(Rejection::new(404, "Routine transaction not found", "")),
    }
}

/// A spending line item changed only when it is the caller's.
pub fn detail_updated(rows: u64) -> (r: Result<(), Rejection>)
    ensures
        r is Ok <==> rows > 0,
        rows == 0 ==> refused(r) == Some(rej(404, "Spending detail not found"@, "No line item with that id belongs to this user"@)),
{
    if rows == 0 { Err(Rejection::new(404, "Spending detail not found", "No line item with that id belongs to this user")) } else { Ok(()) }
}

/// A new line item is ticked unless the client says otherwise.
pub fn default_checked() -> (r: bool)
    ensures
        r,
{
    true
}

} // verus!
