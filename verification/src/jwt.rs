//! Bearer-token handling for the `Authorization` header.
use vstd::prelude::*;
use vstd::string::*;
use crate::text::to_owned_string;

verus! {

/// The prefix that introduces a bearer token.
pub open spec fn bearer_prefix() -> Seq<char> {
    seq!['B', 'e', 'a', 'r', 'e', 'r', ' ']
}

/// The token of an `Authorization` header: what follows `Bearer `, when that
/// is not empty.
pub open spec fn bearer_token_of(header: Seq<char>) -> Option<Seq<char>> {
    if header.len() > 7 && header.subrange(0, 7) == bearer_prefix() {
        Some(header.subrange(7, header.len() as int))
    } else {
        None
    }
}

/// Whether `header` starts with `Bearer `.
fn has_bearer_prefix(header: &str) -> (r: bool)
    ensures
        r == (header@.len() >= 7 && header@.subrange(0, 7) == bearer_prefix()),
{
    let n = header.unicode_len();
    if n < 7 {
        return false;
    }
    let ok = header.get_char(0) == 'B' && header.get_char(1) == 'e' && header.get_char(2) == 'a'
        && header.get_char(3) == 'r' && header.get_char(4) == 'e' && header.get_char(5) == 'r'
        && header.get_char(6) == ' ';
    proof {
        if ok {
            assert(header@.subrange(0, 7) =~= bearer_prefix());
        } else if header@.subrange(0, 7) == bearer_prefix() {
            assert(header@.subrange(0, 7)[0] == 'B');
            assert(header@.subrange(0, 7)[1] == 'e');
            assert(header@.subrange(0, 7)[2] == 'a');
            assert(header@.subrange(0, 7)[3] == 'r');
            assert(header@.subrange(0, 7)[4] == 'e');
            assert(header@.subrange(0, 7)[5] == 'r');
            assert(header@.subrange(0, 7)[6] == ' ');
        }
    }
    ok
}

/// The token of a `Bearer <token>` header, or `None` when the header has
/// another scheme or an empty token.
pub fn extract_bearer_token(auth_header: &str) -> (r: Option<&str>)
    ensures
        r matches Some(t) ==> bearer_token_of(auth_header@) == Some(t@),
        r is None ==> bearer_token_of(auth_header@) is None,
{
    if !has_bearer_prefix(auth_header) {
        return None;
    }
    let n = auth_header.unicode_len();
    if n == 7 {
        return None;
    }
    Some(auth_header.substring_char(7, n))
}

/// Why a token gave no username.
pub enum TokenError {
    /// The token was refused: bad signature, expired, malformed, or claims
    /// that do not decode. Holds the reason as the token library states it.
    Rejected(String),
    /// The token was accepted but its claims hold no `sub` text.
    NoSubject,
}

/// Whether a text holds at least two `.`, which the three-part shape
/// `header.payload.signature` of a token needs.
pub open spec fn has_two_dots(s: Seq<char>) -> bool {
    exists|i: int, j: int| #![trigger s[i], s[j]] 0 <= i < j < s.len() && s[i] == '.' && s[j] == '.'
}

/// What `jsonwebtoken::decode` (claims read as a JSON value, HMAC key made
/// from `secret`, the default HS256 validation) gives for `token` while the
/// token has not expired: `None` when the token is refused whatever the
/// clock reads (its shape, header, algorithm, signature, claims that do not
/// decode, an `exp` that is missing or not a number, an audience), else
/// `Some` of the `sub` claim's text, or `Some(None)` when `sub` is no text.
/// The clock only enters through the `exp` comparison, which the library
/// makes after all of these, so this is a function of the two texts alone.
pub uninterp spec fn hs256_unexpired_sub(token: Seq<char>, secret: Seq<char>) -> Option<Option<Seq<char>>>;

/// The view of an optional text.
pub open spec fn opt_text_view(o: Option<String>) -> Option<Seq<char>> {
    match o {
        Some(s) => Some(s@),
        None => None,
    }
}

/// Calls `jsonwebtoken::decode` with an HMAC key made from `secret` and the
/// library's default validation (HS256, `exp` required and not past), and
/// hands back the `sub` claim when it is a text. What it accepts is the
/// token's outcome apart from the clock (`hs256_unexpired_sub` of the two
/// texts): a token refused whatever the clock reads is refused, and an
/// accepted one gives that outcome's `sub`. A token with fewer than two `.`
/// cannot be split into its three parts, which the library refuses with
/// `InvalidToken` before looking at the key or the clock. A token that
/// passes every check but the clock's is either accepted with that outcome's
/// `sub` or refused as `ExpiredSignature`; which of the two depends on the
/// clock and is not stated.
#[verifier::external_body]
fn decode_subject(token: &str, secret: &str) -> (r: Result<Option<String>, String>)
    ensures
        !has_two_dots(token@) ==> r is Err && r->Err_0@ == "InvalidToken"@,
        hs256_unexpired_sub(token@, secret@) is None ==> r is Err,
        r is Ok ==> hs256_unexpired_sub(token@, secret@) == Some(opt_text_view(r->Ok_0)),
        hs256_unexpired_sub(token@, secret@) is Some ==> (r is Ok || r->Err_0@ == "ExpiredSignature"@),
{
    match jsonwebtoken::decode::<serde_json::Value>(
        token,
        &jsonwebtoken::DecodingKey::from_secret(secret.as_bytes()),
        &jsonwebtoken::Validation::new(jsonwebtoken::Algorithm::HS256),
    ) {
        Ok(data) => match data.claims.get("sub") {
            Some(serde_json::Value::String(sub)) => Ok(Some(sub.clone())),
            _ => Ok(None),
        },
        Err(err) => Err(err.to_string()),
    }
}

/// The secret used when none is configured.
pub open spec fn default_jwt_secret() -> Seq<char> {
    "default_dev_secret_please_change_in_production"@
}

/// The signing secret: the configured one, else the development default.
pub fn jwt_secret(configured: Option<String>) -> (r: String)
    ensures
        configured matches Some(c) ==> r == c,
        configured is None ==> r@ == default_jwt_secret(),
{
    match configured {
        Some(c) => c,
        None => to_owned_string("default_dev_secret_please_change_in_production"),
    }
}

/// What a decoding outcome gives: the `sub` text when the token was
/// accepted and carries one, `NoSubject` when it was accepted without one,
/// and the library's reason when it was refused.
pub fn username_from_decoded(decoded: Result<Option<String>, String>) -> (r: Result<String, TokenError>)
    ensures
        decoded matches Ok(Some(sub)) ==> r == Ok::<String, TokenError>(sub),
        decoded matches Ok(None) ==> r == Err::<String, TokenError>(TokenError::NoSubject),
        decoded matches Err(reason) ==> r == Err::<String, TokenError>(TokenError::Rejected(reason)),
{
    match decoded {
        Ok(Some(sub)) => Ok(sub),
        Ok(None) => Err(TokenError::NoSubject),
        Err(reason) => Err(TokenError::Rejected(reason)),
    }
}

/// The username (`sub` claim) of a token signed with `secret`. A token
/// without the three-part shape is refused as `InvalidToken`, and any token
/// the library refuses whatever the clock reads is refused. A username given
/// is the `sub` text of that token under that secret, and `NoSubject` comes
/// only for a token that passed the checks and carries no `sub` text. A
/// token that passes every check but the clock's gives its `sub` (or
/// `NoSubject`) unless it has expired, when it is refused as
/// `ExpiredSignature`; which of the two depends on the clock.
pub fn decode_username(token: &str, secret: &str) -> (r: Result<String, TokenError>)
    ensures
        hs256_unexpired_sub(token@, secret@) matches Some(Some(u)) ==> ((r matches Ok(v) && v@ == u)
            || (r matches Err(TokenError::Rejected(e)) && e@ == "ExpiredSignature"@)),
        hs256_unexpired_sub(token@, secret@) == Some(None::<Seq<char>>) ==> (r == Err::<String, TokenError>(TokenError::NoSubject)
            || (r matches Err(TokenError::Rejected(e)) && e@ == "ExpiredSignature"@)),
        !has_two_dots(token@) ==> (r matches Err(TokenError::Rejected(reason)) && reason@ == "InvalidToken"@),
        hs256_unexpired_sub(token@, secret@) is None ==> r matches Err(TokenError::Rejected(_)),
        r matches Ok(u) ==> hs256_unexpired_sub(token@, secret@) == Some(Some(u@)),
        r matches Err(TokenError::NoSubject) ==> hs256_unexpired_sub(token@, secret@) == Some(None::<Seq<char>>),
{
    username_from_decoded(decode_subject(token, secret))
}

/// A bearer token handed out is never empty, and the token of
/// `Bearer <t>` is `t` for any non-empty `t`.
pub proof fn law_bearer_token_round_trip(header: Seq<char>, t: Seq<char>)
    ensures
        bearer_token_of(header) matches Some(tok) ==> tok.len() > 0 && header == bearer_prefix() + tok,
        t.len() > 0 ==> bearer_token_of(bearer_prefix() + t) == Some(t),
{
    if let Some(tok) = bearer_token_of(header) {
        assert(header =~= header.subrange(0, 7) + tok);
    }
    if t.len() > 0 {
        let h = bearer_prefix() + t;
        assert(h.subrange(0, 7) =~= bearer_prefix());
        assert(h.subrange(7, h.len() as int) =~= t);
    }
}

} // verus!
