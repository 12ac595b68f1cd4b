//! Account lookup against the login service: the path encoding of a
//! username and the reading of the service's reply.
use vstd::prelude::*;
use vstd::string::*;
use crate::text::{push_char, to_owned_string};
use crate::settings_client::{
    request_failed, bad_status, unreadable_body, request_failed_text, bad_status_text,
    unreadable_body_text,
};

verus! {

/// Bytes that may stand in a path segment as they are: ASCII letters and
/// digits and `-`, `_`, `.`, `~`.
pub open spec fn is_unreserved(b: u8) -> bool {
    ||| (0x41 <= b && b <= 0x5a)
    ||| (0x61 <= b && b <= 0x7a)
    ||| (0x30 <= b && b <= 0x39)
    ||| b == 0x2d
    ||| b == 0x5f
    ||| b == 0x2e
    ||| b == 0x7e
}

/// The upper-case hexadecimal digit for `n < 16`.
pub open spec fn hex_digit(n: int) -> char {
    if n < 10 {
        (48 + n) as char
    } else {
        (55 + n) as char
    }
}

/// How one byte appears in the encoded path: itself when unreserved, else
/// `%` and two upper-case hexadecimal digits.
pub open spec fn encode_byte(b: u8) -> Seq<char> {
    if is_unreserved(b) {
        seq![b as char]
    } else {
        seq!['%', hex_digit(b as int / 16), hex_digit(b as int % 16)]
    }
}

/// The percent-encoding of a byte string.
pub open spec fn percent_encode(bytes: Seq<u8>) -> Seq<char>
    decreases bytes.len(),
{
    if bytes.len() == 0 {
        Seq::empty()
    } else {
        percent_encode(bytes.drop_last()) + encode_byte(bytes.last())
    }
}

fn hex_digit_exec(n: u8) -> (r: char)
    requires
        n < 16,
    ensures
        r == hex_digit(n as int),
{
    if n < 10 {
        ((48 + n) as u8) as char
    } else {
        ((55 + n) as u8) as char
    }
}

/// Percent-encodes every byte of `value` outside the unreserved set, so a
/// username can stand in a path segment safely.
pub fn urlencoding_path(value: &str) -> (r: String)
    ensures
        r@ == percent_encode(value.spec_bytes()),
{
    let bytes = value.as_bytes();
    let mut out = String::new();
    let mut i: usize = 0;
    while i < bytes.len()
        invariant
            bytes@ == value.spec_bytes(),
            i <= bytes@.len(),
            out@ == percent_encode(bytes@.take(i as int)),
        decreases bytes@.len() - i,
    {
        let b = bytes[i];
        proof {
            assert(bytes@.take(i + 1).drop_last() =~= bytes@.take(i as int));
        }
        if (0x41 <= b && b <= 0x5a) || (0x61 <= b && b <= 0x7a) || (0x30 <= b && b <= 0x39)
            || b == 0x2d || b == 0x5f || b == 0x2e || b == 0x7e {
            push_char(&mut out, b as char);
        } else {
            push_char(&mut out, '%');
            push_char(&mut out, hex_digit_exec(b / 16));
            push_char(&mut out, hex_digit_exec(b % 16));
        }
        proof {
            assert(out@ =~= percent_encode(bytes@.take(i as int)) + encode_byte(b));
        }
        i = i + 1;
    }
    proof {
        assert(bytes@.take(bytes@.len() as int) =~= bytes@);
    }
    out
}

/// The outcome of looking an account up in the login service.
pub enum UserLookup {
    /// The account exists; holds the username exactly as the service stores it.
    Found(String),
    NotFound,
    /// The service could not be asked. The caller should not guess either way.
    Unavailable(String),
}

/// The address of an account in the login service.
pub open spec fn user_url_of(base: Seq<char>, username: &str) -> Seq<char> {
    base + "/api/user/users/"@ + percent_encode(username.spec_bytes())
}

/// The address at which the login service answers for `username`.
pub fn user_lookup_url(base: &str, username: &str) -> (r: String)
    ensures
        r@ == user_url_of(base@, username),
{
    let mut r = to_owned_string(base);
    r.append("/api/user/users/");
    let encoded = urlencoding_path(username);
    r.append(encoded.as_str());
    r
}

/// What came back from sending the lookup request.
pub enum UserReplyHead {
    /// The request could not be sent.
    SendFailed(String),
    /// The reply's status code, and the status as displayed.
    Status(u16, String),
}

/// The next move of a lookup once the request was sent: a final outcome, or
/// reading the body.
pub enum LookupStep {
    Done(UserLookup),
    ReadBody,
}

/// The abstract lookup outcome: found with a username, not found, or
/// unavailable with a reason.
pub enum LookupView {
    Found(Seq<char>),
    NotFound,
    Unavailable(Seq<char>),
}

/// The abstract view of a lookup outcome.
pub open spec fn lookup_view(l: UserLookup) -> LookupView {
    match l {
        UserLookup::Found(name) => LookupView::Found(name@),
        UserLookup::NotFound => LookupView::NotFound,
        UserLookup::Unavailable(why) => LookupView::Unavailable(why@),
    }
}

/// Whether an HTTP status code means success (2xx).
pub open spec fn is_success_status(code: u16) -> bool {
    200 <= code && code < 300
}

/// The step after sending: unavailable when the request failed, not found on
/// 404, unavailable on any other status that is not a success, else read the
/// body.
pub open spec fn step_after_send(url: Seq<char>, head: UserReplyHead) -> Option<LookupView> {
    match head {
        UserReplyHead::SendFailed(err) => Some(LookupView::Unavailable(request_failed_text(url, err@))),
        UserReplyHead::Status(code, shown) => {
            if code == 404 {
                Some(LookupView::NotFound)
            } else if !is_success_status(code) {
                Some(LookupView::Unavailable(bad_status_text(url, shown@)))
            } else {
                None
            }
        },
    }
}

/// Decides what follows sending the lookup request to `url`.
pub fn lookup_after_send(url: &str, head: UserReplyHead) -> (r: LookupStep)
    ensures
        step_after_send(url@, head) matches Some(v) ==> (r matches LookupStep::Done(l) && lookup_view(l) == v),
        step_after_send(url@, head) is None ==> r is ReadBody,
{
    match head {
        UserReplyHead::SendFailed(err) => LookupStep::Done(UserLookup::Unavailable(request_failed(url, err.as_str()))),
        UserReplyHead::Status(code, shown) => {
            if code == 404 {
                LookupStep::Done(UserLookup::NotFound)
            } else if !(200 <= code && code < 300) {
                LookupStep::Done(UserLookup::Unavailable(bad_status(url, shown.as_str())))
            } else {
                LookupStep::ReadBody
            }
        },
    }
}

/// The outcome read from the body: the envelope's username when it holds
/// one, not found when it holds no data, unavailable when the body cannot be
/// read.
pub open spec fn outcome_of_body(url: Seq<char>, body: Result<Option<String>, String>) -> LookupView {
    match body {
        Ok(Some(name)) => LookupView::Found(name@),
        Ok(None) => LookupView::NotFound,
        Err(err) => LookupView::Unavailable(unreadable_body_text(url, err@)),
    }
}

/// Decides the outcome from the body of a successful reply.
pub fn lookup_from_body(url: &str, body: Result<Option<String>, String>) -> (r: UserLookup)
    ensures
        lookup_view(r) == outcome_of_body(url@, body),
{
    match body {
        Ok(Some(name)) => UserLookup::Found(name),
        Ok(None) => UserLookup::NotFound,
        Err(err) => UserLookup::Unavailable(unreadable_body(url, err.as_str())),
    }
}

/// Characters that may appear in an encoded path segment: the unreserved
/// ASCII characters, `%`, and upper-case hexadecimal digits.
pub open spec fn is_path_safe(c: char) -> bool {
    ||| ('A' <= c && c <= 'Z')
    ||| ('a' <= c && c <= 'z')
    ||| ('0' <= c && c <= '9')
    ||| c == '-' || c == '_' || c == '.' || c == '~' || c == '%'
}

/// An encoded username only holds path-safe characters, so it never breaks
/// out of its path segment (no `/`, `?`, `#` or space), and it is at least
/// as long as the bytes and at most three characters per byte.
pub proof fn law_encoding_is_path_safe(bytes: Seq<u8>)
    ensures
        forall|i: int| 0 <= i < percent_encode(bytes).len() ==> is_path_safe(#[trigger] percent_encode(bytes)[i]),
        bytes.len() <= percent_encode(bytes).len() <= 3 * bytes.len(),
    decreases bytes.len(),
{
    if bytes.len() > 0 {
        law_encoding_is_path_safe(bytes.drop_last());
        let prev = percent_encode(bytes.drop_last());
        let tail = encode_byte(bytes.last());
        let b = bytes.last();
        assert forall|i: int| 0 <= i < tail.len() implies is_path_safe(#[trigger] tail[i]) by {
            if is_unreserved(b) {
                assert(tail[i] == b as char);
            } else {
                assert(0 <= b as int / 16 < 16);
                assert(0 <= b as int % 16 < 16);
            }
        }
        assert forall|i: int| 0 <= i < percent_encode(bytes).len() implies is_path_safe(#[trigger] percent_encode(bytes)[i]) by {
            if i < prev.len() {
                assert(percent_encode(bytes)[i] == prev[i]);
            } else {
                assert(percent_encode(bytes)[i] == tail[i - prev.len()]);
            }
        }
    }
}

/// A username made only of unreserved characters is left as it is.
pub proof fn law_unreserved_text_is_unchanged(bytes: Seq<u8>)
    requires
        forall|i: int| 0 <= i < bytes.len() ==> is_unreserved(#[trigger] bytes[i]),
    ensures
        percent_encode(bytes) == bytes.map_values(|b: u8| b as char),
    decreases bytes.len(),
{
    if bytes.len() > 0 {
        let init = bytes.drop_last();
        assert forall|i: int| 0 <= i < init.len() implies is_unreserved(#[trigger] init[i]) by {
            assert(init[i] == bytes[i]);
        }
        law_unreserved_text_is_unchanged(init);
        assert(is_unreserved(bytes[bytes.len() - 1]));
        assert(percent_encode(bytes) =~= bytes.map_values(|b: u8| b as char));
    } else {
        assert(percent_encode(bytes) =~= bytes.map_values(|b: u8| b as char));
    }
}

/// Encoding a concatenation encodes each part.
proof fn lemma_encode_append(a: Seq<u8>, b: Seq<u8>)
    ensures
        percent_encode(a + b) == percent_encode(a) + percent_encode(b),
    decreases b.len(),
{
    if b.len() == 0 {
        assert(a + b =~= a);
        assert(percent_encode(a) + percent_encode(b) =~= percent_encode(a));
    } else {
        lemma_encode_append(a, b.drop_last());
        assert((a + b).drop_last() =~= a + b.drop_last());
        assert((a + b).last() == b.last());
        assert(percent_encode(a) + percent_encode(b) =~= percent_encode(a) + percent_encode(b.drop_last()) + encode_byte(b.last()));
    }
}

/// The encoding starts with the first byte's encoding.
proof fn lemma_encode_first(x: Seq<u8>)
    requires
        x.len() > 0,
    ensures
        percent_encode(x) == encode_byte(x[0]) + percent_encode(x.drop_first()),
{
    let head = seq![x[0]];
    lemma_encode_append(head, x.drop_first());
    assert(head + x.drop_first() =~= x);
    assert(head.drop_last() =~= Seq::<u8>::empty());
    assert(head.last() == x[0]);
    assert(percent_encode(head.drop_last()) =~= Seq::<char>::empty());
    assert(percent_encode(head) == percent_encode(head.drop_last()) + encode_byte(head.last()));
    assert(percent_encode(head) =~= encode_byte(x[0]));
}

/// Upper-case hexadecimal digits tell their values apart.
proof fn lemma_hex_digit_injective(m: int, n: int)
    requires
        0 <= m < 16,
        0 <= n < 16,
        hex_digit(m) == hex_digit(n),
    ensures
        m == n,
{
    let cm = if m < 10 { 48 + m } else { 55 + m };
    let cn = if n < 10 { 48 + n } else { 55 + n };
    assert(hex_digit(m) as int == cm);
    assert(hex_digit(n) as int == cn);
}

/// Different bytes are encoded differently, and an escape never looks like a
/// byte kept as it is.
proof fn lemma_encode_byte_injective(a: u8, b: u8)
    requires
        encode_byte(a) == encode_byte(b),
    ensures
        a == b,
{
    if is_unreserved(a) && is_unreserved(b) {
        assert(encode_byte(a)[0] == a as char);
        assert(encode_byte(b)[0] == b as char);
        assert((a as char) as int == a as int);
        assert((b as char) as int == b as int);
    } else if !is_unreserved(a) && !is_unreserved(b) {
        assert(encode_byte(a)[1] == encode_byte(b)[1]);
        assert(encode_byte(a)[2] == encode_byte(b)[2]);
        lemma_hex_digit_injective(a as int / 16, b as int / 16);
        lemma_hex_digit_injective(a as int % 16, b as int % 16);
    } else {
        assert(encode_byte(a).len() != encode_byte(b).len());
    }
}

/// A kept byte is never `%`, so an encoding's first character tells how
/// long the first byte's encoding is.
proof fn lemma_first_char_decides_length(a: u8)
    ensures
        encode_byte(a).len() == if encode_byte(a)[0] == '%' { 3int } else { 1int },
{
    if is_unreserved(a) {
        assert(encode_byte(a)[0] == a as char);
        assert((a as char) as int == a as int);
        assert(('%' as int) == 0x25);
    }
}

/// Different usernames have different encodings, so two accounts never share
/// a lookup address.
pub proof fn law_encoding_is_injective(x: Seq<u8>, y: Seq<u8>)
    requires
        percent_encode(x) == percent_encode(y),
    ensures
        x == y,
    decreases x.len(),
{
    law_encoding_is_path_safe(x);
    law_encoding_is_path_safe(y);
    if x.len() == 0 {
        assert(y.len() == 0);
        assert(x =~= y);
    } else {
        assert(y.len() > 0);
        lemma_encode_first(x);
        lemma_encode_first(y);
        let ex = encode_byte(x[0]);
        let ey = encode_byte(y[0]);
        let e = percent_encode(x);
        assert(e[0] == ex[0]);
        assert(e[0] == ey[0]);
        lemma_first_char_decides_length(x[0]);
        lemma_first_char_decides_length(y[0]);
        assert(ex.len() == ey.len());
        assert(ex =~= e.subrange(0, ex.len() as int));
        assert(ey =~= e.subrange(0, ey.len() as int));
        lemma_encode_byte_injective(x[0], y[0]);
        assert(percent_encode(x.drop_first()) =~= e.subrange(ex.len() as int, e.len() as int));
        assert(percent_encode(y.drop_first()) =~= e.subrange(ey.len() as int, e.len() as int));
        law_encoding_is_injective(x.drop_first(), y.drop_first());
        assert(x =~= seq![x[0]] + x.drop_first());
        assert(y =~= seq![y[0]] + y.drop_first());
    }
}

} // verus!
