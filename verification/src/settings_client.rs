//! The category wiring read from the login service's global settings, and
//! the rules for using and caching those settings.
use vstd::prelude::*;
use vstd::string::*;
use crate::text::{str_equal, to_owned_string, trim, trim_seq, concat3};

verus! {

/// A row of the login service's settings table. Identifiers are UUIDs held
/// as their 128-bit value; the nil UUID is `0`.
pub struct AppSettings {
    pub app_setting_id: u128,
    pub app_setting_key: String,
    pub app_setting_value: String,
    pub created_by: String,
    pub is_active: i32,
}

/// What `uuid::Uuid::parse_str` yields for a text: the UUID's 128-bit value,
/// or the text of the parser's error (its `Display`) when the text is not a
/// UUID.
pub uninterp spec fn uuid_parse_of(text: Seq<char>) -> Result<u128, Seq<char>>;

/// The UUID a text holds, if any.
pub open spec fn uuid_text_value(text: Seq<char>) -> Option<u128> {
    match uuid_parse_of(text) {
        Ok(v) => Some(v),
        Err(_) => None,
    }
}

/// A parse outcome with its error text taken by its characters.
pub open spec fn parse_view(r: Result<u128, String>) -> Result<u128, Seq<char>> {
    match r {
        Ok(v) => Ok(v),
        Err(e) => Err(e@),
    }
}

/// Calls `uuid::Uuid::parse_str`: the UUID's value when the text is one, else
/// the parser's error message; both are named by `uuid_parse_of`.
#[verifier::external_body]
pub(crate) fn uuid_parse(text: &str) -> (r: Result<u128, String>)
    ensures
        parse_view(r) == uuid_parse_of(text@),
{
    match uuid::Uuid::parse_str(text) {
        Ok(id) => Ok(id.as_u128()),
        Err(err) => Err(err.to_string()),
    }
}

/// The UUID a text holds, or the nil UUID when it holds none.
pub open spec fn uuid_or_nil(text: Seq<char>) -> u128 {
    match uuid_text_value(text) {
        Some(v) => v,
        None => 0,
    }
}

/// Parses a UUID, falling back to the nil UUID.
pub fn parse_uuid(value: &str) -> (r: u128)
    ensures
        r == uuid_or_nil(value@),
{
    match uuid_parse(value) {
        Ok(v) => v,
        Err(_) => 0,
    }
}

/// The abstract wiring: three category ids and their display names.
pub struct WiringView {
    pub transfer_id: u128,
    pub transfer_name: Seq<char>,
    pub recount_id: u128,
    pub recount_name: Seq<char>,
    pub debt_id: u128,
    pub debt_name: Seq<char>,
}

/// The server-owned category wiring resolved from the global settings rows.
pub struct CategoryWiring {
    pub transfer_category_id: u128,
    pub transfer_category_name: String,
    pub recount_category_id: u128,
    pub recount_category_name: String,
    pub debt_category_id: u128,
    pub debt_category_name: String,
}

impl View for CategoryWiring {
    type V = WiringView;

    open spec fn view(&self) -> WiringView {
        WiringView {
            transfer_id: self.transfer_category_id,
            transfer_name: self.transfer_category_name@,
            recount_id: self.recount_category_id,
            recount_name: self.recount_category_name@,
            debt_id: self.debt_category_id,
            debt_name: self.debt_category_name@,
        }
    }
}

/// The wiring before any setting is read: nil ids and empty names.
pub open spec fn empty_wiring() -> WiringView {
    WiringView {
        transfer_id: 0,
        transfer_name: Seq::empty(),
        recount_id: 0,
        recount_name: Seq::empty(),
        debt_id: 0,
        debt_name: Seq::empty(),
    }
}

/// The wiring after reading one setting row.
pub open spec fn apply_setting(w: WiringView, key: Seq<char>, value: Seq<char>) -> WiringView {
    if key == "TRANSFER_CATEGORY_ID"@ {
        WiringView { transfer_id: uuid_or_nil(value), ..w }
    } else if key == "TRANSFER_CATEGORY_NAME"@ {
        WiringView { transfer_name: value, ..w }
    } else if key == "RECOUNT_CATEGORY_ID"@ {
        WiringView { recount_id: uuid_or_nil(value), ..w }
    } else if key == "RECOUNT_CATEGORY_NAME"@ {
        WiringView { recount_name: value, ..w }
    } else if key == "DEBT_CATEGORY_ID"@ {
        WiringView { debt_id: uuid_or_nil(value), ..w }
    } else if key == "DEBT_CATEGORY_NAME"@ {
        WiringView { debt_name: value, ..w }
    } else {
        w
    }
}

/// The wiring after reading the rows in order; a later row with the same key
/// wins.
pub open spec fn wiring_of(settings: Seq<AppSettings>) -> WiringView
    decreases settings.len(),
{
    if settings.len() == 0 {
        empty_wiring()
    } else {
        apply_setting(
            wiring_of(settings.drop_last()),
            settings.last().app_setting_key@,
            settings.last().app_setting_value@,
        )
    }
}

/// The configured name of `category_id` when it is one of the wired
/// categories, checked in the order transfer, recount, debt; the nil id never
/// resolves.
pub open spec fn resolve_name_of(w: WiringView, category_id: u128) -> Option<Seq<char>> {
    if category_id == 0 {
        None
    } else if category_id == w.transfer_id {
        Some(w.transfer_name)
    } else if category_id == w.recount_id {
        Some(w.recount_name)
    } else if category_id == w.debt_id {
        Some(w.debt_name)
    } else {
        None
    }
}

impl CategoryWiring {
    /// The wiring with nil ids and empty names, which is what callers see
    /// when the settings cannot be read.
    pub fn empty() -> (r: CategoryWiring)
        ensures
            r@ == empty_wiring(),
    {
        CategoryWiring {
            transfer_category_id: 0,
            transfer_category_name: String::new(),
            recount_category_id: 0,
            recount_category_name: String::new(),
            debt_category_id: 0,
            debt_category_name: String::new(),
        }
    }

    /// Reads the wiring from the global settings rows, in order.
    pub fn from_settings(settings: &[AppSettings]) -> (r: CategoryWiring)
        ensures
            r@ == wiring_of(settings@),
    {
        let mut wiring = CategoryWiring::empty();
        let mut i: usize = 0;
        while i < settings.len()
            invariant
                i <= settings@.len(),
                wiring@ == wiring_of(settings@.take(i as int)),
            decreases settings@.len() - i,
        {
            let setting = &settings[i];
            let value = setting.app_setting_value.as_str();
            let key = setting.app_setting_key.as_str();
            proof {
                assert(settings@.take(i + 1).drop_last() =~= settings@.take(i as int));
            }
            if str_equal(key, "TRANSFER_CATEGORY_ID") {
                wiring.transfer_category_id = parse_uuid(value);
            } else if str_equal(key, "TRANSFER_CATEGORY_NAME") {
                wiring.transfer_category_name = to_owned_string(value);
            } else if str_equal(key, "RECOUNT_CATEGORY_ID") {
                wiring.recount_category_id = parse_uuid(value);
            } else if str_equal(key, "RECOUNT_CATEGORY_NAME") {
                wiring.recount_category_name = to_owned_string(value);
            } else if str_equal(key, "DEBT_CATEGORY_ID") {
                wiring.debt_category_id = parse_uuid(value);
            } else if str_equal(key, "DEBT_CATEGORY_NAME") {
                wiring.debt_category_name = to_owned_string(value);
            }
            i = i + 1;
        }
        proof {
            assert(settings@.take(settings@.len() as int) =~= settings@);
        }
        wiring
    }

    /// The display name configured for `category_id` when it is one of the
    /// wired categories, else `None`.
    pub fn resolve_name(&self, category_id: u128) -> (r: Option<String>)
        ensures
            r matches Some(name) ==> resolve_name_of(self@, category_id) == Some(name@),
            r is None ==> resolve_name_of(self@, category_id) is None,
    {
        if category_id == 0 {
            return None;
        }
        if category_id == self.transfer_category_id {
            return Some(self.transfer_category_name.clone());
        }
        if category_id == self.recount_category_id {
            return Some(self.recount_category_name.clone());
        }
        if category_id == self.debt_category_id {
            return Some(self.debt_category_name.clone());
        }
        None
    }
}

impl Default for CategoryWiring {
    fn default() -> (r: CategoryWiring)
        ensures
            r@ == empty_wiring(),
    {
        CategoryWiring::empty()
    }
}

/// The Transfer category that money moved between members is filed under:
/// `None` while no transfer category is configured, else its id and its
/// name, `Transfer` when the configured name is empty.
pub open spec fn transfer_category_of(w: WiringView) -> Option<(u128, Seq<char>)> {
    if w.transfer_id == 0 {
        None
    } else if w.transfer_name.len() == 0 {
        Some((w.transfer_id, "Transfer"@))
    } else {
        Some((w.transfer_id, w.transfer_name))
    }
}

/// The Transfer category of `wiring`, if one is configured.
pub fn transfer_category(wiring: &CategoryWiring) -> (r: Option<(u128, String)>)
    ensures
        r matches Some((id, name)) ==> transfer_category_of(wiring@) == Some((id, name@)),
        r is None ==> transfer_category_of(wiring@) is None,
{
    if wiring.transfer_category_id == 0 {
        return None;
    }
    let name = if wiring.transfer_category_name.as_str().unicode_len() == 0 {
        to_owned_string("Transfer")
    } else {
        wiring.transfer_category_name.clone()
    };
    Some((wiring.transfer_category_id, name))
}

/// `s` without its trailing `/` characters.
pub open spec fn strip_trailing_slashes(s: Seq<char>) -> Seq<char>
    decreases s.len(),
{
    if s.len() > 0 && s.last() == '/' {
        strip_trailing_slashes(s.drop_last())
    } else {
        s
    }
}

/// The base URL used when none is configured.
pub open spec fn default_login_api_base() -> Seq<char> {
    "http://127.0.0.1:3002"@
}

/// The base URL of the login service: the configured value (or the default
/// when there is none), trimmed, without trailing slashes.
pub open spec fn login_api_base_of(configured: Option<Seq<char>>) -> Seq<char> {
    match configured {
        Some(raw) => strip_trailing_slashes(trim_seq(raw)),
        None => strip_trailing_slashes(trim_seq(default_login_api_base())),
    }
}

/// `s` without its trailing `/` characters, as `str::trim_end_matches('/')`
/// leaves it.
pub fn trim_trailing_slashes(s: &str) -> (r: String)
    ensures
        r@ == strip_trailing_slashes(s@),
{
    let n = s.unicode_len();
    let mut end: usize = n;
    proof {
        assert(s@.subrange(0, n as int) =~= s@);
    }
    while end > 0 && s.get_char(end - 1) == '/'
        invariant
            n == s@.len(),
            end <= n,
            strip_trailing_slashes(s@) == strip_trailing_slashes(s@.subrange(0, end as int)),
        decreases end,
    {
        proof {
            assert(s@.subrange(0, end as int).drop_last() =~= s@.subrange(0, end - 1));
        }
        end = end - 1;
    }
    proof {
        let t = s@.subrange(0, end as int);
        if end > 0 {
            assert(t.last() == s@[end - 1]);
        }
        assert(strip_trailing_slashes(t) == t);
        assert(s@.subrange(0, n as int) =~= s@);
    }
    to_owned_string(s.substring_char(0, end))
}

/// The characters of an optional text.
pub open spec fn str_option_view(o: Option<&str>) -> Option<Seq<char>> {
    match o {
        Some(s) => Some(s@),
        None => None,
    }
}

/// A result whose error text is taken by its characters.
pub open spec fn error_text_view<T>(r: Result<T, String>) -> Result<T, Seq<char>> {
    match r {
        Ok(v) => Ok(v),
        Err(e) => Err(e@),
    }
}

/// The base URL of the login service from the configured value, if any.
pub fn login_api_base(configured: Option<&str>) -> (r: String)
    ensures
        r@ == login_api_base_of(str_option_view(configured)),
{
    match configured {
        Some(raw) => trim_trailing_slashes(trim(raw)),
        None => trim_trailing_slashes(trim("http://127.0.0.1:3002")),
    }
}

/// `GET <url> failed: <err>`.
pub open spec fn request_failed_text(url: Seq<char>, err: Seq<char>) -> Seq<char> {
    "GET "@ + url + " failed: "@ + err
}

/// `GET <url> returned HTTP <status>`.
pub open spec fn bad_status_text(url: Seq<char>, status: Seq<char>) -> Seq<char> {
    "GET "@ + url + " returned HTTP "@ + status
}

/// `GET <url> returned an unreadable body: <err>`.
pub open spec fn unreadable_body_text(url: Seq<char>, err: Seq<char>) -> Seq<char> {
    "GET "@ + url + " returned an unreadable body: "@ + err
}

/// The text of a request that could not be sent.
pub fn request_failed(url: &str, err: &str) -> (r: String)
    ensures
        r@ == request_failed_text(url@, err@),
{
    let mut r = concat3("GET ", url, " failed: ");
    r.append(err);
    r
}

/// The text of a reply with an unsuccessful status.
pub fn bad_status(url: &str, status: &str) -> (r: String)
    ensures
        r@ == bad_status_text(url@, status@),
{
    let mut r = concat3("GET ", url, " returned HTTP ");
    r.append(status);
    r
}

/// The text of a reply whose body could not be read.
pub fn unreadable_body(url: &str, err: &str) -> (r: String)
    ensures
        r@ == unreadable_body_text(url@, err@),
{
    let mut r = concat3("GET ", url, " returned an unreadable body: ");
    r.append(err);
    r
}

/// The settings URL under a base URL.
pub fn settings_url(base: &str) -> (r: String)
    ensures
        r@ == base@ + "/api/settings"@,
{
    let mut r = to_owned_string(base);
    r.append("/api/settings");
    r
}

/// A reply of the settings endpoint, as far as the rules need it.
pub enum SettingsReply<T> {
    /// The request could not be sent.
    SendFailed(String),
    /// The reply's status was not a success; the status as displayed.
    BadStatus(String),
    /// The body could not be read as a settings envelope.
    Unreadable(String),
    /// The envelope's `data`, which may be absent.
    Data(Option<T>),
}

/// The error text of one uncached fetch from the settings endpoint at
/// `url`, or `None` when the reply carries an envelope.
pub open spec fn fetch_error_of<T>(url: Seq<char>, reply: SettingsReply<T>) -> Option<Seq<char>> {
    match reply {
        SettingsReply::SendFailed(err) => Some(request_failed_text(url, err@)),
        SettingsReply::BadStatus(status) => Some(bad_status_text(url, status@)),
        SettingsReply::Unreadable(err) => Some(unreadable_body_text(url, err@)),
        SettingsReply::Data(_) => None,
    }
}

/// One uncached fetch: the rows, none when the envelope has no data, or the
/// error text.
pub fn fetch_outcome(url: &str, reply: SettingsReply<Vec<AppSettings>>) -> (r: Result<Vec<AppSettings>, String>)
    ensures
        fetch_error_of(url@, reply) matches Some(text) ==> (r matches Err(e) && e@ == text),
        reply matches SettingsReply::Data(Some(rows)) ==> r == Ok::<Vec<AppSettings>, String>(rows),
        reply matches SettingsReply::Data(None) ==> (r matches Ok(rows) && rows@.len() == 0),
{
    match reply {
        SettingsReply::SendFailed(err) => Err(request_failed(url, err.as_str())),
        SettingsReply::BadStatus(status) => Err(bad_status(url, status.as_str())),
        SettingsReply::Unreadable(err) => Err(unreadable_body(url, err.as_str())),
        SettingsReply::Data(Some(rows)) => Ok(rows),
        SettingsReply::Data(None) => Ok(Vec::new()),
    }
}

/// How long fetched settings are reused before the login service is asked
/// again: one minute, in nanoseconds.
pub const CACHE_TTL_NANOS: u128 = 60_000_000_000;

/// Whether a cached settings list of the given age may be answered: always
/// when a stale answer is acceptable, else only while it is younger than
/// the time to live.
pub fn cache_usable(allow_stale: bool, age_nanos: u128) -> (r: bool)
    ensures
        r == (allow_stale || age_nanos < CACHE_TTL_NANOS),
{
    allow_stale || age_nanos < CACHE_TTL_NANOS
}

/// What to answer after a fetch, given the cached rows however old they are:
/// the fetched rows (to be stored in the cache), else the stale cache, else
/// the fetch error.
pub open spec fn after_fetch_of<T>(fetched: Result<T, Seq<char>>, stale: Option<T>) -> (Result<T, Seq<char>>, bool) {
    match fetched {
        Ok(rows) => (Ok(rows), true),
        Err(err) => match stale {
            Some(rows) => (Ok(rows), false),
            None => (Err(err), false),
        },
    }
}

/// Settles a fetch: the fresh rows are answered and stored; on failure the
/// stale cache, if any, is answered instead of the error.
pub fn settings_after_fetch<T>(fetched: Result<T, String>, stale: Option<T>) -> (r: (Result<T, String>, bool))
    ensures
        match (r.0, after_fetch_of(error_text_view(fetched), stale).0) {
            (Ok(a), Ok(b)) => a == b,
            (Err(a), Err(b)) => a@ == b,
            _ => false,
        },
        r.1 == after_fetch_of(error_text_view(fetched), stale).1,
{
    match fetched {
        Ok(rows) => (Ok(rows), true),
        Err(err) => match stale {
            Some(rows) => (Ok(rows), false),
            None => (Err(err), false),
        },
    }
}

/// The category wiring for a request: read from the settings when they could
/// be had, else the empty wiring. It never fails.
pub fn global_category_wiring(settings: Result<Vec<AppSettings>, String>) -> (r: CategoryWiring)
    ensures
        settings matches Ok(rows) ==> r@ == wiring_of(rows@),
        settings is Err ==> r@ == empty_wiring(),
{
    match settings {
        Ok(rows) => CategoryWiring::from_settings(rows.as_slice()),
        Err(_) => CategoryWiring::empty(),
    }
}

/// The nil category id never resolves to a wired name, whatever the wiring,
/// so an unset wiring (all nil) matches nothing.
pub proof fn law_nil_never_resolves(w: WiringView)
    ensures
        resolve_name_of(w, 0) is None,
{
}

/// A set (non-nil) wired id resolves to its configured name; when ids
/// coincide, transfer is preferred to recount and recount to debt. Any other
/// id does not resolve.
pub proof fn law_wired_ids_resolve(w: WiringView, id: u128)
    ensures
        id != 0 && id == w.transfer_id ==> resolve_name_of(w, id) == Some(w.transfer_name),
        id != 0 && id != w.transfer_id && id == w.recount_id ==> resolve_name_of(w, id) == Some(w.recount_name),
        id != 0 && id != w.transfer_id && id != w.recount_id && id == w.debt_id ==> resolve_name_of(w, id) == Some(w.debt_name),
        id != w.transfer_id && id != w.recount_id && id != w.debt_id ==> resolve_name_of(w, id) is None,
{
}

/// Reading a settings row: the row for a wired key sets that part of the
/// wiring (an id that is not a UUID sets the nil id), and a row with any
/// other key changes nothing.
pub proof fn law_setting_rows(w: WiringView, key: Seq<char>, value: Seq<char>)
    ensures
        key == "TRANSFER_CATEGORY_ID"@ ==> apply_setting(w, key, value).transfer_id == uuid_or_nil(value),
        key == "TRANSFER_CATEGORY_NAME"@ ==> apply_setting(w, key, value).transfer_name == value,
        key == "RECOUNT_CATEGORY_ID"@ ==> apply_setting(w, key, value).recount_id == uuid_or_nil(value),
        key == "RECOUNT_CATEGORY_NAME"@ ==> apply_setting(w, key, value).recount_name == value,
        key == "DEBT_CATEGORY_ID"@ ==> apply_setting(w, key, value).debt_id == uuid_or_nil(value),
        key == "DEBT_CATEGORY_NAME"@ ==> apply_setting(w, key, value).debt_name == value,
        key != "TRANSFER_CATEGORY_ID"@ && key != "TRANSFER_CATEGORY_NAME"@ && key != "RECOUNT_CATEGORY_ID"@
            && key != "RECOUNT_CATEGORY_NAME"@ && key != "DEBT_CATEGORY_ID"@ && key != "DEBT_CATEGORY_NAME"@
            ==> apply_setting(w, key, value) == w,
{
    reveal_strlit("TRANSFER_CATEGORY_ID");
    reveal_strlit("TRANSFER_CATEGORY_NAME");
    reveal_strlit("RECOUNT_CATEGORY_ID");
    reveal_strlit("RECOUNT_CATEGORY_NAME");
    reveal_strlit("DEBT_CATEGORY_ID");
    reveal_strlit("DEBT_CATEGORY_NAME");
    assert("TRANSFER_CATEGORY_ID"@.len() == 20);
    assert("TRANSFER_CATEGORY_NAME"@.len() == 22);
    assert("RECOUNT_CATEGORY_ID"@.len() == 19);
    assert("RECOUNT_CATEGORY_NAME"@.len() == 21);
    assert("DEBT_CATEGORY_ID"@.len() == 16);
    assert("DEBT_CATEGORY_NAME"@.len() == 18);
}

/// A stale cache is preferred over failing: after a failed fetch the cached
/// rows, however old, are answered; only a cold cache yields the error. A
/// successful fetch is answered and stored.
pub proof fn law_stale_cache_over_failure<T>(fetched: Result<T, Seq<char>>, stale: Option<T>)
    ensures
        fetched matches Ok(rows) ==> after_fetch_of(fetched, stale) == (Ok::<T, Seq<char>>(rows), true),
        (fetched is Err && stale is Some) ==> after_fetch_of(fetched, stale) == (Ok::<T, Seq<char>>(stale->0), false),
        after_fetch_of(fetched, stale).0 is Err <==> (fetched is Err && stale is None),
{
}

/// The base URL never ends with a slash, so a path can be appended to it
/// directly.
pub proof fn law_base_url_has_no_trailing_slash(configured: Option<Seq<char>>)
    ensures
        login_api_base_of(configured).len() > 0 ==> login_api_base_of(configured).last() != '/',
{
    match configured {
        Some(raw) => lemma_stripped_has_no_trailing_slash(trim_seq(raw)),
        None => lemma_stripped_has_no_trailing_slash(trim_seq(default_login_api_base())),
    }
}

proof fn lemma_stripped_has_no_trailing_slash(s: Seq<char>)
    ensures
        strip_trailing_slashes(s).len() > 0 ==> strip_trailing_slashes(s).last() != '/',
    decreases s.len(),
{
    if s.len() > 0 && s.last() == '/' {
        lemma_stripped_has_no_trailing_slash(s.drop_last());
    }
}

} // verus!
