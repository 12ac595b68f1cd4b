//! The service's settings as read from its environment: where the database
//! is, where the server listens, and whether the API docs are served.
use vstd::prelude::*;
use vstd::string::*;
use crate::text::{str_equal, to_owned_string};
use crate::responses::opt_text;

verus! {

/// A configured value, or the default when it is not set.
pub open spec fn or_default(value: Option<Seq<char>>, default: Seq<char>) -> Seq<char> {
    match value {
        Some(v) => v,
        None => default,
    }
}

/// A configured value, or `default` when it is not set.
pub fn setting_or(value: Option<String>, default: &str) -> (r: String)
    ensures
        r@ == or_default(opt_text(value), default@),
{
    match value {
        Some(v) => v,
        None => to_owned_string(default),
    }
}

/// `mysql://<user>:<pass>@<host>:<port>/<name>`.
pub open spec fn mysql_url(user: Seq<char>, pass: Seq<char>, host: Seq<char>, port: Seq<char>, name: Seq<char>) -> Seq<char> {
    "mysql://"@ + user + ":"@ + pass + "@"@ + host + ":"@ + port + "/"@ + name
}

/// The database address from the `DB_HOST`, `DB_PORT`, `DB_USER`, `DB_PASS`
/// and `DB_NAME` settings, each falling back to the local development value
/// (`127.0.0.1`, `3306`, `root`, `123456`, `transaction`).
pub fn database_url(
    host: Option<String>,
    port: Option<String>,
    user: Option<String>,
    pass: Option<String>,
    name: Option<String>,
) -> (r: String)
    ensures
        r@ == mysql_url(
            or_default(opt_text(user), "root"@),
            or_default(opt_text(pass), "123456"@),
            or_default(opt_text(host), "127.0.0.1"@),
            or_default(opt_text(port), "3306"@),
            or_default(opt_text(name), "transaction"@),
        ),
{
    let host = setting_or(host, "127.0.0.1");
    let port = setting_or(port, "3306");
    let user = setting_or(user, "root");
    let pass = setting_or(pass, "123456");
    let name = setting_or(name, "transaction");
    let mut url = to_owned_string("mysql://");
    url.append(user.as_str());
    url.append(":");
    url.append(pass.as_str());
    url.append("@");
    url.append(host.as_str());
    url.append(":");
    url.append(port.as_str());
    url.append("/");
    url.append(name.as_str());
    url
}

/// The address the server binds: `<HOST>:<PORT>`, by default
/// `127.0.0.1:8080`.
pub fn bind_address(host: Option<String>, port: Option<String>) -> (r: String)
    ensures
        r@ == or_default(opt_text(host), "127.0.0.1"@) + ":"@ + or_default(opt_text(port), "8080"@),
{
    let mut r = setting_or(host, "127.0.0.1");
    r.append(":");
    let port = setting_or(port, "8080");
    r.append(port.as_str());
    r
}

/// Whether the API docs are served: only when `APP_ENV` is `development`
/// (it defaults to `production`).
pub fn docs_enabled(app_env: Option<String>) -> (r: bool)
    ensures
        r == (or_default(opt_text(app_env), "production"@) == "development"@),
{
    let env = setting_or(app_env, "production");
    str_equal(env.as_str(), "development")
}

} // verus!
