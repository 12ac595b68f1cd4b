//! Account records and the bodies of the account requests.
use vstd::prelude::*;

verus! {

/// A stored account.
pub struct User {
    pub user_id: String,
    pub username: String,
    pub password_hash: String,
    pub email: Option<String>,
    pub phone_number: Option<String>,
    pub telegram_username: Option<String>,
    pub created_date: String,
}

/// Body of a registration.
pub struct RegisterRequest {
    pub username: String,
    pub password: String,
    pub email: Option<String>,
    pub phone_number: Option<String>,
    pub telegram_username: Option<String>,
}

/// Body of a login.
pub struct LoginRequest {
    pub username: String,
    pub password: String,
}

/// Answer to a successful login.
pub struct AuthResponse {
    pub token: String,
    pub username: String,
    pub email: Option<String>,
    pub phone_number: Option<String>,
    pub telegram_username: Option<String>,
}

/// The claims of an account token: the username and the expiry.
pub struct Claims {
    pub sub: String,
    pub exp: usize,
}

} // verus!
