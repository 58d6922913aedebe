//! Sign-in and registration decisions.

use vstd::prelude::*;
use crate::auth::{argon2_accepts, verify};
use crate::domain::account::NewAccount;
use crate::domain::catalog::utf8_len;
use crate::text::{trim, trimmed};

verus! {

/// A signed-in username, proven by existing: the handlers that take one
/// only run for a session that holds a user.
pub struct AuthUser(pub String);

/// The sign-in form.
pub struct SigninForm {
    pub username: String,
    pub password: String,
}

/// The registration form.
pub struct RegisterForm {
    pub username: String,
    pub password: String,
    pub email: String,
    pub first_name: String,
    pub last_name: String,
    pub address: String,
    pub city: String,
    pub state: String,
    pub zip: String,
    pub country: String,
    pub phone: String,
}

/// Registration is accepted when the trimmed username is non-empty and at
/// most 80 bytes, and the password is at least 4 bytes.
pub open spec fn registration_acceptable(username: Seq<char>, password: Seq<char>) -> bool {
    &&& trimmed(username).len() > 0
    &&& utf8_len(trimmed(username)) <= 80
    &&& utf8_len(password) >= 4
}

/// The account and password a registration form yields, or `None` when the
/// username or password is refused. The username is stored trimmed; every
/// other field is taken as it was typed.
pub fn new_account(form: RegisterForm) -> (r: Option<(NewAccount, String)>)
    ensures
        r is Some == registration_acceptable(form.username@, form.password@),
        r matches Some(p) ==> {
            let (a, password) = p;
            &&& a.username@ == trimmed(form.username@)
            &&& password@ == form.password@
            &&& a.email@ == form.email@
            &&& a.first_name@ == form.first_name@
            &&& a.last_name@ == form.last_name@
            &&& a.address@ == form.address@
            &&& a.city@ == form.city@
            &&& a.state@ == form.state@
            &&& a.zip@ == form.zip@
            &&& a.country@ == form.country@
            &&& a.phone@ == form.phone@
        },
{
    let username = trim(form.username.as_str()).to_owned();
    let name_bytes = username.as_str().as_bytes().len();
    let password_bytes = form.password.as_str().as_bytes().len();
    if username.as_str().is_empty() || name_bytes > 80 || password_bytes < 4 {
        return None;
    }
    let account = NewAccount {
        username,
        email: form.email,
        first_name: form.first_name,
        last_name: form.last_name,
        address: form.address,
        city: form.city,
        state: form.state,
        zip: form.zip,
        country: form.country,
        phone: form.phone,
    };
    Some((account, form.password))
}

/// Whether a sign-in succeeds: the user exists (a stored hash was found)
/// and the password verifies against it. Unknown user and wrong password
/// give the same `false`.
pub fn credentials_ok(stored_hash: Option<&str>, password: &str) -> (r: bool)
    ensures
        r == match stored_hash {
            Some(h) => argon2_accepts(h@, password@),
            None => false,
        },
{
    match stored_hash {
        Some(h) => verify(h, password),
        None => false,
    }
}

} // verus!
