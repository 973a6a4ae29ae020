//! Session-token payloads and the password login of the HTTP surface.
use vstd::prelude::*;

use crate::model::{Claims, CoreError, Entity};
use crate::store::{Store, StoreView};
use crate::time::{clock_now, Timestamp};
use crate::user_repository::{first_named, password_verdict};

verus! {

/// How long a session token stays valid, in seconds: one hour, on every
/// surface that issues tokens.
pub const TOKEN_VALIDITY_SECS: u64 = 3600;

/// When a token issued at `now` expires, where that instant can be held:
/// always, but for an instant before 1970.
pub open spec fn expiry_of(now: Timestamp) -> Option<int> {
    if 0 <= now.secs {
        Some(now.secs + TOKEN_VALIDITY_SECS)
    } else {
        None
    }
}

/// The payload of a token for `subject` issued at `now`: it expires one
/// validity window later. `None` where that instant cannot be held.
pub fn token_claims(subject: &str, now: Timestamp) -> (r: Option<Claims>)
    ensures
        match expiry_of(now) {
            Some(exp) => r matches Some(c) && c.sub@ == subject@ && c.exp == exp,
            None => r is None,
        },
{
    if now.secs < 0 {
        return None;
    }
    Some(Claims { sub: String::from_str(subject), exp: now.secs as u64 + TOKEN_VALIDITY_SECS })
}

/// What a login of `username` with `password` at `now` gives on `v`: the
/// subject of the token, or why there is none.
pub open spec fn login_of(v: StoreView, username: Seq<char>, password: Seq<char>, now: Timestamp) -> Result<int, CoreError> {
    match first_named(v.users, username) {
        None => Err(CoreError::NotFound(Entity::Admin)),
        Some(u) => match password_verdict(password, v.users[u].password_hash@) {
            None => Err(CoreError::Credential),
            Some(false) => Err(CoreError::Unauthorized),
            Some(true) => match expiry_of(now) {
                Some(exp) => Ok(exp),
                None => Err(CoreError::Validation),
            },
        },
    }
}

/// Checks `password` for the first admin named `username` and, where it
/// matches, gives the payload of a token for that name issued at `now`.
/// An unknown name fails with `NotFound(Admin)`, a wrong password with
/// `Unauthorized`, and a stored hash that cannot be read with `Credential`.
pub fn login_user_at(store: &Store, username: &str, password: &str, now: Timestamp) -> (r: Result<
    Claims,
    CoreError,
>)
    ensures
        match login_of(store@, username@, password@, now) {
            Ok(exp) => r matches Ok(c) && c.sub@ == username@ && c.exp == exp,
            Err(e) => r == Err::<Claims, CoreError>(e),
        },
{
    let user = match crate::user_repository::find_by_username(store, username) {
        Some(u) => u,
        None => {
            return Err(CoreError::NotFound(Entity::Admin));
        },
    };
    match crate::user_repository::check_password(password, user.password_hash.as_str()) {
        Err(e) => Err(e),
        Ok(false) => Err(CoreError::Unauthorized),
        Ok(true) => match token_claims(username, now) {
            Some(c) => Ok(c),
            None => Err(CoreError::Validation),
        },
    }
}

/// Checks `password` for the first admin named `username` now; as
/// `login_user_at`, at the instant the clock gives.
pub fn login_user(store: &Store, username: &str, password: &str) -> (r: Result<Claims, CoreError>)
    ensures
        match first_named(store@.users, username@) {
            None => r == Err::<Claims, CoreError>(CoreError::NotFound(Entity::Admin)),
            Some(u) => match password_verdict(password@, store@.users[u].password_hash@) {
                None => r == Err::<Claims, CoreError>(CoreError::Credential),
                Some(false) => r == Err::<Claims, CoreError>(CoreError::Unauthorized),
                Some(true) => r matches Ok(c) && c.sub@ == username@ && c.exp >= TOKEN_VALIDITY_SECS,
            },
        },
{
    let now = clock_now();
    login_user_at(store, username, password, now)
}

} // verus!
