//! The decisions the authentication routes take between their database,
//! password and provider calls.
use vstd::prelude::*;

use crate::errors::{AppError, AuthError};
use crate::models::User;

verus! {

/// The account a request is authenticated as.
#[derive(Debug, Clone, Copy, PartialEq, Eq)]
pub struct AuthUser(pub i64);

/// The bearer token of a request; a request without one is refused with
/// `MissingToken`.
pub fn require_bearer(token: Option<String>) -> (res: Result<String, AppError>)
    ensures
        match token {
            Some(t) => res matches Ok(r) && r@ == t@,
            None => res matches Err(e) && e == AppError::Auth(AuthError::MissingToken),
        },
{
    match token {
        Some(t) => Ok(t),
        None => Err(AppError::Auth(AuthError::MissingToken)),
    }
}

/// Registration is refused when an account already uses the address.
pub fn check_registration(existing: &Option<User>) -> (res: Result<(), AppError>)
    ensures
        match existing {
            Some(_) => res matches Err(e) && e == AppError::Auth(AuthError::AccountAlreadyExists),
            None => res is Ok,
        },
{
    match existing {
        Some(_) => Err(AppError::Auth(AuthError::AccountAlreadyExists)),
        None => Ok(()),
    }
}

/// Whether an account signs in with a password: it was created through the
/// e-mail provider and holds a password hash.
pub open spec fn password_account(u: User) -> bool {
    u.auth_provider@ == "email"@ && u.password_hash is Some
}

/// The account and password hash a login attempt is checked against. An
/// unknown address, an account of an OAuth provider, and an account without
/// a hash are all refused alike, with `InvalidCredentials`.
pub fn login_candidate(user: Option<User>) -> (res: Result<(i64, String), AppError>)
    ensures
        match user {
            Some(u) if password_account(u) => res matches Ok((id, hash)) && id == u.id && hash@
                == u.password_hash->0@,
            _ => res matches Err(e) && e == AppError::Auth(AuthError::InvalidCredentials),
        },
{
    let u = match user {
        Some(u) => u,
        None => return Err(AppError::Auth(AuthError::InvalidCredentials)),
    };
    let email = String::from_str("email");
    if u.auth_provider != email {
        return Err(AppError::Auth(AuthError::InvalidCredentials));
    }
    match u.password_hash {
        Some(hash) => Ok((u.id, hash)),
        None => Err(AppError::Auth(AuthError::InvalidCredentials)),
    }
}

/// The outcome of a login once the password was checked against the hash:
/// the account to issue a token for, or `InvalidCredentials`.
pub fn login_outcome(user_id: i64, password_matches: bool) -> (res: Result<i64, AppError>)
    ensures
        password_matches ==> res == Ok::<i64, AppError>(user_id),
        !password_matches ==> res == Err::<i64, AppError>(AppError::Auth(AuthError::InvalidCredentials)),
{
    if password_matches {
        Ok(user_id)
    } else {
        Err(AppError::Auth(AuthError::InvalidCredentials))
    }
}

} // verus!
