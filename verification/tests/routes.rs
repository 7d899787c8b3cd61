use tripchive::errors::{AppError, AuthError};
use tripchive::models::User;
use tripchive::routes::{check_registration, login_candidate, login_outcome, require_bearer, AuthUser};

const INVALID: AppError = AppError::Auth(AuthError::InvalidCredentials);

fn user(provider: &str, hash: Option<&str>) -> User {
    User {
        id: 7,
        email: "a@example.com".to_string(),
        password_hash: hash.map(|h| h.to_string()),
        auth_provider: provider.to_string(),
        provider_id: None,
        created_at: 1_700_000_000_000_000,
    }
}

#[test]
fn registration_is_refused_for_a_known_address() {
    assert_eq!(
        check_registration(&Some(user("email", Some("h")))),
        Err(AppError::Auth(AuthError::AccountAlreadyExists))
    );
    assert_eq!(check_registration(&None), Ok(()));
}

#[test]
fn login_needs_an_email_account_with_a_hash() {
    assert_eq!(login_candidate(Some(user("email", Some("$argon2id$hash")))), Ok((7, "$argon2id$hash".to_string())));
    assert_eq!(login_candidate(None), Err(INVALID));
    assert_eq!(login_candidate(Some(user("google", Some("h")))), Err(INVALID));
    assert_eq!(login_candidate(Some(user("email", None))), Err(INVALID));
}

#[test]
fn login_outcome_follows_the_password_check() {
    assert_eq!(login_outcome(7, true), Ok(7));
    assert_eq!(login_outcome(7, false), Err(INVALID));
}

#[test]
fn missing_bearer_token_is_refused() {
    assert_eq!(require_bearer(None), Err(AppError::Auth(AuthError::MissingToken)));
    assert_eq!(require_bearer(Some("abc".to_string())), Ok("abc".to_string()));
    assert_eq!(AuthUser(5).0, 5);
}
