use tripchive::errors::{AppError, AuthError};

#[test]
fn auth_error_status_codes() {
    assert_eq!(AuthError::InvalidCredentials.status_code(), 401);
    assert_eq!(AuthError::InvalidToken.status_code(), 401);
    assert_eq!(AuthError::MissingToken.status_code(), 401);
    assert_eq!(AuthError::AccountAlreadyExists.status_code(), 409);
    assert_eq!(AuthError::CsrfMismatch.status_code(), 400);
}

#[test]
fn auth_error_messages() {
    assert_eq!(AuthError::InvalidCredentials.message(), "Invalid email or password");
    assert_eq!(AuthError::AccountAlreadyExists.message(), "Account already exists with this email");
    assert_eq!(AuthError::InvalidToken.message(), "Invalid or expired token");
    assert_eq!(AuthError::MissingToken.message(), "Missing authentication token");
    assert_eq!(AuthError::CsrfMismatch.message(), "CSRF token mismatch");
}

#[test]
fn auth_errors_answer_with_their_status_and_text() {
    let e: AppError = AuthError::AccountAlreadyExists.into();
    assert_eq!(e, AppError::Auth(AuthError::AccountAlreadyExists));
    assert_eq!(e.response_parts(), (409, "Account already exists with this email".to_string()));
    assert_eq!(e.message(), "Account already exists with this email");
}

#[test]
fn internal_errors_hide_their_cause() {
    let a = AppError::Internal("connection refused".to_string());
    let b = AppError::Internal("relative URL without a base".to_string());
    assert_eq!(a.response_parts(), (500, "An internal server error occurred".to_string()));
    assert_eq!(a.response_parts(), b.response_parts());
    assert_eq!(a.message(), "Internal server error: connection refused");
}
