use vstd::prelude::*;

verus! {

/// Failures of authentication that are reported to the client.
#[derive(Debug, Clone, Copy, PartialEq, Eq, Structural)]
pub enum AuthError {
    InvalidCredentials,
    AccountAlreadyExists,
    InvalidToken,
    MissingToken,
    CsrfMismatch,
}

/// The HTTP status that answers an authentication failure.
pub open spec fn auth_status(e: AuthError) -> u16 {
    match e {
        AuthError::InvalidCredentials | AuthError::InvalidToken | AuthError::MissingToken => 401,
        AuthError::AccountAlreadyExists => 409,
        AuthError::CsrfMismatch => 400,
    }
}

/// The text shown to the client for an authentication failure.
pub open spec fn auth_message(e: AuthError) -> Seq<char> {
    match e {
        AuthError::InvalidCredentials => "Invalid email or password"@,
        AuthError::AccountAlreadyExists => "Account already exists with this email"@,
        AuthError::InvalidToken => "Invalid or expired token"@,
        AuthError::MissingToken => "Missing authentication token"@,
        AuthError::CsrfMismatch => "CSRF token mismatch"@,
    }
}

impl AuthError {
    /// HTTP status code of this error.
    pub fn status_code(&self) -> (res: u16)
        ensures
            res == auth_status(*self),
    {
        match self {
            AuthError::InvalidCredentials | AuthError::InvalidToken | AuthError::MissingToken => 401,
            AuthError::AccountAlreadyExists => 409,
            AuthError::CsrfMismatch => 400,
        }
    }

    /// Human readable description of this error.
    pub fn message(&self) -> (res: String)
        ensures
            res@ == auth_message(*self),
    {
        match self {
            AuthError::InvalidCredentials => String::from_str("Invalid email or password"),
            AuthError::AccountAlreadyExists => String::from_str("Account already exists with this email"),
            AuthError::InvalidToken => String::from_str("Invalid or expired token"),
            AuthError::MissingToken => String::from_str("Missing authentication token"),
            AuthError::CsrfMismatch => String::from_str("CSRF token mismatch"),
        }
    }
}


/// Every failure a request handler can end with.
#[derive(Debug, Clone, PartialEq, Eq)]
pub enum AppError {
    Auth(AuthError),
    Internal(String),
}

/// The status code and client-visible text that answer an error.
/// Internal failures never reveal their cause to the client.
pub open spec fn app_response(e: AppError) -> (u16, Seq<char>) {
    match e {
        AppError::Auth(a) => (auth_status(a), auth_message(a)),
        AppError::Internal(_) => (500, "An internal server error occurred"@),
    }
}

/// The full description of an error, as it is logged.
pub open spec fn app_message(e: AppError) -> Seq<char> {
    match e {
        AppError::Auth(a) => auth_message(a),
        AppError::Internal(m) => "Internal server error: "@ + m@,
    }
}

impl AppError {
    /// Status code and message of the response that reports this error.
    pub fn response_parts(&self) -> (res: (u16, String))
        ensures
            res.0 == app_response(*self).0,
            res.1@ == app_response(*self).1,
            *self matches AppError::Auth(a) ==> res.0 == auth_status(a) && res.1@ == auth_message(a),
    {
        match self {
            AppError::Auth(a) => (a.status_code(), a.message()),
            AppError::Internal(_) => (500, String::from_str("An internal server error occurred")),
        }
    }

    /// Full description of this error.
    pub fn message(&self) -> (res: String)
        ensures
            res@ == app_message(*self),
    {
        match self {
            AppError::Auth(a) => a.message(),
            AppError::Internal(m) => {
                let mut s = String::from_str("Internal server error: ");
                s.append(m.as_str());
                s
            },
        }
    }
}

impl From<AuthError> for AppError {
    fn from(err: AuthError) -> (res: Self) {
        AppError::Auth(err)
    }
}

impl vstd::std_specs::convert::FromSpecImpl<AuthError> for AppError {
    open spec fn obeys_from_spec() -> bool {
        true
    }

    open spec fn from_spec(err: AuthError) -> Self {
        AppError::Auth(err)
    }
}

/// Every authentication failure is answered with a client-error status.
pub proof fn law_auth_errors_are_client_errors(e: AuthError)
    ensures
        400 <= app_response(AppError::Auth(e)).0 < 500,
{
}

/// An authentication failure is answered with its own status: 400 Bad
/// Request for a CSRF mismatch, 409 Conflict for a registration whose
/// account exists, 401 Unauthorized for every other failure.
pub proof fn law_auth_error_status(e: AuthError)
    ensures
        app_response(AppError::Auth(e)).0 == auth_status(e),
        app_response(AppError::Auth(e)).1 == auth_message(e),
        app_response(AppError::Auth(e)).0 == 400 <==> e is CsrfMismatch,
        app_response(AppError::Auth(e)).0 == 409 <==> e is AccountAlreadyExists,
        app_response(AppError::Auth(e)).0 == 401 <==> !(e is CsrfMismatch || e is AccountAlreadyExists),
{
}

/// Internal failures are all answered alike, whatever their cause, with
/// status 500.
pub proof fn law_internal_errors_answer_alike(a: AppError, b: AppError)
    requires
        a is Internal,
        b is Internal,
    ensures
        app_response(a) == app_response(b),
        app_response(a).0 == 500,
{
}

} // verus!
