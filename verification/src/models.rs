//! The account records the service keeps.
use vstd::prelude::*;

verus! {

/// An account. `created_at` counts microseconds since the Unix epoch.
#[derive(Debug, Clone, PartialEq, Eq)]
pub struct User {
    pub id: i64,
    pub email: String,
    pub password_hash: Option<String>,
    pub auth_provider: String,
    pub provider_id: Option<String>,
    pub created_at: i64,
}

/// Who a provider says signed in: the provider's name, the account's
/// identifier at that provider, and the e-mail address it reported.
#[derive(Debug, Clone, PartialEq, Eq)]
pub struct OAuthIdentity {
    pub provider: String,
    pub provider_id: String,
    pub email: Option<String>,
}

/// The character sequence of an optional string.
pub open spec fn opt_view(s: Option<String>) -> Option<Seq<char>> {
    match s {
        Some(v) => Some(v@),
        None => None,
    }
}

/// Copies an optional string.
pub fn clone_opt(s: &Option<String>) -> (res: Option<String>)
    ensures
        opt_view(res) == opt_view(*s),
{
    match s {
        Some(v) => Some(v.clone()),
        None => None,
    }
}

} // verus!
