//! Sign-in with Google.
use vstd::prelude::*;

use crate::config::GoogleConfig;
use crate::csrf::{create_csrf_cookie, is_csrf_cookie, is_url_safe_base64, CsrfCookie, CsrfToken};
use crate::errors::AppError;
use crate::models::OAuthIdentity;
use crate::oauth::{
    authorize_url_with_scopes, client_urls_error, is_internal, oauth_authorize_url, pairs_view,
    strings_view, OAuthClient, OAuthClientView,
};

verus! {

/// What Google reports of the signed-in account.
#[derive(Debug, Clone, PartialEq, Eq)]
pub struct GoogleUser {
    pub id: String,
    pub email: String,
}

/// Google's authorization endpoint.
pub open spec fn auth_endpoint() -> Seq<char> {
    "https://accounts.google.com/o/oauth2/v2/auth"@
}

/// Google's token endpoint.
pub open spec fn token_endpoint() -> Seq<char> {
    "https://oauth2.googleapis.com/token"@
}

/// The scopes requested from Google.
pub open spec fn scopes() -> Seq<Seq<char>> {
    seq!["email"@, "profile"@]
}

/// The client that the configuration describes.
pub open spec fn client_view(config: GoogleConfig) -> OAuthClientView {
    OAuthClientView {
        client_id: config.client_id@,
        client_secret: config.client_secret@,
        auth_url: auth_endpoint(),
        token_url: token_endpoint(),
        redirect_url: config.redirect_url@,
    }
}

/// The Google OAuth client; fails with the error of the first endpoint
/// that is not a URL.
pub fn build_client(config: &GoogleConfig) -> (res: Result<OAuthClient, AppError>)
    ensures
        res is Ok <==> client_urls_error(auth_endpoint(), token_endpoint(), config.redirect_url@) is None,
        match res {
            Ok(c) => c@ == client_view(*config),
            Err(e) => client_urls_error(auth_endpoint(), token_endpoint(), config.redirect_url@) matches Some(m)
                && is_internal(e, m),
        },
{
    OAuthClient::new(
        config.client_id.clone(),
        config.client_secret.clone(),
        String::from_str("https://accounts.google.com/o/oauth2/v2/auth"),
        String::from_str("https://oauth2.googleapis.com/token"),
        config.redirect_url.clone(),
    )
}

/// The authorization URL to send the browser to, with a fresh random state.
pub fn get_authorize_url(client: &OAuthClient) -> (res: (String, CsrfToken))
    ensures
        res.0@ == oauth_authorize_url(
            client@.client_id,
            client@.auth_url,
            client@.redirect_url,
            res.1@,
            scopes(),
            Seq::empty(),
        ),
        res.1@.len() == 22,
        forall|i: int| 0 <= i < res.1@.len() ==> is_url_safe_base64(#[trigger] res.1@[i]),
{
    let scopes = vec![String::from_str("email"), String::from_str("profile")];
    let extra: Vec<(String, String)> = Vec::new();
    proof {
        assert(strings_view(scopes@) =~= self::scopes());
        assert(pairs_view(extra@) =~= Seq::empty());
    }
    authorize_url_with_scopes(client, &scopes, &extra)
}

/// The start of a Google sign-in: the authorization URL, and the cookie that
/// remembers its state, signed with `cookie_secret`.
pub fn redirect(config: &GoogleConfig, cookie_secret: &str) -> (res: Result<(String, CsrfCookie), AppError>)
    ensures
        res is Ok <==> client_urls_error(auth_endpoint(), token_endpoint(), config.redirect_url@) is None,
        match res {
            Ok((url, cookie)) => exists|state: Seq<char>|
                {
                    &&& url@ == oauth_authorize_url(
                        config.client_id@,
                        auth_endpoint(),
                        config.redirect_url@,
                        state,
                        scopes(),
                        Seq::empty(),
                    )
                    &&& is_csrf_cookie(cookie, state, cookie_secret@)
                },
            Err(e) => client_urls_error(auth_endpoint(), token_endpoint(), config.redirect_url@) matches Some(m)
                && is_internal(e, m),
        },
{
    let client = build_client(config)?;
    let (url, token) = get_authorize_url(&client);
    let cookie = create_csrf_cookie(&token, cookie_secret);
    Ok((url, cookie))
}

/// The account a Google user signs in as.
pub fn identity(user: &GoogleUser) -> (res: OAuthIdentity)
    ensures
        res.provider@ == "google"@,
        res.provider_id@ == user.id@,
        res.email matches Some(e) && e@ == user.email@,
{
    OAuthIdentity {
        provider: String::from_str("google"),
        provider_id: user.id.clone(),
        email: Some(user.email.clone()),
    }
}

} // verus!
