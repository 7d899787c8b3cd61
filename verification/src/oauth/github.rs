//! Sign-in with GitHub.
use vstd::prelude::*;

use crate::config::GitHubConfig;
use crate::csrf::{create_csrf_cookie, is_csrf_cookie, is_url_safe_base64, CsrfCookie, CsrfToken};
use crate::errors::AppError;
use crate::models::{clone_opt, opt_view, OAuthIdentity};
use crate::oauth::{
    authorize_url_with_scopes, client_urls_error, is_internal, oauth_authorize_url, pairs_view,
    strings_view, OAuthClient, OAuthClientView,
};
use crate::text::{i64_to_string, lemma_signed_decimal_injective, signed_decimal};

verus! {

/// What GitHub reports of the signed-in account.
#[derive(Debug, Clone, PartialEq, Eq)]
pub struct GitHubUser {
    pub id: i64,
    pub email: Option<String>,
}

/// One of the e-mail addresses of a GitHub account.
#[derive(Debug, Clone, PartialEq, Eq)]
pub struct GitHubEmail {
    pub email: String,
    pub primary: bool,
}

/// GitHub's authorization endpoint.
pub open spec fn auth_endpoint() -> Seq<char> {
    "https://github.com/login/oauth/authorize"@
}

/// GitHub's token endpoint.
pub open spec fn token_endpoint() -> Seq<char> {
    "https://github.com/login/oauth/access_token"@
}

/// The scopes requested from GitHub.
pub open spec fn scopes() -> Seq<Seq<char>> {
    seq!["user:email"@]
}

/// The client that the configuration describes.
pub open spec fn client_view(config: GitHubConfig) -> OAuthClientView {
    OAuthClientView {
        client_id: config.client_id@,
        client_secret: config.client_secret@,
        auth_url: auth_endpoint(),
        token_url: token_endpoint(),
        redirect_url: config.redirect_url@,
    }
}

/// The GitHub OAuth client; fails with the error of the first endpoint
/// that is not a URL.
pub fn build_client(config: &GitHubConfig) -> (res: Result<OAuthClient, AppError>)
    ensures
        res is Ok <==> client_urls_error(auth_endpoint(), token_endpoint(), config.redirect_url@) is None,
        match res {
            Ok(c) => c@ == client_view(*config),
            Err(e) => client_urls_error(auth_endpoint(), token_endpoint(), config.redirect_url@) matches Some(m)
                && is_internal(e, m),
        },
{
    OAuthClient::new(
        config.client_id.clone(),
        config.client_secret.clone(),
        String::from_str("https://github.com/login/oauth/authorize"),
        String::from_str("https://github.com/login/oauth/access_token"),
        config.redirect_url.clone(),
    )
}

/// The authorization URL to send the browser to, with a fresh random state.
pub fn get_authorize_url(client: &OAuthClient) -> (res: (String, CsrfToken))
    ensures
        res.0@ == oauth_authorize_url(
            client@.client_id,
            client@.auth_url,
            client@.redirect_url,
            res.1@,
            scopes(),
            Seq::empty(),
        ),
        res.1@.len() == 22,
        forall|i: int| 0 <= i < res.1@.len() ==> is_url_safe_base64(#[trigger] res.1@[i]),
{
    let scopes = vec![String::from_str("user:email")];
    let extra: Vec<(String, String)> = Vec::new();
    proof {
        assert(strings_view(scopes@) =~= self::scopes());
        assert(pairs_view(extra@) =~= Seq::empty());
    }
    authorize_url_with_scopes(client, &scopes, &extra)
}

/// The start of a GitHub sign-in: the authorization URL, and the cookie that
/// remembers its state, signed with `cookie_secret`.
pub fn redirect(config: &GitHubConfig, cookie_secret: &str) -> (res: Result<(String, CsrfCookie), AppError>)
    ensures
        res is Ok <==> client_urls_error(auth_endpoint(), token_endpoint(), config.redirect_url@) is None,
        match res {
            Ok((url, cookie)) => exists|state: Seq<char>|
                {
                    &&& url@ == oauth_authorize_url(
                        config.client_id@,
                        auth_endpoint(),
                        config.redirect_url@,
                        state,
                        scopes(),
                        Seq::empty(),
                    )
                    &&& is_csrf_cookie(cookie, state, cookie_secret@)
                },
            Err(e) => client_urls_error(auth_endpoint(), token_endpoint(), config.redirect_url@) matches Some(m)
                && is_internal(e, m),
        },
{
    let client = build_client(config)?;
    let (url, token) = get_authorize_url(&client);
    let cookie = create_csrf_cookie(&token, cookie_secret);
    Ok((url, cookie))
}

/// The address of the first primary e-mail in the list, if any.
pub open spec fn first_primary(emails: Seq<GitHubEmail>) -> Option<Seq<char>>
    decreases emails.len(),
{
    if emails.len() == 0 {
        None
    } else if emails[0].primary {
        Some(emails[0].email@)
    } else {
        first_primary(emails.drop_first())
    }
}

/// Whether the profile lacks an address, so that the account's e-mail list
/// must be fetched.
pub fn needs_email_lookup(user: &GitHubUser) -> (res: bool)
    ensures
        res == (user.email is None),
{
    user.email.is_none()
}

/// The address of the first e-mail marked primary.
pub fn primary_email(emails: &Vec<GitHubEmail>) -> (res: Option<String>)
    ensures
        opt_view(res) == first_primary(emails@),
{
    let n = emails.len();
    let mut i: usize = 0;
    assert(emails@.skip(0) =~= emails@);
    while i < n
        invariant
            i <= n,
            n == emails@.len(),
            first_primary(emails@) == first_primary(emails@.skip(i as int)),
        decreases n - i,
    {
        assert(emails@.skip(i as int).drop_first() =~= emails@.skip(i + 1));
        if emails[i].primary {
            return Some(emails[i].email.clone());
        }
        i += 1;
    }
    assert(emails@.skip(i as int).len() == 0);
    None
}

/// The profile completed with the account's primary address, as fetched
/// when the profile itself had none.
pub fn with_primary_email(user: GitHubUser, emails: &Vec<GitHubEmail>) -> (res: GitHubUser)
    ensures
        res.id == user.id,
        opt_view(res.email) == first_primary(emails@),
{
    GitHubUser { id: user.id, email: primary_email(emails) }
}

/// The account a GitHub user signs in as; the identifier is the decimal
/// text of GitHub's numeric id.
pub fn identity(user: &GitHubUser) -> (res: OAuthIdentity)
    ensures
        res.provider@ == "github"@,
        res.provider_id@ == signed_decimal(user.id as int),
        opt_view(res.email) == opt_view(user.email),
{
    OAuthIdentity {
        provider: String::from_str("github"),
        provider_id: i64_to_string(user.id),
        email: clone_opt(&user.email),
    }
}

/// Different GitHub accounts sign in as different identities: the decimal
/// text of their numeric ids differs.
pub proof fn law_github_identities_distinct(a: GitHubUser, b: GitHubUser)
    requires
        a.id != b.id,
    ensures
        signed_decimal(a.id as int) != signed_decimal(b.id as int),
{
    if signed_decimal(a.id as int) == signed_decimal(b.id as int) {
        lemma_signed_decimal_injective(a.id as int, b.id as int);
    }
}

} // verus!
