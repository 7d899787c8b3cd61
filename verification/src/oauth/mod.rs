//! OAuth 2.0 authorization-code clients of the three sign-in providers.
use oauth2::basic::BasicClient;
use oauth2::{AuthUrl, ClientId, RedirectUrl, Scope};
use vstd::prelude::*;

use crate::csrf::{is_url_safe_base64, CsrfToken};
use crate::errors::AppError;

pub mod apple;
pub mod github;
pub mod google;

verus! {

/// What `url::Url::parse` reports for a text: `None` when it parses as a
/// URL, else the text of its `ParseError`.
pub uninterp spec fn url_parse_error(text: Seq<char>) -> Option<Seq<char>>;

/// `url::Url::parse`, which `AuthUrl::new`, `TokenUrl::new` and
/// `RedirectUrl::new` call. The contract claims only that the outcome, and
/// the text of the error, depend on the text alone.
#[verifier::external_body]
fn parse_url(text: &str) -> (res: Result<(), String>)
    ensures
        match res {
            Ok(()) => url_parse_error(text@) is None,
            Err(m) => url_parse_error(text@) == Some(m@),
        },
{
    oauth2::url::Url::parse(text).map(|_| ()).map_err(|e| e.to_string())
}

/// Whether an error is an internal error with the given text.
pub open spec fn is_internal(e: AppError, text: Seq<char>) -> bool {
    e matches AppError::Internal(m) && m@ == text
}

/// The outcome of checking a URL, as the service reports it.
pub open spec fn url_check(text: Seq<char>, res: Result<(), AppError>) -> bool {
    match res {
        Ok(()) => url_parse_error(text) is None,
        Err(e) => url_parse_error(text) matches Some(m) && is_internal(e, m),
    }
}

/// Checks that a text is a URL; a parse error becomes an internal error
/// carrying its text.
pub fn check_url(text: &str) -> (res: Result<(), AppError>)
    ensures
        url_check(text@, res),
{
    match parse_url(text) {
        Ok(()) => Ok(()),
        Err(m) => Err(AppError::Internal(m)),
    }
}

/// The first failing URL check of three, in order.
pub open spec fn client_urls_error(auth: Seq<char>, token: Seq<char>, redirect: Seq<char>) -> Option<Seq<char>> {
    if url_parse_error(auth) is Some {
        url_parse_error(auth)
    } else if url_parse_error(token) is Some {
        url_parse_error(token)
    } else {
        url_parse_error(redirect)
    }
}

/// A confidential OAuth client: its credentials and endpoints. Every URL it
/// holds parses.
#[derive(Debug)]
pub struct OAuthClient {
    client_id: String,
    client_secret: String,
    auth_url: String,
    token_url: String,
    redirect_url: String,
}

/// The plain contents of an `OAuthClient`.
pub struct OAuthClientView {
    pub client_id: Seq<char>,
    pub client_secret: Seq<char>,
    pub auth_url: Seq<char>,
    pub token_url: Seq<char>,
    pub redirect_url: Seq<char>,
}

impl View for OAuthClient {
    type V = OAuthClientView;

    closed spec fn view(&self) -> OAuthClientView {
        OAuthClientView {
            client_id: self.client_id@,
            client_secret: self.client_secret@,
            auth_url: self.auth_url@,
            token_url: self.token_url@,
            redirect_url: self.redirect_url@,
        }
    }
}

impl OAuthClient {
    #[verifier::type_invariant]
    closed spec fn urls_parse(self) -> bool {
        &&& url_parse_error(self.auth_url@) is None
        &&& url_parse_error(self.token_url@) is None
        &&& url_parse_error(self.redirect_url@) is None
    }

    /// A client with the given credentials and endpoints; fails with the
    /// error of the first endpoint (authorization, token, redirect) that
    /// does not parse as a URL.
    pub fn new(
        client_id: String,
        client_secret: String,
        auth_url: String,
        token_url: String,
        redirect_url: String,
    ) -> (res: Result<OAuthClient, AppError>)
        ensures
            match res {
                Ok(c) => {
                    &&& client_urls_error(auth_url@, token_url@, redirect_url@) is None
                    &&& c@ == (OAuthClientView {
                        client_id: client_id@,
                        client_secret: client_secret@,
                        auth_url: auth_url@,
                        token_url: token_url@,
                        redirect_url: redirect_url@,
                    })
                },
                Err(e) => client_urls_error(auth_url@, token_url@, redirect_url@) matches Some(m)
                    && is_internal(e, m),
            },
    {
        check_url(auth_url.as_str())?;
        check_url(token_url.as_str())?;
        check_url(redirect_url.as_str())?;
        Ok(OAuthClient { client_id, client_secret, auth_url, token_url, redirect_url })
    }

    /// The client identifier.
    pub fn client_id(&self) -> (res: &String)
        ensures
            res@ == self@.client_id,
    {
        &self.client_id
    }

    /// The client secret.
    pub fn client_secret(&self) -> (res: &String)
        ensures
            res@ == self@.client_secret,
    {
        &self.client_secret
    }

    /// The authorization endpoint.
    pub fn auth_url(&self) -> (res: &String)
        ensures
            res@ == self@.auth_url,
    {
        &self.auth_url
    }

    /// The token endpoint.
    pub fn token_url(&self) -> (res: &String)
        ensures
            res@ == self@.token_url,
    {
        &self.token_url
    }

    /// The redirect URL registered with the provider.
    pub fn redirect_url(&self) -> (res: &String)
        ensures
            res@ == self@.redirect_url,
    {
        &self.redirect_url
    }
}

/// The character sequences of a list of strings.
pub open spec fn strings_view(v: Seq<String>) -> Seq<Seq<char>> {
    v.map_values(|s: String| s@)
}

/// The character sequences of a list of string pairs.
pub open spec fn pairs_view(v: Seq<(String, String)>) -> Seq<(Seq<char>, Seq<char>)> {
    v.map_values(|p: (String, String)| (p.0@, p.1@))
}

/// The URL that `oauth2` builds for an authorization request: the
/// authorization endpoint with `response_type=code`, `client_id`, `state`,
/// `redirect_uri` and the space-joined `scope` appended, then the extra
/// parameters, all form-encoded.
pub uninterp spec fn oauth_authorize_url(
    client_id: Seq<char>,
    auth_url: Seq<char>,
    redirect_url: Seq<char>,
    state: Seq<char>,
    scopes: Seq<Seq<char>>,
    extra: Seq<(Seq<char>, Seq<char>)>,
) -> Seq<char>;

/// `BasicClient::authorize_url` with the given state, scopes and extra
/// parameters, then `url()` as text. The contract claims that the text
/// depends only on the client identifier, the two URLs, the state, the
/// scopes and the extra parameters.
#[verifier::external_body]
fn authorization_url(
    client_id: &String,
    auth_url: &String,
    redirect_url: &String,
    state: &String,
    scopes: &Vec<String>,
    extra: &Vec<(String, String)>,
) -> (res: String)
    requires
        url_parse_error(auth_url@) is None,
        url_parse_error(redirect_url@) is None,
    ensures
        res@ == oauth_authorize_url(client_id@, auth_url@, redirect_url@, state@, strings_view(scopes@), pairs_view(extra@)),
{
    let client = BasicClient::new(ClientId::new(client_id.clone()))
        .set_auth_uri(AuthUrl::new(auth_url.clone()).expect("a parsed URL"))
        .set_redirect_uri(RedirectUrl::new(redirect_url.clone()).expect("a parsed URL"));
    let state = state.clone();
    let mut request = client.authorize_url(move || oauth2::CsrfToken::new(state));
    request = request.add_scopes(scopes.iter().map(|s| Scope::new(s.clone())));
    for (name, value) in extra.iter() {
        request = request.add_extra_param(name.clone(), value.clone());
    }
    request.url().0.to_string()
}

/// A fresh random state and the authorization URL that carries it.
pub fn authorize_url_with_scopes(
    client: &OAuthClient,
    scopes: &Vec<String>,
    extra: &Vec<(String, String)>,
) -> (res: (String, CsrfToken))
    ensures
        res.0@ == oauth_authorize_url(
            client@.client_id,
            client@.auth_url,
            client@.redirect_url,
            res.1@,
            strings_view(scopes@),
            pairs_view(extra@),
        ),
        res.1@.len() == 22,
        forall|i: int| 0 <= i < res.1@.len() ==> is_url_safe_base64(#[trigger] res.1@[i]),
{
    proof {
        use_type_invariant(client);
    }
    let token = CsrfToken::new_random();
    let url = authorization_url(&client.client_id, &client.auth_url, &client.redirect_url, token.secret(), scopes, extra);
    (url, token)
}

} // verus!
