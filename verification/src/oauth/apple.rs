//! Sign in with Apple.
use vstd::prelude::*;

use crate::config::AppleConfig;
use crate::csrf::{create_csrf_cookie, is_csrf_cookie, is_url_safe_base64, CsrfCookie, CsrfToken};
use crate::errors::AppError;
use crate::jwt::{decode_header_kid, ec_pem_error, es256_key_accepted, es256_signature_valid, es256_signing_input, jwt_header_kid, result_view, rs256_decode_outcome, sign_es256, starts_with, verify_rs256};
use crate::models::{clone_opt, opt_view, OAuthIdentity};
use crate::oauth::{
    authorize_url_with_scopes, client_urls_error, is_internal, oauth_authorize_url, pairs_view,
    strings_view, OAuthClient,
};

verus! {

/// What Apple reports of the signed-in account.
#[derive(Debug, Clone, PartialEq, Eq)]
pub struct AppleUser {
    pub id: String,
    pub email: Option<String>,
}

/// One public key of Apple's key set.
#[derive(Debug, Clone, PartialEq, Eq)]
pub struct AppleJwk {
    pub kid: String,
    pub n: String,
    pub e: String,
}

/// The issuer of Apple's tokens, and the audience of client secrets.
pub open spec fn apple_issuer() -> Seq<char> {
    "https://appleid.apple.com"@
}

/// Apple's authorization endpoint.
pub open spec fn auth_endpoint() -> Seq<char> {
    "https://appleid.apple.com/auth/authorize"@
}

/// Apple's token endpoint.
pub open spec fn token_endpoint() -> Seq<char> {
    "https://appleid.apple.com/auth/token"@
}

/// The scopes requested from Apple.
pub open spec fn scopes() -> Seq<Seq<char>> {
    seq!["name"@, "email"@]
}

/// The extra authorization parameters: Apple posts the callback as a form.
pub open spec fn extra_params() -> Seq<(Seq<char>, Seq<char>)> {
    seq![("response_mode"@, "form_post"@)]
}

/// Seconds in the 180 days for which a client secret is valid.
pub open spec fn client_secret_lifetime() -> int {
    15552000
}

/// The last second that `chrono` can represent (the end of year 262142).
pub open spec fn max_timestamp() -> int {
    8210266876799
}

/// The signed part of a client secret for `config` issued at `now`: an
/// ES256 token naming the configured key, whose claims are issued by the
/// team, for the client, addressed to Apple, and valid for 180 days from
/// `now`.
pub open spec fn client_secret_input(config: AppleConfig, now: i64) -> Seq<char> {
    es256_signing_input(
        config.key_id@,
        config.team_id@,
        config.client_id@,
        apple_issuer(),
        now as u64,
        (now + client_secret_lifetime()) as u64,
    )
}

/// Whether `token` is a client secret for `config` issued at `now`: its
/// signed part followed by a valid signature made with the configured
/// private key.
pub open spec fn is_client_secret_at(config: AppleConfig, now: i64, token: Seq<char>) -> bool {
    let input = client_secret_input(config, now);
    &&& starts_with(token, input.push('.'))
    &&& es256_signature_valid(config.private_key@, input, token.skip((input.len() + 1) as int))
}

/// Whether the configured private key can sign: `from_ec_pem` reads it and
/// `ring` accepts it as a P-256 key.
pub open spec fn signing_key_usable(config: AppleConfig) -> bool {
    ec_pem_error(config.private_key@) is None && es256_key_accepted(config.private_key@)
}

/// The error given when the clock reads within 180 days of the last time
/// `chrono` can represent, so that the secret's expiry cannot be computed.
pub open spec fn is_clock_overflow(e: AppError) -> bool {
    is_internal(e, "`DateTime + TimeDelta` overflowed"@)
}

/// Whether a client secret issued at `now` has an expiry that `chrono` can
/// represent.
pub open spec fn expiry_representable(now: i64) -> bool {
    now + client_secret_lifetime() <= max_timestamp()
}

/// The client secret that authenticates the service to Apple, issued at
/// `now` (seconds since the Unix epoch). The expiry is computed first: when
/// it cannot be represented, the result is the clock-overflow error.
/// Otherwise the secret is made exactly when the configured key can sign,
/// and a key that `from_ec_pem` refuses gives its error.
pub fn generate_client_secret_at(config: &AppleConfig, now: i64) -> (res: Result<String, AppError>)
    ensures
        match res {
            Ok(t) => is_client_secret_at(*config, now, t@),
            Err(e) => e is Internal,
        },
        res is Ok <==> (expiry_representable(now) && signing_key_usable(*config)),
        !expiry_representable(now) ==> (res matches Err(e) && is_clock_overflow(e)),
        expiry_representable(now) ==> (ec_pem_error(config.private_key@) matches Some(m) ==> (res matches Err(e)
            && is_internal(e, m))),
{
    if now > 8210266876799 - 15552000 {
        return Err(AppError::Internal(String::from_str("`DateTime + TimeDelta` overflowed")));
    }
    let exp = now + 15552000;
    match sign_es256(
        config.key_id.as_str(),
        config.team_id.as_str(),
        config.client_id.as_str(),
        "https://appleid.apple.com",
        now as u64,
        exp as u64,
        config.private_key.as_str(),
    ) {
        Ok(t) => Ok(t),
        Err(m) => Err(AppError::Internal(m)),
    }
}

/// `chrono::Utc::now().timestamp()`: the current time in whole seconds since
/// the Unix epoch. The contract claims nothing of it.
#[verifier::external_body]
fn current_unix_time() -> (res: i64) {
    chrono::Utc::now().timestamp()
}

/// Whether `t` is a reading of the clock: a value that a call of
/// `current_unix_time` gave back. Nothing else is known of the clock, so
/// this holds only of values that such a call produced.
pub closed spec fn clock_reading(t: i64) -> bool {
    call_ensures(current_unix_time, (), t)
}

/// Reads the clock through the function value, so that the reading is
/// known to be one.
fn read_clock() -> (t: i64)
    ensures
        clock_reading(t),
{
    let clock = current_unix_time;
    clock()
}

/// Whether `token` is a client secret for `config` issued at a reading of
/// the clock whose expiry can be represented: its `iat` is that reading and
/// its `exp` lies 180 days after it.
pub open spec fn is_client_secret(config: AppleConfig, token: Seq<char>) -> bool {
    exists|now: i64|
        clock_reading(now) && expiry_representable(now) && #[trigger] is_client_secret_at(config, now, token)
}

/// A client secret is issued at a reading of the clock and expires 180
/// days later: its signed part names the configured key and carries the
/// team as issuer, the client as subject, Apple as audience, that reading
/// as `iat` and the reading plus 15552000 seconds as `exp`.
pub proof fn law_client_secret_issued_at_clock_reading(config: AppleConfig, token: Seq<char>)
    requires
        is_client_secret(config, token),
    ensures
        exists|t: i64|
            #[trigger] clock_reading(t) && t + 15552000 <= max_timestamp() && starts_with(
                token,
                es256_signing_input(
                    config.key_id@,
                    config.team_id@,
                    config.client_id@,
                    "https://appleid.apple.com"@,
                    t as u64,
                    (t + 15552000) as u64,
                ).push('.'),
            ),
{
    let t = choose|t: i64|
        clock_reading(t) && expiry_representable(t) && #[trigger] is_client_secret_at(config, t, token);
    assert(clock_reading(t));
}

/// The client secret that authenticates the service to Apple, issued now:
/// `generate_client_secret_at` with the current time. With a key that can
/// sign it is made, unless the clock reads too late for its expiry to be
/// represented.
pub fn generate_client_secret(config: &AppleConfig) -> (res: Result<String, AppError>)
    ensures
        match res {
            Ok(t) => is_client_secret(*config, t@),
            Err(e) => is_clock_overflow(e) || (e is Internal && !signing_key_usable(*config)),
        },
        res is Ok ==> signing_key_usable(*config),
        signing_key_usable(*config) ==> (res is Ok || (res matches Err(e) && is_clock_overflow(e))),
        ec_pem_error(config.private_key@) matches Some(m) ==> (res matches Err(e) && (is_internal(e, m)
            || is_clock_overflow(e))),
{
    let now = read_clock();
    let res = generate_client_secret_at(config, now);
    proof {
        if res is Ok {
            assert(is_client_secret_at(*config, now, res->Ok_0@));
        }
    }
    res
}

/// The Apple OAuth client, authenticated by a fresh client secret.
pub fn build_client(config: &AppleConfig) -> (res: Result<OAuthClient, AppError>)
    ensures
        match res {
            Ok(c) => {
                &&& c@.client_id == config.client_id@
                &&& is_client_secret(*config, c@.client_secret)
                &&& c@.auth_url == auth_endpoint()
                &&& c@.token_url == token_endpoint()
                &&& c@.redirect_url == config.redirect_url@
            },
            Err(e) => e is Internal,
        },
        res is Ok ==> client_urls_error(auth_endpoint(), token_endpoint(), config.redirect_url@) is None,
        res is Ok ==> signing_key_usable(*config),
        signing_key_usable(*config) && client_urls_error(auth_endpoint(), token_endpoint(), config.redirect_url@)
            is None ==> (res is Ok || (res matches Err(e) && is_clock_overflow(e))),
        signing_key_usable(*config) ==> (client_urls_error(auth_endpoint(), token_endpoint(), config.redirect_url@)
            matches Some(m) ==> (res matches Err(e) && (is_internal(e, m) || is_clock_overflow(e)))),
        ec_pem_error(config.private_key@) is Some ==> res is Err,
{
    let client_secret = generate_client_secret(config)?;
    let res = OAuthClient::new(
        config.client_id.clone(),
        client_secret,
        String::from_str("https://appleid.apple.com/auth/authorize"),
        String::from_str("https://appleid.apple.com/auth/token"),
        config.redirect_url.clone(),
    );
    res
}

/// The authorization URL to send the browser to, with a fresh random state.
pub fn get_authorize_url(client: &OAuthClient) -> (res: (String, CsrfToken))
    ensures
        res.0@ == oauth_authorize_url(
            client@.client_id,
            client@.auth_url,
            client@.redirect_url,
            res.1@,
            scopes(),
            extra_params(),
        ),
        res.1@.len() == 22,
        forall|i: int| 0 <= i < res.1@.len() ==> is_url_safe_base64(#[trigger] res.1@[i]),
{
    let scopes = vec![String::from_str("name"), String::from_str("email")];
    let extra = vec![(String::from_str("response_mode"), String::from_str("form_post"))];
    proof {
        assert(strings_view(scopes@) =~= self::scopes());
        assert(pairs_view(extra@) =~= extra_params());
    }
    authorize_url_with_scopes(client, &scopes, &extra)
}

/// The start of an Apple sign-in: the authorization URL, and the cookie that
/// remembers its state, signed with `cookie_secret`.
pub fn redirect(config: &AppleConfig, cookie_secret: &str) -> (res: Result<(String, CsrfCookie), AppError>)
    ensures
        res is Ok ==> client_urls_error(auth_endpoint(), token_endpoint(), config.redirect_url@) is None,
        res is Ok ==> signing_key_usable(*config),
        signing_key_usable(*config) && client_urls_error(auth_endpoint(), token_endpoint(), config.redirect_url@)
            is None ==> (res is Ok || (res matches Err(e) && is_clock_overflow(e))),
        match res {
            Ok((url, cookie)) => exists|state: Seq<char>|
                {
                    &&& url@ == oauth_authorize_url(
                        config.client_id@,
                        auth_endpoint(),
                        config.redirect_url@,
                        state,
                        scopes(),
                        extra_params(),
                    )
                    &&& is_csrf_cookie(cookie, state, cookie_secret@)
                },
            Err(e) => e is Internal,
        },
{
    let client = build_client(config)?;
    let (url, token) = get_authorize_url(&client);
    let cookie = create_csrf_cookie(&token, cookie_secret);
    Ok((url, cookie))
}

/// The form that exchanges an authorization code at Apple's token endpoint.
pub open spec fn token_form(config: AppleConfig, client_secret: Seq<char>, code: Seq<char>) -> Seq<(Seq<char>, Seq<char>)> {
    seq![
        ("client_id"@, config.client_id@),
        ("client_secret"@, client_secret),
        ("code"@, code),
        ("grant_type"@, "authorization_code"@),
        ("redirect_uri"@, config.redirect_url@),
    ]
}

/// The form fields of the code exchange, in the order they are sent.
pub fn token_request_form(config: &AppleConfig, client_secret: &str, code: &str) -> (res: Vec<(String, String)>)
    ensures
        pairs_view(res@) == token_form(*config, client_secret@, code@),
{
    let res = vec![
        (String::from_str("client_id"), config.client_id.clone()),
        (String::from_str("client_secret"), String::from_str(client_secret)),
        (String::from_str("code"), String::from_str(code)),
        (String::from_str("grant_type"), String::from_str("authorization_code")),
        (String::from_str("redirect_uri"), config.redirect_url.clone()),
    ];
    proof {
        assert(pairs_view(res@) =~= token_form(*config, client_secret@, code@));
    }
    res
}

/// The form that exchanges `code` at Apple's token endpoint, authenticated
/// by a fresh client secret.
pub fn exchange_code_form(config: &AppleConfig, code: &str) -> (res: Result<Vec<(String, String)>, AppError>)
    ensures
        match res {
            Ok(form) => exists|secret: Seq<char>|
                is_client_secret(*config, secret) && pairs_view(form@) == #[trigger] token_form(*config, secret, code@),
            Err(e) => e is Internal,
        },
        res is Ok ==> signing_key_usable(*config),
        signing_key_usable(*config) ==> (res is Ok || (res matches Err(e) && is_clock_overflow(e))),
{
    let client_secret = generate_client_secret(config)?;
    Ok(token_request_form(config, client_secret.as_str(), code))
}

/// The key identifier named in the header of an ID token.
pub fn id_token_kid(id_token: &str) -> (res: Result<String, AppError>)
    ensures
        match jwt_header_kid(id_token@) {
            Ok(Some(k)) => res matches Ok(r) && r@ == k,
            Ok(None) => res matches Err(e) && is_internal(e, "missing kid in id_token header"@),
            Err(m) => res matches Err(e) && is_internal(e, m),
        },
{
    match decode_header_kid(id_token) {
        Ok(Some(k)) => Ok(k),
        Ok(None) => Err(AppError::Internal(String::from_str("missing kid in id_token header"))),
        Err(m) => Err(AppError::Internal(m)),
    }
}

/// The position of the first key with identifier `kid`, or -1.
pub open spec fn find_key(keys: Seq<AppleJwk>, kid: Seq<char>) -> int
    decreases keys.len(),
{
    if keys.len() == 0 {
        -1
    } else if keys[0].kid@ == kid {
        0
    } else {
        let rest = find_key(keys.drop_first(), kid);
        if rest < 0 {
            -1
        } else {
            rest + 1
        }
    }
}

/// The first key of the set with the given identifier.
pub fn find_jwk(keys: &Vec<AppleJwk>, kid: &String) -> (res: Option<usize>)
    ensures
        match res {
            Some(i) => i < keys@.len() && i == find_key(keys@, kid@) && keys@[i as int].kid@ == kid@,
            None => find_key(keys@, kid@) == -1,
        },
{
    let n = keys.len();
    let mut i: usize = 0;
    while i < n
        invariant
            i <= n,
            n == keys@.len(),
            forall|j: int| 0 <= j < i ==> keys@[j].kid@ != kid@,
        decreases n - i,
    {
        if keys[i].kid == *kid {
            proof {
                lemma_find_key_at(keys@, kid@, i as int);
            }
            return Some(i);
        }
        i += 1;
    }
    proof {
        lemma_find_key_at(keys@, kid@, n as int);
    }
    None
}

proof fn lemma_find_key_at(keys: Seq<AppleJwk>, kid: Seq<char>, i: int)
    requires
        0 <= i <= keys.len(),
        forall|j: int| 0 <= j < i ==> keys[j].kid@ != kid,
        i < keys.len() ==> keys[i].kid@ == kid,
    ensures
        find_key(keys, kid) == (if i < keys.len() {
            i
        } else {
            -1
        }),
    decreases i,
{
    if i > 0 {
        assert(keys[0].kid@ != kid);
        let rest = keys.drop_first();
        assert forall|j: int| 0 <= j < i - 1 implies rest[j].kid@ != kid by {
            assert(rest[j] == keys[j + 1]);
        }
        lemma_find_key_at(rest, kid, i - 1);
    }
}

/// A result whose error is internal, over character sequences: the text of
/// the value or of the error.
pub open spec fn internal_result_view(r: Result<String, AppError>) -> Result<Seq<char>, Seq<char>> {
    match r {
        Ok(c) => Ok(c@),
        Err(AppError::Internal(m)) => Err(m@),
        Err(AppError::Auth(_)) => Err(Seq::empty()),
    }
}

/// Checks an ID token against Apple's key set: the key named in the token's
/// header must be in the set, and the token must be an RS256 token signed
/// with it, addressed to the client and issued by Apple. Gives the token's
/// claims as JSON text.
pub fn decode_id_token(id_token: &str, config: &AppleConfig, keys: &Vec<AppleJwk>) -> (res: Result<String, AppError>)
    ensures
        match jwt_header_kid(id_token@) {
            Ok(Some(k)) => {
                &&& find_key(keys@, k) == -1 ==> (res matches Err(e) && is_internal(e, "no matching key in Apple JWKS"@))
                &&& res matches Err(e) ==> e is Internal
                &&& find_key(keys@, k) >= 0 ==> exists|now: u64|
                    #[trigger] rs256_decode_outcome(
                        id_token@,
                        keys@[find_key(keys@, k)].n@,
                        keys@[find_key(keys@, k)].e@,
                        config.client_id@,
                        apple_issuer(),
                        now,
                    ) == internal_result_view(res)
            },
            Ok(None) => res matches Err(e) && is_internal(e, "missing kid in id_token header"@),
            Err(m) => res matches Err(e) && is_internal(e, m),
        },
{
    let kid = id_token_kid(id_token)?;
    let index = match find_jwk(keys, &kid) {
        Some(i) => i,
        None => return Err(AppError::Internal(String::from_str("no matching key in Apple JWKS"))),
    };
    let key = &keys[index];
    let outcome = verify_rs256(id_token, key.n.as_str(), key.e.as_str(), config.client_id.as_str(), "https://appleid.apple.com");
    let ghost now = choose|now: u64|
        result_view(outcome) == #[trigger] rs256_decode_outcome(id_token@, key.n@, key.e@, config.client_id@, apple_issuer(), now);
    let res = match outcome {
        Ok(claims) => Ok(claims),
        Err(m) => Err(AppError::Internal(m)),
    };
    assert(internal_result_view(res) == rs256_decode_outcome(id_token@, key.n@, key.e@, config.client_id@, apple_issuer(), now));
    res
}

/// The account an Apple user signs in as.
pub fn identity(user: &AppleUser) -> (res: OAuthIdentity)
    ensures
        res.provider@ == "apple"@,
        res.provider_id@ == user.id@,
        opt_view(res.email) == opt_view(user.email),
{
    OAuthIdentity {
        provider: String::from_str("apple"),
        provider_id: user.id.clone(),
        email: clone_opt(&user.email),
    }
}

} // verus!
