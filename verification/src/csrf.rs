//! The signed cookie that carries the OAuth `state` value across the
//! redirect to the provider and back.
use axum_extra::extract::CookieJar;
use vstd::prelude::*;

use crate::crypto::{hmac_sha256, hmac_sha256_tag, hmac_sha256_verify};
use crate::encoding::{hex_decode, hex_decode_spec, hex_encode, hex_lower, lemma_hex_lower_ascii, lemma_hex_roundtrip};
use crate::errors::{AppError, AuthError};
use crate::text::{lemma_rfind_char_join, rfind_char, rsplit_once};
use vstd::utf8::encode_utf8;

verus! {

#[verifier::external_type_specification]
#[verifier::external_body]
pub struct ExCookieJar(CookieJar);

/// The cookies a jar holds, by name: the value that `CookieJar::get` finds.
pub uninterp spec fn jar_cookies(jar: CookieJar) -> Map<Seq<char>, Seq<char>>;

/// `CookieJar::get(name)`, reduced to the cookie's value.
/// The contract claims that a value comes back exactly when the jar holds a
/// cookie of that name, and that it is that cookie's value.
#[verifier::external_body]
pub(crate) fn jar_cookie_value(jar: &CookieJar, name: &str) -> (res: Option<String>)
    ensures
        res is Some <==> jar_cookies(*jar).contains_key(name@),
        res matches Some(v) ==> v@ == jar_cookies(*jar)[name@],
{
    jar.get(name).map(|c| c.value().to_string())
}

/// The name of the cookie that holds the signed CSRF state.
pub open spec fn csrf_cookie_name() -> Seq<char> {
    "oauth_csrf"@
}

/// The value of the CSRF cookie in a jar, when there is one.
pub open spec fn jar_csrf_value(jar: CookieJar) -> Option<Seq<char>> {
    if jar_cookies(jar).contains_key(csrf_cookie_name()) {
        Some(jar_cookies(jar)[csrf_cookie_name()])
    } else {
        None
    }
}

/// The opaque `state` value of one OAuth authorization request.
#[derive(Debug, Clone, PartialEq, Eq)]
pub struct CsrfToken {
    secret: String,
}

impl View for CsrfToken {
    type V = Seq<char>;

    closed spec fn view(&self) -> Seq<char> {
        self.secret@
    }
}

/// Whether a character belongs to the URL-safe base64 alphabet.
pub open spec fn is_url_safe_base64(c: char) -> bool {
    ||| 'A' <= c <= 'Z'
    ||| 'a' <= c <= 'z'
    ||| '0' <= c <= '9'
    ||| c == '-'
    ||| c == '_'
}

/// `oauth2::CsrfToken::new_random()`, reduced to its text. The contract
/// claims what every outcome shares: 16 random bytes in unpadded URL-safe
/// base64, that is 22 characters of that alphabet.
#[verifier::external_body]
fn random_token_text() -> (res: String)
    ensures
        res@.len() == 22,
        forall|i: int| 0 <= i < res@.len() ==> is_url_safe_base64(#[trigger] res@[i]),
{
    oauth2::CsrfToken::new_random().secret().clone()
}

impl CsrfToken {
    /// A fresh random token, as `oauth2` makes one for each authorization request.
    pub fn new_random() -> (res: Self)
        ensures
            res@.len() == 22,
            forall|i: int| 0 <= i < res@.len() ==> is_url_safe_base64(#[trigger] res@[i]),
    {
        CsrfToken { secret: random_token_text() }
    }

    /// A token holding the given text.
    pub fn new(secret: String) -> (res: Self)
        ensures
            res@ == secret@,
    {
        CsrfToken { secret }
    }

    /// The text of the token.
    pub fn secret(&self) -> (res: &String)
        ensures
            res@ == self@,
    {
        &self.secret
    }
}

/// The `SameSite` attribute of a cookie.
#[derive(Debug, Clone, Copy, PartialEq, Eq, Structural)]
pub enum SameSite {
    Strict,
    Lax,
    /// Sent as `SameSite=None`.
    Unrestricted,
}

/// A cookie to be set on the response, with the attributes it is sent with.
#[derive(Debug, Clone, PartialEq, Eq)]
pub struct CsrfCookie {
    pub name: String,
    pub value: String,
    pub path: String,
    pub http_only: bool,
    pub same_site: SameSite,
    pub secure: bool,
    pub max_age_seconds: i64,
}

/// The signature over a token: HMAC-SHA256 keyed with the UTF-8 bytes of
/// the secret, over the UTF-8 bytes of the token.
pub open spec fn csrf_signature(token: Seq<char>, secret: Seq<char>) -> Seq<u8> {
    hmac_sha256_tag(encode_utf8(secret), encode_utf8(token))
}

/// The cookie value for a token: the token, a dot, and the lower-case hex
/// text of its signature.
pub open spec fn csrf_cookie_value(token: Seq<char>, secret: Seq<char>) -> Seq<char> {
    token + seq!['.'] + hex_lower(csrf_signature(token, secret))
}

/// Whether a CSRF cookie value proves the `state` parameter of a callback:
/// the value splits at its last dot into a token and a hex signature, the
/// signature decodes and is the signature of the token under `secret`, and
/// the token is the state.
pub open spec fn csrf_accepts(cookie: Option<Seq<char>>, state: Seq<char>, secret: Seq<char>) -> bool {
    match cookie {
        None => false,
        Some(v) => {
            let i = rfind_char(v, '.');
            let token = v.subrange(0, i);
            let sig = v.subrange(i + 1, v.len() as int);
            &&& i >= 0
            &&& hex_decode_spec(encode_utf8(sig)) == Some(csrf_signature(token, secret))
            &&& token == state
        },
    }
}

/// Whether a cookie records `token` for the callback: named `oauth_csrf`,
/// valued with the token signed with `secret`, for every path, HTTP-only,
/// `SameSite=Lax`, secure, and kept for fifteen minutes.
pub open spec fn is_csrf_cookie(c: CsrfCookie, token: Seq<char>, secret: Seq<char>) -> bool {
    &&& c.name@ == csrf_cookie_name()
    &&& c.value@ == csrf_cookie_value(token, secret)
    &&& c.path@ == "/"@
    &&& c.http_only
    &&& c.same_site == SameSite::Lax
    &&& c.secure
    &&& c.max_age_seconds == 15 * 60
}

/// The cookie that records `token` for the callback. Its value ends in the
/// 64 hex digits of the 32-byte signature.
pub fn create_csrf_cookie(token: &CsrfToken, secret: &str) -> (res: CsrfCookie)
    ensures
        is_csrf_cookie(res, token@, secret@),
        csrf_signature(token@, secret@).len() == 32,
        res.value@.len() == token@.len() + 65,
{
    let signature = hmac_sha256(secret.as_bytes(), token.secret().as_str().as_bytes());
    let mut value = token.secret().clone();
    value.append(".");
    let sig_text = hex_encode(signature.as_slice());
    value.append(sig_text.as_str());
    proof {
        assert("."@ =~= seq!['.']) by {
            reveal_strlit(".");
        }
    }
    CsrfCookie {
        name: String::from_str("oauth_csrf"),
        value,
        path: String::from_str("/"),
        http_only: true,
        same_site: SameSite::Lax,
        secure: true,
        max_age_seconds: 15 * 60,
    }
}

/// The signature bytes that a cookie value presents: the hex text after its
/// last dot, decoded.
pub open spec fn presented_signature(v: Seq<char>) -> Seq<u8> {
    let i = rfind_char(v, '.');
    hex_decode_spec(encode_utf8(v.subrange(i + 1, v.len() as int)))->0
}

/// Checks a CSRF cookie value against the `state` parameter of a callback.
pub fn check_csrf_value(cookie: Option<&str>, state_param: &str, secret: &str) -> (res: Result<(), AppError>)
    ensures
        res is Ok <==> csrf_accepts(
            match cookie {
                Some(v) => Some(v@),
                None => None,
            },
            state_param@,
            secret@,
        ),
        res matches Err(e) ==> e == AppError::Auth(AuthError::CsrfMismatch),
        res is Ok ==> (cookie matches Some(v) && presented_signature(v@).len() == 32),
{
    let value = match cookie {
        Some(v) => v,
        None => return Err(AppError::Auth(AuthError::CsrfMismatch)),
    };
    let (token, sig) = match rsplit_once(value, '.') {
        Some(parts) => parts,
        None => return Err(AppError::Auth(AuthError::CsrfMismatch)),
    };
    let tag = match hex_decode(sig.as_bytes()) {
        Some(t) => t,
        None => return Err(AppError::Auth(AuthError::CsrfMismatch)),
    };
    if !hmac_sha256_verify(secret.as_bytes(), token.as_bytes(), tag.as_slice()) {
        return Err(AppError::Auth(AuthError::CsrfMismatch));
    }
    let token_owned = String::from_str(token);
    let state_owned = String::from_str(state_param);
    if token_owned == state_owned {
        Ok(())
    } else {
        Err(AppError::Auth(AuthError::CsrfMismatch))
    }
}

/// Checks the CSRF cookie of a request against the `state` parameter of an
/// OAuth callback; any failure is a `CsrfMismatch`.
pub fn verify_csrf_cookie(jar: &CookieJar, state_param: &str, secret: &str) -> (res: Result<(), AppError>)
    ensures
        res is Ok <==> csrf_accepts(jar_csrf_value(*jar), state_param@, secret@),
        res matches Err(e) ==> e == AppError::Auth(AuthError::CsrfMismatch),
        res is Ok ==> (jar_csrf_value(*jar) matches Some(v) && presented_signature(v).len() == 32),
{
    let value = jar_cookie_value(jar, "oauth_csrf");
    proof {
        reveal_strlit("oauth_csrf");
    }
    match value {
        Some(v) => check_csrf_value(Some(v.as_str()), state_param, secret),
        None => check_csrf_value(None, state_param, secret),
    }
}

/// A cookie made for a token is accepted with exactly that token as the
/// state and the same secret.
pub proof fn lemma_csrf_roundtrip(token: Seq<char>, secret: Seq<char>, state: Seq<char>)
    ensures
        csrf_accepts(Some(csrf_cookie_value(token, secret)), state, secret) <==> state == token,
{
    let tag = csrf_signature(token, secret);
    let sig = hex_lower(tag);
    let v = csrf_cookie_value(token, secret);
    lemma_hex_lower_ascii(tag);
    lemma_rfind_char_join(token, '.', sig);
    let i = token.len() as int;
    assert(v.subrange(0, i) =~= token);
    assert(v.subrange(i + 1, v.len() as int) =~= sig);
    lemma_hex_roundtrip(tag);
}

/// The redirect and the callback agree: when the request jar holds the
/// cookie that `create_csrf_cookie` made for a token, the callback check
/// passes exactly when the returned `state` is that token.
pub proof fn law_csrf_cookie_verifies(jar: CookieJar, token: Seq<char>, secret: Seq<char>, state: Seq<char>)
    requires
        jar_csrf_value(jar) == Some(csrf_cookie_value(token, secret)),
    ensures
        csrf_accepts(jar_csrf_value(jar), state, secret) <==> state == token,
{
    lemma_csrf_roundtrip(token, secret, state);
}

} // verus!
