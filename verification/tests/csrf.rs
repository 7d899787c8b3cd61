use axum_extra::extract::CookieJar;
use cookie::Cookie;
use tripchive::csrf::{check_csrf_value, create_csrf_cookie, verify_csrf_cookie, CsrfToken, SameSite};
use tripchive::errors::{AppError, AuthError};

const MISMATCH: AppError = AppError::Auth(AuthError::CsrfMismatch);

fn jar_with(value: &str) -> CookieJar {
    CookieJar::new().add(Cookie::new("oauth_csrf", value.to_string()))
}

#[test]
fn csrf_cookie_carries_token_and_hmac() {
    // HMAC-SHA256 test vector of RFC 4231, case 2.
    let token = CsrfToken::new("what do ya want for nothing?".to_string());
    let cookie = create_csrf_cookie(&token, "Jefe");
    assert_eq!(cookie.name, "oauth_csrf");
    assert_eq!(
        cookie.value,
        "what do ya want for nothing?.5bdcc146bf60754e6a042426089575c75a003f089d2739839dec58b964ec3843"
    );
    assert_eq!(cookie.path, "/");
    assert!(cookie.http_only);
    assert_eq!(cookie.same_site, SameSite::Lax);
    assert!(cookie.secure);
    assert_eq!(cookie.max_age_seconds, 900);
}

#[test]
fn created_cookie_verifies_with_its_state() {
    let token = CsrfToken::new("abc.def_123".to_string());
    let cookie = create_csrf_cookie(&token, "secret");
    let jar = jar_with(&cookie.value);
    assert_eq!(verify_csrf_cookie(&jar, "abc.def_123", "secret"), Ok(()));
}

#[test]
fn created_cookie_rejects_another_state() {
    let token = CsrfToken::new("state-one".to_string());
    let cookie = create_csrf_cookie(&token, "secret");
    let jar = jar_with(&cookie.value);
    assert_eq!(verify_csrf_cookie(&jar, "state-two", "secret"), Err(MISMATCH));
    assert_eq!(verify_csrf_cookie(&jar, "", "secret"), Err(MISMATCH));
}

#[test]
fn created_cookie_rejects_another_secret() {
    let token = CsrfToken::new("state-one".to_string());
    let cookie = create_csrf_cookie(&token, "secret");
    let jar = jar_with(&cookie.value);
    assert_eq!(verify_csrf_cookie(&jar, "state-one", "other secret"), Err(MISMATCH));
}

#[test]
fn missing_cookie_is_a_mismatch() {
    let jar = CookieJar::new().add(Cookie::new("session", "x"));
    assert_eq!(verify_csrf_cookie(&jar, "state", "secret"), Err(MISMATCH));
    assert_eq!(check_csrf_value(None, "state", "secret"), Err(MISMATCH));
}

#[test]
fn malformed_cookies_are_mismatches() {
    let good = create_csrf_cookie(&CsrfToken::new("tok".to_string()), "k").value;
    let (token, sig) = good.rsplit_once('.').unwrap();
    // no dot at all
    assert_eq!(check_csrf_value(Some("tokwithoutsignature"), "tokwithoutsignature", "k"), Err(MISMATCH));
    // signature that is not hex
    assert_eq!(check_csrf_value(Some("tok.zz"), "tok", "k"), Err(MISMATCH));
    // odd length signature
    let odd = format!("{token}.{}", &sig[1..]);
    assert_eq!(check_csrf_value(Some(&odd), "tok", "k"), Err(MISMATCH));
    // truncated signature
    let short = format!("{token}.{}", &sig[2..]);
    assert_eq!(check_csrf_value(Some(&short), "tok", "k"), Err(MISMATCH));
    // flipped last digit
    let mut flipped = good.clone();
    let last = flipped.pop().unwrap();
    flipped.push(if last == '0' { '1' } else { '0' });
    assert_eq!(check_csrf_value(Some(&flipped), "tok", "k"), Err(MISMATCH));
    // the untouched value passes
    assert_eq!(check_csrf_value(Some(&good), "tok", "k"), Ok(()));
}

#[test]
fn upper_case_signature_is_accepted() {
    let good = create_csrf_cookie(&CsrfToken::new("tok".to_string()), "k").value;
    let (token, sig) = good.rsplit_once('.').unwrap();
    let upper = format!("{token}.{}", sig.to_uppercase());
    assert_eq!(check_csrf_value(Some(&upper), "tok", "k"), Ok(()));
}

#[test]
fn random_tokens_are_url_safe_and_differ() {
    let a = CsrfToken::new_random();
    let b = CsrfToken::new_random();
    assert_eq!(a.secret().len(), 22);
    assert!(a.secret().chars().all(|c| c.is_ascii_alphanumeric() || c == '-' || c == '_'));
    assert_ne!(a, b);
}

#[test]
fn half_a_mac_is_refused() {
    let token = "The quick brown fox jumps over the lazy dog";
    let cookie = create_csrf_cookie(&CsrfToken::new(token.to_string()), "key");
    assert_eq!(
        cookie.value,
        format!("{token}.f7bc83f430538424b13298e6aa6fb143ef4d59a14946175997479dbc2d1a3cd8")
    );
    assert_eq!(cookie.value.len(), token.len() + 65);
    let half = format!("{token}.f7bc83f430538424b13298e6aa6fb143");
    assert_eq!(verify_csrf_cookie(&jar_with(&half), token, "key"), Err(MISMATCH));
    assert_eq!(verify_csrf_cookie(&jar_with(&cookie.value), token, "key"), Ok(()));
}
