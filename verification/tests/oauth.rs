use axum_extra::extract::CookieJar;
use cookie::Cookie;
use tripchive::config::{GitHubConfig, GoogleConfig};
use tripchive::csrf::verify_csrf_cookie;
use tripchive::errors::AppError;
use tripchive::oauth::github::{self, GitHubEmail, GitHubUser};
use tripchive::oauth::google::{self, GoogleUser};
use tripchive::oauth::OAuthClient;

fn google_config(redirect: &str) -> GoogleConfig {
    GoogleConfig {
        client_id: "google-id".to_string(),
        client_secret: "google-secret".to_string(),
        redirect_url: redirect.to_string(),
    }
}

fn github_config() -> GitHubConfig {
    GitHubConfig {
        client_id: "gh-id".to_string(),
        client_secret: "gh-secret".to_string(),
        redirect_url: "http://localhost:3000/auth/github/callback".to_string(),
    }
}

#[test]
fn google_client_holds_the_configured_endpoints() {
    let client = google::build_client(&google_config("http://localhost/cb")).unwrap();
    assert_eq!(client.client_id(), "google-id");
    assert_eq!(client.client_secret(), "google-secret");
    assert_eq!(client.auth_url(), "https://accounts.google.com/o/oauth2/v2/auth");
    assert_eq!(client.token_url(), "https://oauth2.googleapis.com/token");
    assert_eq!(client.redirect_url(), "http://localhost/cb");
}

#[test]
fn bad_redirect_url_is_an_internal_error() {
    let err = google::build_client(&google_config("not a url")).unwrap_err();
    assert_eq!(err, AppError::Internal("relative URL without a base".to_string()));
}

#[test]
fn client_checks_endpoints_in_order() {
    let err = OAuthClient::new(
        "id".to_string(),
        "secret".to_string(),
        "https://example.com/auth".to_string(),
        "https://[::1".to_string(),
        "no scheme".to_string(),
    )
    .unwrap_err();
    assert_eq!(err, AppError::Internal("invalid IPv6 address".to_string()));
}

#[test]
fn google_authorize_url_carries_the_state() {
    let client = google::build_client(&google_config("http://localhost/cb")).unwrap();
    let (url, token) = google::get_authorize_url(&client);
    let expected = format!(
        "https://accounts.google.com/o/oauth2/v2/auth?response_type=code&client_id=google-id&state={}&redirect_uri=http%3A%2F%2Flocalhost%2Fcb&scope=email+profile",
        token.secret()
    );
    assert_eq!(url, expected);
}

#[test]
fn github_authorize_url_carries_the_state() {
    let client = github::build_client(&github_config()).unwrap();
    let (url, token) = github::get_authorize_url(&client);
    let expected = format!(
        "https://github.com/login/oauth/authorize?response_type=code&client_id=gh-id&state={}&redirect_uri=http%3A%2F%2Flocalhost%3A3000%2Fauth%2Fgithub%2Fcallback&scope=user%3Aemail",
        token.secret()
    );
    assert_eq!(url, expected);
}

#[test]
fn redirect_cookie_verifies_with_the_url_state() {
    let (url, cookie) = google::redirect(&google_config("http://localhost/cb"), "jwt-secret").unwrap();
    let state = url.split("state=").nth(1).unwrap().split('&').next().unwrap().to_string();
    let jar = CookieJar::new().add(Cookie::new(cookie.name.clone(), cookie.value.clone()));
    assert_eq!(verify_csrf_cookie(&jar, &state, "jwt-secret"), Ok(()));
    assert!(verify_csrf_cookie(&jar, &state, "other").is_err());
}

#[test]
fn google_identity_uses_the_google_id() {
    let user = GoogleUser { id: "1098".to_string(), email: "a@example.com".to_string() };
    let id = google::identity(&user);
    assert_eq!(id.provider, "google");
    assert_eq!(id.provider_id, "1098");
    assert_eq!(id.email, Some("a@example.com".to_string()));
}

#[test]
fn github_primary_email_is_the_first_primary() {
    let emails = vec![
        GitHubEmail { email: "old@example.com".to_string(), primary: false },
        GitHubEmail { email: "main@example.com".to_string(), primary: true },
        GitHubEmail { email: "other@example.com".to_string(), primary: true },
    ];
    assert_eq!(github::primary_email(&emails), Some("main@example.com".to_string()));
    assert_eq!(github::primary_email(&emails[..1].to_vec()), None);
    assert_eq!(github::primary_email(&Vec::new()), None);
}

#[test]
fn github_profile_without_email_takes_the_primary() {
    let user = GitHubUser { id: 42, email: None };
    assert!(github::needs_email_lookup(&user));
    let emails = vec![GitHubEmail { email: "main@example.com".to_string(), primary: true }];
    let user = github::with_primary_email(user, &emails);
    assert_eq!(user, GitHubUser { id: 42, email: Some("main@example.com".to_string()) });
    assert!(!github::needs_email_lookup(&user));
}

#[test]
fn github_identity_uses_the_decimal_id() {
    let id = github::identity(&GitHubUser { id: 583231, email: None });
    assert_eq!(id.provider, "github");
    assert_eq!(id.provider_id, "583231");
    assert_eq!(id.email, None);
}

#[test]
fn distinct_github_ids_give_distinct_identities() {
    let ids = [0i64, 1, -1, 10, -10, 100, i64::MAX, i64::MIN];
    for a in ids {
        for b in ids {
            let ia = github::identity(&GitHubUser { id: a, email: None });
            let ib = github::identity(&GitHubUser { id: b, email: None });
            assert_eq!(a == b, ia.provider_id == ib.provider_id);
        }
    }
}
