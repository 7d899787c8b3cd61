use tripchive::config::{parse_u64, Config, ConfigError, Env};

const KEYS: [&str; 14] = [
    "DATABASE_URL",
    "JWT_SECRET",
    "JWT_EXPIRATION_HOURS",
    "GOOGLE_CLIENT_ID",
    "GOOGLE_CLIENT_SECRET",
    "GOOGLE_REDIRECT_URL",
    "GITHUB_CLIENT_ID",
    "GITHUB_CLIENT_SECRET",
    "GITHUB_REDIRECT_URL",
    "APPLE_CLIENT_ID",
    "APPLE_TEAM_ID",
    "APPLE_KEY_ID",
    "APPLE_PRIVATE_KEY",
    "APPLE_REDIRECT_URL",
];

fn full_env() -> Vec<(String, String)> {
    KEYS.iter()
        .map(|k| {
            let v = if *k == "JWT_EXPIRATION_HOURS" { "24".to_string() } else { format!("value of {k}") };
            (k.to_string(), v)
        })
        .collect()
}

#[test]
fn parse_u64_accepts_what_std_accepts() {
    assert_eq!(parse_u64("24"), Some(24));
    assert_eq!(parse_u64("0"), Some(0));
    assert_eq!(parse_u64("+7"), Some(7));
    assert_eq!(parse_u64("007"), Some(7));
    assert_eq!(parse_u64("18446744073709551615"), Some(u64::MAX));
    for text in ["24", "+7", "007", "18446744073709551615", "", "+", "-1", " 1", "1 ", "1e3", "18446744073709551616", "++1", "٣"] {
        assert_eq!(parse_u64(text), text.parse::<u64>().ok(), "{text:?}");
    }
}

#[test]
fn parse_u64_rejects_overflow_and_signs() {
    assert_eq!(parse_u64("18446744073709551616"), None);
    assert_eq!(parse_u64("99999999999999999999999"), None);
    assert_eq!(parse_u64("-0"), None);
    assert_eq!(parse_u64("+"), None);
    assert_eq!(parse_u64(""), None);
}

#[test]
fn env_lookup_finds_the_first_entry() {
    let env = Env::from_vars(vec![
        ("A".to_string(), "1".to_string()),
        ("B".to_string(), "2".to_string()),
        ("A".to_string(), "3".to_string()),
    ]);
    assert_eq!(env.var("A"), Some("1".to_string()));
    assert_eq!(env.var("B"), Some("2".to_string()));
    assert_eq!(env.var("C"), None);
}

#[test]
fn from_env_reads_every_field() {
    let env = Env::from_vars(full_env());
    assert_eq!(Config::check_env(&env), Ok(()));
    let config = Config::from_env(&env);
    assert_eq!(config.database_url, "value of DATABASE_URL");
    assert_eq!(config.jwt_secret, "value of JWT_SECRET");
    assert_eq!(config.jwt_expiration_hours, 24);
    assert_eq!(config.google.client_id, "value of GOOGLE_CLIENT_ID");
    assert_eq!(config.google.client_secret, "value of GOOGLE_CLIENT_SECRET");
    assert_eq!(config.google.redirect_url, "value of GOOGLE_REDIRECT_URL");
    assert_eq!(config.github.client_id, "value of GITHUB_CLIENT_ID");
    assert_eq!(config.github.client_secret, "value of GITHUB_CLIENT_SECRET");
    assert_eq!(config.github.redirect_url, "value of GITHUB_REDIRECT_URL");
    assert_eq!(config.apple.client_id, "value of APPLE_CLIENT_ID");
    assert_eq!(config.apple.team_id, "value of APPLE_TEAM_ID");
    assert_eq!(config.apple.key_id, "value of APPLE_KEY_ID");
    assert_eq!(config.apple.private_key, "value of APPLE_PRIVATE_KEY");
    assert_eq!(config.apple.redirect_url, "value of APPLE_REDIRECT_URL");
}

#[test]
fn check_env_names_the_first_missing_variable() {
    let mut vars = full_env();
    vars.retain(|(k, _)| k != "GITHUB_CLIENT_SECRET" && k != "APPLE_KEY_ID");
    let err = Config::check_env(&Env::from_vars(vars)).unwrap_err();
    assert_eq!(err, ConfigError::Missing("GITHUB_CLIENT_SECRET".to_string()));
    assert_eq!(err.message(), "GITHUB_CLIENT_SECRET must be set");

    let err = Config::check_env(&Env::from_vars(Vec::new())).unwrap_err();
    assert_eq!(err, ConfigError::Missing("DATABASE_URL".to_string()));
}

#[test]
fn check_env_rejects_a_bad_token_lifetime() {
    let mut vars = full_env();
    for (k, v) in vars.iter_mut() {
        if k == "JWT_EXPIRATION_HOURS" {
            *v = "a day".to_string();
        }
    }
    vars.retain(|(k, _)| k != "GOOGLE_CLIENT_ID");
    let err = Config::check_env(&Env::from_vars(vars)).unwrap_err();
    assert_eq!(err, ConfigError::InvalidNumber("JWT_EXPIRATION_HOURS".to_string()));
    assert_eq!(err.message(), "JWT_EXPIRATION_HOURS must be a valid number");
}
