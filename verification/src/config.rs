//! Service configuration, read from the process environment.
use vstd::prelude::*;

use crate::text::{all_digits, digits_value, is_digit};

verus! {

/// The environment variables a configuration is read from, in the order given.
#[derive(Debug, Clone)]
pub struct Env {
    vars: Vec<(String, String)>,
}

/// The value of the first variable named `key`, if any.
pub open spec fn env_get(vars: Seq<(Seq<char>, Seq<char>)>, key: Seq<char>) -> Option<Seq<char>>
    decreases vars.len(),
{
    if vars.len() == 0 {
        None
    } else if vars[0].0 == key {
        Some(vars[0].1)
    } else {
        env_get(vars.drop_first(), key)
    }
}

impl View for Env {
    type V = Seq<(Seq<char>, Seq<char>)>;

    closed spec fn view(&self) -> Seq<(Seq<char>, Seq<char>)> {
        self.vars@.map_values(|p: (String, String)| (p.0@, p.1@))
    }
}

impl Env {
    /// An environment holding the given `(name, value)` pairs.
    pub fn from_vars(vars: Vec<(String, String)>) -> (res: Env)
        ensures
            res@ == vars@.map_values(|p: (String, String)| (p.0@, p.1@)),
    {
        Env { vars }
    }

    /// The value of the variable `key`.
    pub fn var(&self, key: &str) -> (res: Option<String>)
        ensures
            match res {
                Some(v) => env_get(self@, key@) == Some(v@),
                None => env_get(self@, key@) is None,
            },
    {
        let wanted = String::from_str(key);
        let n = self.vars.len();
        let mut i: usize = 0;
        assert(self@.skip(0) =~= self@);
        while i < n
            invariant
                n == self.vars@.len(),
                i <= n,
                wanted@ == key@,
                env_get(self@, key@) == env_get(self@.skip(i as int), key@),
            decreases n - i,
        {
            let ghost rest = self@.skip(i as int);
            assert(rest[0] == (self.vars@[i as int].0@, self.vars@[i as int].1@));
            assert(rest.drop_first() =~= self@.skip(i + 1));
            if self.vars[i].0 == wanted {
                return Some(self.vars[i].1.clone());
            }
            i += 1;
        }
        assert(self@.skip(i as int).len() == 0);
        None
    }
}

/// The text after an optional leading `+`.
pub open spec fn unsigned_digits(s: Seq<char>) -> Seq<char> {
    if s.len() > 0 && s[0] == '+' {
        s.drop_first()
    } else {
        s
    }
}

/// What `str::parse::<u64>` accepts: an optional `+`, then at least one
/// decimal digit, denoting a number that fits in a `u64`.
pub open spec fn parse_u64_spec(s: Seq<char>) -> Option<u64> {
    let digits = unsigned_digits(s);
    if digits.len() > 0 && all_digits(digits) && digits_value(digits) <= u64::MAX {
        Some(digits_value(digits) as u64)
    } else {
        None
    }
}

proof fn lemma_digits_value_prefix(s: Seq<char>, i: int)
    requires
        0 <= i < s.len(),
    ensures
        s.take(i + 1).drop_last() =~= s.take(i),
        s.take(i + 1).last() == s[i],
{
}

proof fn lemma_digits_value_monotone(s: Seq<char>, i: int, j: int)
    requires
        0 <= i <= j <= s.len(),
        forall|k: int| 0 <= k < s.len() ==> is_digit(#[trigger] s[k]),
    ensures
        digits_value(s.take(i)) <= digits_value(s.take(j)),
    decreases j - i,
{
    if i < j {
        lemma_digits_value_monotone(s, i, j - 1);
        lemma_digits_value_prefix(s, j - 1);
        assert(is_digit(s[j - 1]));
    }
}

/// `str::parse::<u64>`, succeeding exactly where `parse_u64_spec` says.
pub fn parse_u64(s: &str) -> (res: Option<u64>)
    ensures
        res == parse_u64_spec(s@),
{
    let n = s.unicode_len();
    let mut start: usize = 0;
    if n > 0 && s.get_char(0) == '+' {
        start = 1;
    }
    let ghost digits = unsigned_digits(s@);
    assert(digits =~= s@.skip(start as int));
    if start >= n {
        assert(digits.len() == 0);
        return None;
    }
    let mut i: usize = start;
    while i < n
        invariant
            start <= i <= n,
            n == s@.len(),
            digits =~= s@.skip(start as int),
            digits == unsigned_digits(s@),
            forall|k: int| start <= k < i ==> is_digit(#[trigger] s@[k]),
        decreases n - i,
    {
        let c = s.get_char(i);
        if !('0' <= c && c <= '9') {
            assert(digits[i - start] == c);
            assert(!is_digit(digits[i - start]));
            assert(!all_digits(digits));
            return None;
        }
        i += 1;
    }
    assert forall|k: int| 0 <= k < digits.len() implies is_digit(#[trigger] digits[k]) by {
        assert(digits[k] == s@[k + start]);
    }
    let mut value: u64 = 0;
    let mut j: usize = start;
    assert(digits.take(0) =~= Seq::<char>::empty());
    while j < n
        invariant
            start <= j <= n,
            n == s@.len(),
            digits =~= s@.skip(start as int),
            digits == unsigned_digits(s@),
            forall|k: int| 0 <= k < digits.len() ==> is_digit(#[trigger] digits[k]),
            value == digits_value(digits.take(j - start)),
        decreases n - j,
    {
        let c = s.get_char(j);
        proof {
            lemma_digits_value_prefix(digits, (j - start) as int);
            assert(digits[j - start] == c);
            assert(is_digit(c));
        }
        let d = (c as u32 - '0' as u32) as u64;
        assert(digits_value(digits.take(j - start + 1)) == value * 10 + d);
        let next = match value.checked_mul(10) {
            Some(t) => t.checked_add(d),
            None => None,
        };
        match next {
            Some(v) => {
                value = v;
            },
            None => {
                proof {
                    lemma_digits_value_monotone(digits, j - start + 1, digits.len() as int);
                    assert(digits.take(digits.len() as int) =~= digits);
                }
                return None;
            },
        }
        j += 1;
    }
    assert(digits.take(digits.len() as int) =~= digits);
    Some(value)
}

/// Credentials of the Google OAuth application.
#[derive(Debug, Clone)]
pub struct GoogleConfig {
    pub client_id: String,
    pub client_secret: String,
    pub redirect_url: String,
}

/// Credentials of the GitHub OAuth application.
#[derive(Debug, Clone)]
pub struct GitHubConfig {
    pub client_id: String,
    pub client_secret: String,
    pub redirect_url: String,
}

/// Credentials of the Sign in with Apple service.
#[derive(Debug, Clone)]
pub struct AppleConfig {
    pub client_id: String,
    pub team_id: String,
    pub key_id: String,
    pub private_key: String,
    pub redirect_url: String,
}

/// The whole service configuration.
#[derive(Debug, Clone)]
pub struct Config {
    pub database_url: String,
    pub jwt_secret: String,
    pub jwt_expiration_hours: u64,
    pub google: GoogleConfig,
    pub github: GitHubConfig,
    pub apple: AppleConfig,
}

/// Why an environment does not yield a configuration.
#[derive(Debug, Clone, PartialEq, Eq)]
pub enum ConfigError {
    /// The named variable is not set.
    Missing(String),
    /// The named variable does not hold a number.
    InvalidNumber(String),
}

/// `ConfigError` over character sequences.
pub enum EnvProblem {
    Missing(Seq<char>),
    InvalidNumber(Seq<char>),
}

impl View for ConfigError {
    type V = EnvProblem;

    open spec fn view(&self) -> EnvProblem {
        match self {
            ConfigError::Missing(k) => EnvProblem::Missing(k@),
            ConfigError::InvalidNumber(k) => EnvProblem::InvalidNumber(k@),
        }
    }
}

/// The text with which a failed start-up reports a configuration error.
pub open spec fn env_problem_message(p: EnvProblem) -> Seq<char> {
    match p {
        EnvProblem::Missing(k) => k + " must be set"@,
        EnvProblem::InvalidNumber(k) => k + " must be a valid number"@,
    }
}

impl ConfigError {
    /// The text with which a failed start-up reports this error.
    pub fn message(&self) -> (res: String)
        ensures
            res@ == env_problem_message(self@),
    {
        match self {
            ConfigError::Missing(k) => {
                let mut m = k.clone();
                m.append(" must be set");
                m
            },
            ConfigError::InvalidNumber(k) => {
                let mut m = k.clone();
                m.append(" must be a valid number");
                m
            },
        }
    }
}

/// The problem with one variable: unset, or (for a numeric one) not a `u64`.
pub open spec fn key_problem(vars: Seq<(Seq<char>, Seq<char>)>, key: Seq<char>, numeric: bool) -> Option<EnvProblem> {
    match env_get(vars, key) {
        None => Some(EnvProblem::Missing(key)),
        Some(v) => if numeric && parse_u64_spec(v) is None {
            Some(EnvProblem::InvalidNumber(key))
        } else {
            None
        },
    }
}

/// The first of two problems.
pub open spec fn first_of(a: Option<EnvProblem>, b: Option<EnvProblem>) -> Option<EnvProblem> {
    if a is Some {
        a
    } else {
        b
    }
}

/// The first problem met when the variables are read in the order of the
/// configuration's fields, or `None` when the configuration can be read.
pub open spec fn first_env_problem(vars: Seq<(Seq<char>, Seq<char>)>) -> Option<EnvProblem> {
    first_of(key_problem(vars, "DATABASE_URL"@, false),
    first_of(key_problem(vars, "JWT_SECRET"@, false),
    first_of(key_problem(vars, "JWT_EXPIRATION_HOURS"@, true),
    first_of(key_problem(vars, "GOOGLE_CLIENT_ID"@, false),
    first_of(key_problem(vars, "GOOGLE_CLIENT_SECRET"@, false),
    first_of(key_problem(vars, "GOOGLE_REDIRECT_URL"@, false),
    first_of(key_problem(vars, "GITHUB_CLIENT_ID"@, false),
    first_of(key_problem(vars, "GITHUB_CLIENT_SECRET"@, false),
    first_of(key_problem(vars, "GITHUB_REDIRECT_URL"@, false),
    first_of(key_problem(vars, "APPLE_CLIENT_ID"@, false),
    first_of(key_problem(vars, "APPLE_TEAM_ID"@, false),
    first_of(key_problem(vars, "APPLE_KEY_ID"@, false),
    first_of(key_problem(vars, "APPLE_PRIVATE_KEY"@, false),
    key_problem(vars, "APPLE_REDIRECT_URL"@, false))))))))))))))
}

/// The value of a variable that is known to be set.
pub open spec fn env_value(vars: Seq<(Seq<char>, Seq<char>)>, key: Seq<char>) -> Seq<char> {
    env_get(vars, key)->0
}

/// Each field of the configuration is the variable of the same name; the
/// token lifetime is the number that `JWT_EXPIRATION_HOURS` denotes.
pub open spec fn config_matches_env(c: Config, vars: Seq<(Seq<char>, Seq<char>)>) -> bool {
    &&& c.database_url@ == env_value(vars, "DATABASE_URL"@)
    &&& c.jwt_secret@ == env_value(vars, "JWT_SECRET"@)
    &&& Some(c.jwt_expiration_hours) == parse_u64_spec(env_value(vars, "JWT_EXPIRATION_HOURS"@))
    &&& c.google.client_id@ == env_value(vars, "GOOGLE_CLIENT_ID"@)
    &&& c.google.client_secret@ == env_value(vars, "GOOGLE_CLIENT_SECRET"@)
    &&& c.google.redirect_url@ == env_value(vars, "GOOGLE_REDIRECT_URL"@)
    &&& c.github.client_id@ == env_value(vars, "GITHUB_CLIENT_ID"@)
    &&& c.github.client_secret@ == env_value(vars, "GITHUB_CLIENT_SECRET"@)
    &&& c.github.redirect_url@ == env_value(vars, "GITHUB_REDIRECT_URL"@)
    &&& c.apple.client_id@ == env_value(vars, "APPLE_CLIENT_ID"@)
    &&& c.apple.team_id@ == env_value(vars, "APPLE_TEAM_ID"@)
    &&& c.apple.key_id@ == env_value(vars, "APPLE_KEY_ID"@)
    &&& c.apple.private_key@ == env_value(vars, "APPLE_PRIVATE_KEY"@)
    &&& c.apple.redirect_url@ == env_value(vars, "APPLE_REDIRECT_URL"@)
}

/// The problem with one variable.
fn check_key(env: &Env, key: &str, numeric: bool) -> (res: Option<ConfigError>)
    ensures
        match res {
            Some(e) => key_problem(env@, key@, numeric) == Some(e@),
            None => key_problem(env@, key@, numeric) is None,
        },
{
    match env.var(key) {
        None => Some(ConfigError::Missing(String::from_str(key))),
        Some(v) => if numeric && parse_u64(v.as_str()).is_none() {
            Some(ConfigError::InvalidNumber(String::from_str(key)))
        } else {
            None
        },
    }
}

/// A set variable's value.
fn required(env: &Env, key: &str) -> (res: String)
    requires
        env_get(env@, key@) is Some,
    ensures
        res@ == env_value(env@, key@),
{
    match env.var(key) {
        Some(v) => v,
        None => String::new(),
    }
}

impl Config {
    /// Finds the first variable that keeps `from_env` from reading a
    /// configuration, in the order of the configuration's fields.
    pub fn check_env(env: &Env) -> (res: Result<(), ConfigError>)
        ensures
            match res {
                Ok(()) => first_env_problem(env@) is None,
                Err(e) => first_env_problem(env@) == Some(e@),
            },
    {
        if let Some(e) = check_key(env, "DATABASE_URL", false) { return Err(e); }
        if let Some(e) = check_key(env, "JWT_SECRET", false) { return Err(e); }
        if let Some(e) = check_key(env, "JWT_EXPIRATION_HOURS", true) { return Err(e); }
        if let Some(e) = check_key(env, "GOOGLE_CLIENT_ID", false) { return Err(e); }
        if let Some(e) = check_key(env, "GOOGLE_CLIENT_SECRET", false) { return Err(e); }
        if let Some(e) = check_key(env, "GOOGLE_REDIRECT_URL", false) { return Err(e); }
        if let Some(e) = check_key(env, "GITHUB_CLIENT_ID", false) { return Err(e); }
        if let Some(e) = check_key(env, "GITHUB_CLIENT_SECRET", false) { return Err(e); }
        if let Some(e) = check_key(env, "GITHUB_REDIRECT_URL", false) { return Err(e); }
        if let Some(e) = check_key(env, "APPLE_CLIENT_ID", false) { return Err(e); }
        if let Some(e) = check_key(env, "APPLE_TEAM_ID", false) { return Err(e); }
        if let Some(e) = check_key(env, "APPLE_KEY_ID", false) { return Err(e); }
        if let Some(e) = check_key(env, "APPLE_PRIVATE_KEY", false) { return Err(e); }
        if let Some(e) = check_key(env, "APPLE_REDIRECT_URL", false) { return Err(e); }
        Ok(())
    }

    /// Reads the configuration from the environment. Every variable must be
    /// set and `JWT_EXPIRATION_HOURS` must hold a number; `check_env` tells
    /// which variable fails otherwise.
    pub fn from_env(env: &Env) -> (res: Config)
        requires
            first_env_problem(env@) is None,
        ensures
            config_matches_env(res, env@),
    {
        let hours_text = required(env, "JWT_EXPIRATION_HOURS");
        let jwt_expiration_hours = match parse_u64(hours_text.as_str()) {
            Some(h) => h,
            None => 0,
        };
        Config {
            database_url: required(env, "DATABASE_URL"),
            jwt_secret: required(env, "JWT_SECRET"),
            jwt_expiration_hours,
            google: GoogleConfig {
                client_id: required(env, "GOOGLE_CLIENT_ID"),
                client_secret: required(env, "GOOGLE_CLIENT_SECRET"),
                redirect_url: required(env, "GOOGLE_REDIRECT_URL"),
            },
            github: GitHubConfig {
                client_id: required(env, "GITHUB_CLIENT_ID"),
                client_secret: required(env, "GITHUB_CLIENT_SECRET"),
                redirect_url: required(env, "GITHUB_REDIRECT_URL"),
            },
            apple: AppleConfig {
                client_id: required(env, "APPLE_CLIENT_ID"),
                team_id: required(env, "APPLE_TEAM_ID"),
                key_id: required(env, "APPLE_KEY_ID"),
                private_key: required(env, "APPLE_PRIVATE_KEY"),
                redirect_url: required(env, "APPLE_REDIRECT_URL"),
            },
        }
    }
}

} // verus!
