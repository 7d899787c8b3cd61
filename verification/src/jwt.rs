//! JSON Web Tokens, signed and checked by the `jsonwebtoken` crate.
use jsonwebtoken::{Algorithm, DecodingKey, EncodingKey, Header, Validation};
use vstd::prelude::*;

verus! {

/// Whether `text` begins with `prefix`.
pub open spec fn starts_with(text: Seq<char>, prefix: Seq<char>) -> bool {
    prefix.len() <= text.len() && text.subrange(0, prefix.len() as int) == prefix
}

/// The signed part of a token that `jsonwebtoken::encode` makes with an
/// ES256 header naming key `kid` and the claims `iss`, `sub`, `aud`, `iat`,
/// `exp` in that order: the base64url text of the header's JSON, a dot,
/// and the base64url text of the claims' JSON.
pub uninterp spec fn es256_signing_input(
    kid: Seq<char>,
    iss: Seq<char>,
    sub: Seq<char>,
    aud: Seq<char>,
    iat: u64,
    exp: u64,
) -> Seq<char>;

/// What `EncodingKey::from_ec_pem` reports for a PEM text: `None` when it
/// accepts the text as an EC private key, else the text of its error.
pub uninterp spec fn ec_pem_error(pem: Seq<char>) -> Option<Seq<char>>;

/// Whether `ring`'s `EcdsaKeyPair::from_pkcs8` accepts, as a P-256 signing
/// key, the key material that `EncodingKey::from_ec_pem` reads from `pem`.
pub uninterp spec fn es256_key_accepted(pem: Seq<char>) -> bool;

/// Whether `signature` (base64url text) is a valid ES256 signature over
/// `input`, made with the EC private key held in the PEM text `pem`.
pub uninterp spec fn es256_signature_valid(pem: Seq<char>, input: Seq<char>, signature: Seq<char>) -> bool;

/// `jsonwebtoken::encode` with an ES256 header naming key `kid`, the claims
/// `iss`, `sub`, `aud`, `iat`, `exp` as a JSON object in that order, and the
/// key from `EncodingKey::from_ec_pem(pem)`. ECDSA signatures are
/// randomized, so the contract claims what every outcome shares: a token is
/// the signed part, a dot, and a valid ES256 signature of the signed part
/// made with the key in `pem`. The key is read first: a PEM text that
/// `from_ec_pem` refuses gives its error text. Otherwise the call fails
/// only when `ring` refuses the key material (or when the operating
/// system's random source fails, a failure of the machine that nothing here
/// excludes); serializing these claims cannot fail.
#[verifier::external_body]
pub(crate) fn sign_es256(
    kid: &str,
    iss: &str,
    sub: &str,
    aud: &str,
    iat: u64,
    exp: u64,
    pem: &str,
) -> (res: Result<String, String>)
    ensures
        res matches Ok(t) ==> {
            let input = es256_signing_input(kid@, iss@, sub@, aud@, iat, exp);
            &&& starts_with(t@, input.push('.'))
            &&& es256_signature_valid(pem@, input, t@.skip((input.len() + 1) as int))
        },
        res is Ok <==> (ec_pem_error(pem@) is None && es256_key_accepted(pem@)),
        res matches Err(r) ==> (ec_pem_error(pem@) is Some ==> Some(r@) == ec_pem_error(pem@)),
{
    let key = EncodingKey::from_ec_pem(pem.as_bytes()).map_err(|e| e.to_string())?;
    let mut header = Header::new(Algorithm::ES256);
    header.kid = Some(kid.to_string());
    let mut claims = serde_json::Map::new();
    claims.insert("iss".to_string(), iss.into());
    claims.insert("sub".to_string(), sub.into());
    claims.insert("aud".to_string(), aud.into());
    claims.insert("iat".to_string(), iat.into());
    claims.insert("exp".to_string(), exp.into());
    jsonwebtoken::encode(&header, &claims, &key).map_err(|e| e.to_string())
}

/// What `jsonwebtoken::decode_header` reads from a token: the `kid` of its
/// header, if any, or the text of the error.
pub uninterp spec fn jwt_header_kid(token: Seq<char>) -> Result<Option<Seq<char>>, Seq<char>>;

/// `jsonwebtoken::decode_header`, reduced to the key identifier. The
/// contract claims that the outcome depends on the token alone.
#[verifier::external_body]
pub(crate) fn decode_header_kid(token: &str) -> (res: Result<Option<String>, String>)
    ensures
        match res {
            Ok(Some(k)) => jwt_header_kid(token@) == Ok::<Option<Seq<char>>, Seq<char>>(Some(k@)),
            Ok(None) => jwt_header_kid(token@) == Ok::<Option<Seq<char>>, Seq<char>>(None),
            Err(m) => jwt_header_kid(token@) == Err::<Option<Seq<char>>, Seq<char>>(m@),
        },
{
    jsonwebtoken::decode_header(token).map(|h| h.kid).map_err(|e| e.to_string())
}

/// What `jsonwebtoken::decode` of an RS256 token gives when the clock reads
/// `now` (seconds since the Unix epoch): the token's claims as JSON text, or
/// the text of the error. The key is `DecodingKey::from_rsa_components(n, e)`
/// and the validation requires the given audience and issuer.
pub uninterp spec fn rs256_decode_outcome(
    token: Seq<char>,
    n: Seq<char>,
    e: Seq<char>,
    audience: Seq<char>,
    issuer: Seq<char>,
    now: u64,
) -> Result<Seq<char>, Seq<char>>;

/// The character sequences of a result of strings.
pub open spec fn result_view(r: Result<String, String>) -> Result<Seq<char>, Seq<char>> {
    match r {
        Ok(v) => Ok(v@),
        Err(m) => Err(m@),
    }
}

/// `jsonwebtoken::decode` of an RS256 token, with the key from
/// `DecodingKey::from_rsa_components(n, e)` and a validation that requires
/// the given audience and issuer; the claims come back as JSON text, errors
/// as the text of `jsonwebtoken`'s error. The outcome also depends on the
/// clock, which the crate reads once to check the `exp` claim: the contract
/// claims that it is the outcome for some reading of the clock. (The crate
/// panics when the clock reads before the Unix epoch; nothing here excludes
/// that.)
#[verifier::external_body]
pub(crate) fn verify_rs256(token: &str, n: &str, e: &str, audience: &str, issuer: &str) -> (res: Result<String, String>)
    ensures
        exists|now: u64| result_view(res) == #[trigger] rs256_decode_outcome(token@, n@, e@, audience@, issuer@, now),
{
    let key = DecodingKey::from_rsa_components(n, e).map_err(|err| err.to_string())?;
    let mut validation = Validation::new(Algorithm::RS256);
    validation.set_audience(&[audience]);
    validation.set_issuer(&[issuer]);
    jsonwebtoken::decode::<serde_json::Value>(token, &key, &validation)
        .map(|data| data.claims.to_string())
        .map_err(|err| err.to_string())
}

} // verus!
