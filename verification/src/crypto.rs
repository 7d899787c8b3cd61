//! HMAC-SHA256 message authentication, computed by the `hmac` and `sha2` crates.
use hmac::{Hmac, Mac};
use sha2::Sha256;
use vstd::prelude::*;

verus! {

/// The HMAC-SHA256 tag of `msg` under `key`, as `Hmac::<Sha256>` computes it.
pub uninterp spec fn hmac_sha256_tag(key: Seq<u8>, msg: Seq<u8>) -> Seq<u8>;

/// `Hmac::<Sha256>::new_from_slice(key)`, fed `msg`, then `finalize()`.
/// The contract claims that the result is the HMAC-SHA256 tag of `msg`
/// under `key`, 32 bytes long (SHA-256's output size); HMAC accepts keys of
/// every length, so the constructor cannot fail.
#[verifier::external_body]
pub(crate) fn hmac_sha256(key: &[u8], msg: &[u8]) -> (tag: Vec<u8>)
    ensures
        tag@ == hmac_sha256_tag(key@, msg@),
        tag@.len() == 32,
{
    let mac = Hmac::<Sha256>::new_from_slice(key).expect("HMAC can take key of any size");
    mac.chain_update(msg).finalize().into_bytes().to_vec()
}

/// `Mac::verify_slice` on an `Hmac::<Sha256>` keyed with `key` and fed `msg`.
/// The contract claims that it succeeds exactly when `tag` equals the tag that
/// `finalize()` would give (its source compares lengths, then all bytes),
/// and so only for a 32-byte tag.
#[verifier::external_body]
pub(crate) fn hmac_sha256_verify(key: &[u8], msg: &[u8], tag: &[u8]) -> (ok: bool)
    ensures
        ok == (tag@ == hmac_sha256_tag(key@, msg@)),
        ok ==> tag@.len() == 32,
{
    let mut mac = Hmac::<Sha256>::new_from_slice(key).expect("HMAC can take key of any size");
    mac.update(msg);
    mac.verify_slice(tag).is_ok()
}

} // verus!
