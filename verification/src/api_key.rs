//! API keys: generating a fresh key and hashing one for storage.
//!
//! A key is a fixed prefix followed by 32 random bytes in base64; only
//! the hex form of its SHA-256 digest is ever stored. The digest and
//! the encodings are outside computations; their results are named here
//! and the key functions are specified over those names.

use vstd::prelude::*;
use vstd::string::StringSliceAdditionalSpecFns;

verus! {

/// The SHA-256 digest of a byte string; a function of the bytes alone.
pub uninterp spec fn sha256_of(bytes: Seq<u8>) -> Seq<u8>;

/// The lowercase hex encoding of a byte string; two digits per byte.
pub uninterp spec fn hex_of(bytes: Seq<u8>) -> Seq<char>;

/// The standard-alphabet, padded base64 encoding of a byte string.
pub uninterp spec fn base64_of(bytes: Seq<u8>) -> Seq<char>;

/// Relies on sha2::Sha256::digest: the SHA-256 digest depends on the
/// input bytes alone and is 32 bytes long.
#[verifier::external_body]
fn sha256_digest(bytes: &[u8]) -> (r: Vec<u8>)
    ensures
        r@ == sha256_of(bytes@),
        r@.len() == 32,
{
    <sha2::Sha256 as sha2::Digest>::digest(bytes).to_vec()
}

/// Relies on hex::encode: lowercase hex, two digits for each input
/// byte, depending on the input bytes alone.
#[verifier::external_body]
fn hex_encode(bytes: &[u8]) -> (r: String)
    ensures
        r@ == hex_of(bytes@),
        r@.len() == 2 * bytes@.len(),
{
    hex::encode(bytes)
}

/// Relies on base64's STANDARD engine: padded base64 over the standard
/// alphabet, depending on the input bytes alone.
#[verifier::external_body]
fn base64_encode(bytes: &[u8]) -> (r: String)
    ensures
        r@ == base64_of(bytes@),
{
    base64::Engine::encode(&base64::engine::general_purpose::STANDARD, bytes)
}

/// Relies on rand::random: 32 bytes from the thread-local generator;
/// nothing holds of their values.
#[verifier::external_body]
fn random_bytes() -> (r: Vec<u8>)
    ensures
        r@.len() == 32,
{
    let bytes: [u8; 32] = rand::random();
    bytes.to_vec()
}

/// The stored form of an API key: the lowercase hex encoding of its
/// SHA-256 digest, 64 characters long.
pub fn hash_api_key(api_key: &str) -> (r: String)
    ensures
        r@ == hex_of(sha256_of(api_key.spec_bytes())),
        r@.len() == 64,
{
    let digest = sha256_digest(api_key.as_bytes());
    hex_encode(digest.as_slice())
}

/// A fresh API key: the key prefix followed by 32 random bytes encoded
/// as base64.
pub fn generate_api_key() -> (r: String)
    ensures
        exists|b: Seq<u8>| b.len() == 32 && r@ == "sk_elkar_"@ + #[trigger] base64_of(b),
{
    let bytes = random_bytes();
    let encoded = base64_encode(bytes.as_slice());
    let prefix = "sk_elkar_".to_owned();
    let r = prefix.concat(encoded.as_str());
    proof {
        assert(bytes@.len() == 32 && r@ == "sk_elkar_"@ + base64_of(bytes@));
    }
    r
}

} // verus!
