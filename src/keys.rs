use vstd::prelude::*;

use base64::Engine;
use rand::RngCore;
use sha2::Digest;
use vstd::string::StringSliceAdditionalSpecFns;

verus! {

/// The URL-safe base64 alphabet: the 64 characters in the order of the
/// 6-bit values they stand for.
pub open spec fn url_safe_alphabet() -> Seq<char> {
    "ABCDEFGHIJKLMNOPQRSTUVWXYZabcdefghijklmnopqrstuvwxyz0123456789-_"@
}

/// The character of the 6-bit value `v`.
pub open spec fn b64(v: int) -> char {
    url_safe_alphabet()[v]
}

/// The URL-safe base64 text of `b`, without padding: each group of three
/// bytes gives four characters of six bits each, big end first; a last group
/// of one or two bytes gives two or three characters, its missing low bits
/// zero.
pub open spec fn base64_url_of(b: Seq<u8>) -> Seq<char>
    decreases b.len(),
{
    if b.len() == 0 {
        Seq::empty()
    } else if b.len() == 1 {
        seq![b64(b[0] as int / 4), b64((b[0] as int % 4) * 16)]
    } else if b.len() == 2 {
        seq![
            b64(b[0] as int / 4),
            b64((b[0] as int % 4) * 16 + b[1] as int / 16),
            b64((b[1] as int % 16) * 4),
        ]
    } else {
        seq![
            b64(b[0] as int / 4),
            b64((b[0] as int % 4) * 16 + b[1] as int / 16),
            b64((b[1] as int % 16) * 4 + b[2] as int / 64),
            b64(b[2] as int % 64),
        ] + base64_url_of(b.skip(3))
    }
}

/// The SHA-256 digest of `b`.
pub uninterp spec fn sha256_of(b: Seq<u8>) -> Seq<u8>;

/// The length of the unpadded base64 text of `n` bytes: four characters per
/// three bytes, and two or three for a last group of one or two.
pub open spec fn base64_unpadded_len(n: nat) -> nat {
    4 * (n / 3) + if n % 3 == 1 {
        2nat
    } else if n % 3 == 2 {
        3nat
    } else {
        0nat
    }
}

/// The unpadded base64 text of `n` bytes has `base64_unpadded_len(n)` characters.
pub proof fn lemma_base64_len(b: Seq<u8>)
    ensures
        base64_url_of(b).len() == base64_unpadded_len(b.len()),
    decreases b.len(),
{
    if b.len() >= 3 {
        lemma_base64_len(b.skip(3));
    }
}

/// Relies on base64's URL_SAFE_NO_PAD engine: `encode` is standard base64
/// over the URL-safe alphabet, without padding; it panics only where the
/// output length overflows `usize`.
#[verifier::external_body]
fn encode_base64_url(b: &[u8]) -> (r: String)
    requires
        b@.len() <= usize::MAX / 2,
    ensures
        r@ == base64_url_of(b@),
{
    base64::engine::general_purpose::URL_SAFE_NO_PAD.encode(b)
}

/// Relies on sha2::Sha256::digest, whose output is 32 bytes.
#[verifier::external_body]
fn sha256(b: &[u8]) -> (r: Vec<u8>)
    ensures
        r@ == sha256_of(b@),
        r@.len() == 32,
{
    sha2::Sha256::digest(b).to_vec()
}

/// Relies on rand's thread-local generator (`rand::rng`) to fill `n` bytes.
#[verifier::external_body]
fn random_bytes(n: usize) -> (r: Vec<u8>)
    ensures
        r@.len() == n,
{
    let mut bytes = vec![0u8; n];
    rand::rng().fill_bytes(&mut bytes);
    bytes
}

/// A fresh PKCE code verifier: 96 random bytes as unpadded URL-safe base64,
/// which is 128 characters.
pub fn code_verifier() -> (r: String)
    ensures
        r@.len() == 128,
        exists|b: Seq<u8>| b.len() == 96 && r@ == base64_url_of(b),
{
    let bytes = random_bytes(96);
    proof {
        lemma_base64_len(bytes@);
    }
    encode_base64_url(bytes.as_slice())
}

/// The PKCE code challenge of `verifier`: its SHA-256 digest as unpadded
/// URL-safe base64.
pub fn code_challenge(verifier: &str) -> (r: String)
    ensures
        r@ == base64_url_of(sha256_of(verifier.spec_bytes())),
        r@.len() == 43,
{
    let hash = sha256(verifier.as_bytes());
    proof {
        lemma_base64_len(hash@);
    }
    encode_base64_url(hash.as_slice())
}

/// A fresh bearer credential: 32 random bytes as unpadded URL-safe base64,
/// which is 43 characters.
pub fn random_key() -> (r: String)
    ensures
        r@.len() == 43,
        exists|b: Seq<u8>| b.len() == 32 && r@ == base64_url_of(b),
{
    let bytes = random_bytes(32);
    proof {
        lemma_base64_len(bytes@);
    }
    encode_base64_url(bytes.as_slice())
}

} // verus!
