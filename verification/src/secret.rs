//! Comparison of shared secrets that control-plane callers present.

use sha2::Digest;
use subtle::ConstantTimeEq;
use vstd::prelude::*;
use vstd::utf8::encode_utf8;

use crate::text::{blank_text, is_blank};

verus! {

/// The SHA-256 digest of some bytes, as `sha2::Sha256::digest` computes it.
pub uninterp spec fn sha256_of(bytes: Seq<u8>) -> Seq<u8>;

/// Hashes some bytes with `sha2::Sha256::digest`.
///
/// Taken on trust: the digest depends on the bytes alone and has 32 bytes.
#[verifier::external_body]
fn sha256(bytes: &[u8]) -> (digest: Vec<u8>)
    ensures
        digest@ == sha256_of(bytes@),
        digest@.len() == 32,
{
    sha2::Sha256::digest(bytes).to_vec()
}

/// Compares two byte slices with `ConstantTimeEq::ct_eq` of `subtle`.
///
/// Taken on trust: the answer is whether the slices hold the same bytes. That
/// the comparison takes the same time wherever two slices of one length differ
/// is not stated.
#[verifier::external_body]
fn same_in_constant_time(a: &[u8], b: &[u8]) -> (r: bool)
    ensures
        r == (a@ == b@),
{
    bool::from(a.ct_eq(b))
}

/// Whether a presented secret matches the configured one: the configured
/// secret is not blank, and both have one digest.
pub open spec fn secret_matches(configured: Seq<char>, presented: Seq<char>) -> bool {
    &&& !is_blank(configured)
    &&& sha256_of(encode_utf8(configured)) == sha256_of(encode_utf8(presented))
}

/// Decides whether a caller is accepted, from the configured secret and the
/// digests of both.
pub fn accepts_digests(configured: &str, configured_digest: &[u8], presented_digest: &[u8]) -> (r:
    bool)
    ensures
        r == (!is_blank(configured@) && configured_digest@ == presented_digest@),
{
    !blank_text(configured) && same_in_constant_time(configured_digest, presented_digest)
}

/// Reports whether a presented secret matches the configured one.
///
/// Both values are reduced to digests of a fixed width before they are
/// compared, so that neither a partial match nor a secret's length shows in the
/// comparison. A blank configured secret authorizes nobody.
pub fn matches(configured: &str, presented: &str) -> (r: bool)
    ensures
        r == secret_matches(configured@, presented@),
{
    if blank_text(configured) {
        return false;
    }
    let configured_digest = sha256(configured.as_bytes());
    let presented_digest = sha256(presented.as_bytes());
    accepts_digests(configured, configured_digest.as_slice(), presented_digest.as_slice())
}

/// The configured secret itself is accepted, unless it is blank.
pub proof fn law_exact_secret_matches(secret: Seq<char>)
    ensures
        secret_matches(secret, secret) == !is_blank(secret),
{
}

/// A blank configured secret authorizes nobody, whatever is presented.
pub proof fn law_blank_secret_authorizes_nobody(configured: Seq<char>, presented: Seq<char>)
    requires
        is_blank(configured),
    ensures
        !secret_matches(configured, presented),
{
}

/// A secret matches just where it is not blank and what is presented has the same
/// digest, to the last byte.
pub proof fn law_match_needs_the_whole_digest(configured: Seq<char>, presented: Seq<char>)
    ensures
        secret_matches(configured, presented) <==> !is_blank(configured) && sha256_of(
            encode_utf8(configured),
        ) == sha256_of(encode_utf8(presented)),
        !is_blank(configured) && !is_blank(presented) ==> (secret_matches(configured, presented)
            <==> secret_matches(presented, configured)),
{
}

} // verus!
