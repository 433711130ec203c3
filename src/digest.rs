//! Content hashes of fetched and cached bytes.

use vstd::prelude::*;

use crate::error::{message, DownloadError, ManifestError};
use crate::text::str_eq;

verus! {

/// The lower-case hexadecimal SHA-1 digest of `bytes`.
pub uninterp spec fn sha1_hex_of(bytes: Seq<u8>) -> Seq<char>;

/// A lower-case hexadecimal digit.
pub open spec fn is_lower_hex(c: char) -> bool {
    ('0' <= c && c <= '9') || ('a' <= c && c <= 'f')
}

/// Relies on rust-crypto's `Sha1` with `Digest::input` and `Digest::result_str`:
/// the digest of the input, 160 bits written as 40 lower-case hex digits.
#[verifier::external_body]
fn sha1_hex(bytes: &[u8]) -> (r: String)
    ensures
        r@ == sha1_hex_of(bytes@),
        r@.len() == 40,
        forall|i: int| 0 <= i < r@.len() ==> is_lower_hex(#[trigger] r@[i]),
{
    let mut hasher = crypto::sha1::Sha1::new();
    crypto::digest::Digest::input(&mut hasher, bytes);
    crypto::digest::Digest::result_str(&mut hasher)
}

/// Whether the digest of `bytes` is `valid_hash`.
pub fn validate_hash(bytes: &[u8], valid_hash: &str) -> (r: bool)
    ensures
        r == (sha1_hex_of(bytes@) == valid_hash@),
{
    let digest = sha1_hex(bytes);
    digest_matches(digest.as_str(), valid_hash)
}

/// Whether a computed digest equals the expected one.
pub fn digest_matches(digest: &str, valid_hash: &str) -> (r: bool)
    ensures
        r == (digest@ == valid_hash@),
{
    str_eq(digest, valid_hash)
}

/// The verdict on a batch item whose bytes have digest `digest`: accepted when
/// it equals `valid_hash`, else a hash failure naming `label`.
pub fn item_verdict(digest: &str, valid_hash: &str, label: &str) -> (r: Result<(), DownloadError>)
    ensures
        r is Ok <==> digest@ == valid_hash@,
        r matches Err(e) ==> e matches DownloadError::InvalidFileHashError(m) && m@ == "Error downloading "@
            + label@ + ", invalid hash."@,
{
    if digest_matches(digest, valid_hash) {
        Ok(())
    } else {
        let mut m = message("Error downloading ", label);
        m.append(", invalid hash.");
        Err(DownloadError::InvalidFileHashError(m))
    }
}

/// Checks the fetched bytes of a batch item against its expected hash.
pub fn check_download(bytes: &[u8], valid_hash: &str, label: &str) -> (r: Result<(), DownloadError>)
    ensures
        r is Ok <==> sha1_hex_of(bytes@) == valid_hash@,
        r matches Err(e) ==> e matches DownloadError::InvalidFileHashError(m) && m@ == "Error downloading "@
            + label@ + ", invalid hash."@,
{
    let digest = sha1_hex(bytes);
    item_verdict(digest.as_str(), valid_hash, label)
}

/// The verdict on a primary artifact whose fresh bytes have digest `digest`:
/// accepted when it equals `valid_hash`, else an invalid download naming `label`.
pub fn artifact_verdict(digest: &str, valid_hash: &str, label: &str) -> (r: Result<(), ManifestError>)
    ensures
        r is Ok <==> digest@ == valid_hash@,
        r matches Err(e) ==> e matches ManifestError::InvalidFileDownload(m) && m@ == "Error downloading "@
            + label@ + ", invalid hash."@,
{
    if digest_matches(digest, valid_hash) {
        Ok(())
    } else {
        let mut m = message("Error downloading ", label);
        m.append(", invalid hash.");
        Err(ManifestError::InvalidFileDownload(m))
    }
}

/// Checks freshly fetched bytes of a primary artifact (a manifest body, a game
/// jar, a logging configuration) against its expected hash. Not retried.
pub fn verify_download(bytes: &[u8], valid_hash: &str, label: &str) -> (r: Result<(), ManifestError>)
    ensures
        r is Ok <==> sha1_hex_of(bytes@) == valid_hash@,
        r matches Err(e) ==> e matches ManifestError::InvalidFileDownload(m) && m@ == "Error downloading "@
            + label@ + ", invalid hash."@,
{
    let digest = sha1_hex(bytes);
    artifact_verdict(digest.as_str(), valid_hash, label)
}

/// Whether a cached copy can be used in place of a fetch.
pub open spec fn cache_hit(cached: Option<Seq<u8>>, valid_hash: Seq<char>) -> bool {
    cached matches Some(b) && sha1_hex_of(b) == valid_hash
}

/// Whether a cached copy can be used: it was read, and its digest is the
/// expected one.
pub fn cached_copy_is_valid(cached: Option<&[u8]>, valid_hash: &str) -> (r: bool)
    ensures
        r == cache_hit(
            match cached {
                Some(b) => Some(b@),
                None => None,
            },
            valid_hash@,
        ),
{
    match cached {
        Some(b) => validate_hash(b, valid_hash),
        None => false,
    }
}

/// Bytes that passed the check of a fresh download, once stored, are used
/// from the cache on the next run: the artifact is not fetched again.
pub proof fn lemma_verified_copy_is_reused(bytes: Seq<u8>, valid_hash: Seq<char>)
    requires
        sha1_hex_of(bytes) == valid_hash,
    ensures
        cache_hit(Some(bytes), valid_hash),
{
}

} // verus!
