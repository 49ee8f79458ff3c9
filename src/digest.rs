//! The SHA-1 digest of an artifact, and its comparison with an expected hash.
use sha1::Digest;
use vstd::prelude::*;

use crate::hex::{decode_digest, decode_digest_spec, DIGEST_LEN};

verus! {

/// The SHA-1 digest of `data`.
pub uninterp spec fn sha1_of(data: Seq<u8>) -> Seq<u8>;

/// Relies on `sha1::Sha1::digest` (through `digest::Digest`): the SHA-1
/// digest of the whole input, whose output size is 20 bytes.
#[verifier::external_body]
fn sha1_digest(data: &[u8]) -> (r: Vec<u8>)
    ensures
        r@ == sha1_of(data@),
        r@.len() == DIGEST_LEN,
{
    sha1::Sha1::digest(data).to_vec()
}

/// Why an artifact could not be checked.
#[derive(Debug, Clone, Copy, PartialEq, Eq, Structural)]
pub enum UnverifiableReason {
    /// No expected hash was given.
    NoHashProvided,
    /// The expected hash is not 40 hexadecimal digits.
    InvalidHashFormat,
}

/// The result of checking an artifact against its expected hash.
#[derive(Debug, Clone, Copy, PartialEq, Eq, Structural)]
pub enum VerificationOutcome {
    /// The digest equals the expected hash.
    Verified,
    /// The digest differs from the expected hash.
    Mismatched,
    /// There was nothing valid to compare with.
    Unverifiable(UnverifiableReason),
}

/// The text of an optional string.
pub open spec fn opt_text(s: Option<String>) -> Option<Seq<char>> {
    match s {
        Some(t) => Some(t@),
        None => None,
    }
}

/// The outcome of comparing `digest` with the hash written as `expected`.
pub open spec fn outcome_of(digest: Seq<u8>, expected: Option<Seq<char>>) -> VerificationOutcome {
    match expected {
        None => VerificationOutcome::Unverifiable(UnverifiableReason::NoHashProvided),
        Some(text) => match decode_digest_spec(text) {
            None => VerificationOutcome::Unverifiable(UnverifiableReason::InvalidHashFormat),
            Some(want) => if digest == want {
                VerificationOutcome::Verified
            } else {
                VerificationOutcome::Mismatched
            },
        },
    }
}

/// Whether two byte sequences are equal.
fn bytes_equal(a: &[u8], b: &[u8]) -> (r: bool)
    ensures
        r == (a@ == b@),
{
    if a.len() != b.len() {
        return false;
    }
    let mut i: usize = 0;
    while i < a.len()
        invariant
            i <= a.len(),
            a.len() == b.len(),
            forall|j: int| 0 <= j < i ==> a@[j] == b@[j],
        decreases a.len() - i,
    {
        if a[i] != b[i] {
            return false;
        }
        i = i + 1;
    }
    assert(a@ =~= b@);
    true
}

/// Compares an already computed digest with the expected hash.
pub fn verify_digest(digest: &[u8], expected: &Option<String>) -> (r: VerificationOutcome)
    ensures
        r == outcome_of(digest@, opt_text(*expected)),
{
    match expected {
        None => VerificationOutcome::Unverifiable(UnverifiableReason::NoHashProvided),
        Some(text) => match decode_digest(text.as_str()) {
            None => VerificationOutcome::Unverifiable(UnverifiableReason::InvalidHashFormat),
            Some(want) => if bytes_equal(digest, want.as_slice()) {
                VerificationOutcome::Verified
            } else {
                VerificationOutcome::Mismatched
            },
        },
    }
}

/// Checks the SHA-1 digest of `bytes` against the expected hash.
pub fn verify(bytes: &[u8], expected: &Option<String>) -> (r: VerificationOutcome)
    ensures
        r == outcome_of(sha1_of(bytes@), opt_text(*expected)),
{
    let digest = sha1_digest(bytes);
    verify_digest(digest.as_slice(), expected)
}

} // verus!
