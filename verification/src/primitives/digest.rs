//! SHA-256, as computed by the `sha2` crate and by the `ring` crate.
use ring::digest::{digest, SHA256};
use sha2::{Digest, Sha256};
use vstd::prelude::*;

verus! {

/// What `sha2::Sha256::digest` returns for the given message.
pub uninterp spec fn sha2_sha256(message: Seq<u8>) -> Seq<u8>;

/// What `ring::digest::digest(&SHA256, ..)` returns for the given message.
pub uninterp spec fn ring_sha256(message: Seq<u8>) -> Seq<u8>;

/// Calls `sha2::Sha256::digest`.
///
/// Trusted: the 32-byte result is the named digest of `message`.
#[verifier::external_body]
pub(crate) fn sha256(message: &[u8]) -> (res: [u8; 32])
    ensures
        res@ == sha2_sha256(message@),
{
    Sha256::digest(message).into()
}

/// Calls `ring::digest::digest` with `ring::digest::SHA256`.
///
/// Trusted: the 32-byte result is the named digest of `message`.
#[verifier::external_body]
pub(crate) fn ring_sha256_digest(message: &[u8]) -> (res: [u8; 32])
    ensures
        res@ == ring_sha256(message@),
{
    let mut out = [0u8; 32];
    out.copy_from_slice(digest(&SHA256, message).as_ref());
    out
}

/// Calls `subtle::ConstantTimeEq::ct_eq` on two byte slices.
///
/// Trusted: `true` exactly when both slices have the same length and the
/// same bytes, as `subtle`'s slice implementation documents.
#[verifier::external_body]
pub(crate) fn constant_time_eq(a: &[u8], b: &[u8]) -> (res: bool)
    ensures
        res == (a@ == b@),
{
    subtle::ConstantTimeEq::ct_eq(a, b).into()
}

} // verus!
