//! Ed25519 public-key validation, strict verification and deterministic
//! signing, as implemented by `ed25519-dalek`.
use ed25519_dalek::{Signature, Signer, SigningKey, VerifyingKey};
use vstd::prelude::*;

verus! {

/// The outside error type that `VerifyingKey::from_bytes` returns.
#[verifier::external_type_specification]
#[verifier::external_body]
pub struct ExSignatureError(ed25519_dalek::SignatureError);

/// Whether `VerifyingKey::from_bytes` accepts these 32 bytes (the compressed
/// point decompresses).
pub uninterp spec fn ed25519_key_decompresses(key: Seq<u8>) -> bool;

/// Whether `VerifyingKey::verify_strict` accepts `signature` over `message`
/// under the public key `key`.
pub uninterp spec fn ed25519_verify_strict(key: Seq<u8>, message: Seq<u8>, signature: Seq<u8>) -> bool;

/// The compressed public key that `SigningKey::from_bytes(seed).verifying_key()`
/// yields.
pub uninterp spec fn ed25519_public_key(seed: Seq<u8>) -> Seq<u8>;

/// The signature that `SigningKey::from_bytes(seed).sign(message)` yields.
pub uninterp spec fn ed25519_sign(seed: Seq<u8>, message: Seq<u8>) -> Seq<u8>;

/// Calls `ed25519_dalek::VerifyingKey::from_bytes`, keeping only whether it
/// succeeded.
///
/// Trusted: `Ok` exactly when the bytes are a decompressable point.
#[verifier::external_body]
pub(crate) fn check_public_key(key: &[u8; 32]) -> (res: Result<(), ed25519_dalek::SignatureError>)
    ensures
        res is Ok <==> ed25519_key_decompresses(key@),
{
    VerifyingKey::from_bytes(key).map(|_| ())
}

/// Calls `ed25519_dalek::VerifyingKey::verify_strict` on the key decoded
/// from `key` (a key that does not decode verifies nothing).
///
/// Trusted: the result is the named verification outcome.
#[verifier::external_body]
pub(crate) fn verify_strict(key: &[u8; 32], message: &[u8], signature: &[u8; 64]) -> (res: bool)
    ensures
        res == ed25519_verify_strict(key@, message@, signature@),
{
    match VerifyingKey::from_bytes(key) {
        Ok(vk) => vk.verify_strict(message, &Signature::from_bytes(signature)).is_ok(),
        Err(_) => false,
    }
}

/// Calls `SigningKey::from_bytes(seed).verifying_key().to_bytes()`.
///
/// Trusted: the result is the named public key of `seed`, and it is a
/// decompressable point (it is the compression of `scalar * B`, which
/// `ed25519-dalek` computes from the seed).
#[verifier::external_body]
pub(crate) fn public_key_of_seed(seed: &[u8; 32]) -> (res: [u8; 32])
    ensures
        res@ == ed25519_public_key(seed@),
        ed25519_key_decompresses(res@),
{
    SigningKey::from_bytes(seed).verifying_key().to_bytes()
}

/// Calls `SigningKey::from_bytes(seed).sign(message).to_bytes()`.
///
/// Trusted: the result is the named (deterministic) Ed25519 signature.
#[verifier::external_body]
pub(crate) fn sign_with_seed(seed: &[u8; 32], message: &[u8]) -> (res: [u8; 64])
    ensures
        res@ == ed25519_sign(seed@, message@),
{
    SigningKey::from_bytes(seed).sign(message).to_bytes()
}

} // verus!
