//! Strict Ed25519 assertion verification. A [`VerifiedBootstrapAssertion`]
//! is obtainable only through [`BootstrapAssertion::verify`]. Success proves
//! signature, trust-anchor and schema validity only, never that the
//! assertion belongs to the caller's current boot.
use vstd::prelude::*;

use crate::primitives::digest::sha2_sha256;
use crate::primitives::ed25519::{ed25519_verify_strict, verify_strict};
use crate::trusted_bootstrap::assertion::BootstrapAssertion;
use crate::trusted_bootstrap::boot_nonce::BootNonce;
use crate::trusted_bootstrap::fingerprint::ServerCertFingerprint;
use crate::trusted_bootstrap::site_key::{first_key_with_id, AcceptedSiteKeys, SiteKeyId};

verus! {

#[derive(Debug, Clone, Copy, PartialEq, Eq, Structural)]
pub enum VerificationError {
    /// The assertion's `SiteKeyId` selects no already-accepted key.
    UnknownSiteKey,
    /// The selected key's recomputed `SiteKeyId` differs from the claimed one.
    SiteKeyIdMismatch,
    /// Ed25519 signature verification failed.
    SignatureInvalid,
}

/// Verified assertion contents.
#[derive(Clone, Copy, Debug)]
pub struct VerifiedBootstrapAssertion {
    boot_nonce: BootNonce,
    expected_server_fingerprint: ServerCertFingerprint,
    site_key_id: SiteKeyId,
}

/// The fields of a verified assertion.
pub struct VerifiedView {
    pub boot_nonce: Seq<u8>,
    pub server_fingerprint: Seq<u8>,
    pub site_key_id: Seq<u8>,
}

impl View for VerifiedBootstrapAssertion {
    type V = VerifiedView;

    closed spec fn view(&self) -> VerifiedView {
        VerifiedView {
            boot_nonce: self.boot_nonce@,
            server_fingerprint: self.expected_server_fingerprint@,
            site_key_id: self.site_key_id@,
        }
    }
}

impl VerifiedBootstrapAssertion {
    pub fn boot_nonce(&self) -> (res: BootNonce)
        ensures
            res@ == self@.boot_nonce,
    {
        self.boot_nonce
    }

    pub fn server_fingerprint(&self) -> (res: ServerCertFingerprint)
        ensures
            res@ == self@.server_fingerprint,
    {
        self.expected_server_fingerprint
    }

    pub fn site_key_id(&self) -> (res: SiteKeyId)
        ensures
            res@ == self@.site_key_id,
    {
        self.site_key_id
    }
}

/// What verifying the 197 assertion bytes against the accepted keys
/// yields: the claimed `SiteKeyId` must select an accepted key, and the
/// signature must verify strictly under it over the 133-byte transcript.
/// On success, the nonce, fingerprint and `SiteKeyId` fields of the
/// transcript.
pub open spec fn verification_result(assertion: Seq<u8>, accepted: Seq<Seq<u8>>) -> Result<VerifiedView, VerificationError> {
    let claimed = assertion.subrange(101, 133);
    match first_key_with_id(accepted, claimed) {
        None => Err(VerificationError::UnknownSiteKey),
        Some(key) => if !ed25519_verify_strict(
            key,
            assertion.subrange(0, 133),
            assertion.subrange(133, 197),
        ) {
            Err(VerificationError::SignatureInvalid)
        } else {
            Ok(
                VerifiedView {
                    boot_nonce: assertion.subrange(37, 69),
                    server_fingerprint: assertion.subrange(69, 101),
                    site_key_id: claimed,
                },
            )
        },
    }
}

/// A key that `first_key_with_id` selects has exactly that identifier.
pub proof fn lemma_selected_key_has_id(keys: Seq<Seq<u8>>, id: Seq<u8>)
    ensures
        first_key_with_id(keys, id) matches Some(k) ==> sha2_sha256(k) == id,
    decreases keys.len(),
{
    if keys.len() > 0 {
        lemma_selected_key_has_id(keys.drop_first(), id);
    }
}

impl BootstrapAssertion {
    /// Strict V1 verification: the claimed `SiteKeyId` selects a key from
    /// `accepted`; that key's recomputed `SiteKeyId` must match; the exact
    /// transcript must verify under `verify_strict`.
    pub fn verify(&self, accepted: &AcceptedSiteKeys) -> (res: Result<VerifiedBootstrapAssertion, VerificationError>)
        ensures
            match res {
                Ok(v) => verification_result(self@, accepted@) == Ok::<VerifiedView, VerificationError>(v@),
                Err(e) => verification_result(self@, accepted@) == Err::<VerifiedView, VerificationError>(e),
            },
            !(res matches Err(VerificationError::SiteKeyIdMismatch)),
    {
        let claimed_site_key_id = SiteKeyId::from_raw_bytes(self.site_key_id_bytes());
        let accepted_key = match accepted.find(&claimed_site_key_id) {
            Some(k) => k,
            None => {
                return Err(VerificationError::UnknownSiteKey);
            },
        };
        proof {
            lemma_selected_key_has_id(accepted@, claimed_site_key_id@);
        }
        if !SiteKeyId::from_public_key(accepted_key).same_as(&claimed_site_key_id) {
            return Err(VerificationError::SiteKeyIdMismatch);
        }
        let key_bytes = accepted_key.as_bytes();
        let signature = self.signature_bytes();
        if !verify_strict(&key_bytes, self.transcript_bytes(), &signature) {
            return Err(VerificationError::SignatureInvalid);
        }
        Ok(
            VerifiedBootstrapAssertion {
                boot_nonce: BootNonce::from_bytes(self.boot_nonce_bytes()),
                expected_server_fingerprint: ServerCertFingerprint::from_sha256_digest(
                    self.server_fingerprint_bytes(),
                ),
                site_key_id: claimed_site_key_id,
            },
        )
    }
}

/// A key that `first_key_with_id` selects is one of the accepted keys.
pub proof fn lemma_selected_key_is_accepted(keys: Seq<Seq<u8>>, id: Seq<u8>)
    ensures
        first_key_with_id(keys, id) matches Some(k) ==> keys.contains(k),
    decreases keys.len(),
{
    if keys.len() > 0 {
        lemma_selected_key_is_accepted(keys.drop_first(), id);
        if let Some(k) = first_key_with_id(keys.drop_first(), id) {
            if sha2_sha256(keys[0]) != id {
                let j = choose|j: int| 0 <= j < keys.drop_first().len() && keys.drop_first()[j] == k;
                assert(keys[j + 1] == k);
            }
        }
    }
}

/// An assertion's `SiteKeyId` only selects among keys already accepted:
/// verification succeeds only when one of the accepted keys has exactly the
/// claimed identifier and the signature over the transcript verifies
/// strictly under that key.
pub proof fn law_verification_requires_accepted_key(assertion: Seq<u8>, accepted: Seq<Seq<u8>>)
    ensures
        verification_result(assertion, accepted) is Ok ==> exists|key: Seq<u8>|
            #![trigger accepted.contains(key)]
            accepted.contains(key) && sha2_sha256(key) == assertion.subrange(101, 133)
                && ed25519_verify_strict(key, assertion.subrange(0, 133), assertion.subrange(133, 197)),
{
    let claimed = assertion.subrange(101, 133);
    lemma_selected_key_has_id(accepted, claimed);
    lemma_selected_key_is_accepted(accepted, claimed);
    if let Some(key) = first_key_with_id(accepted, claimed) {
        assert(accepted.contains(key));
    }
}

} // verus!
