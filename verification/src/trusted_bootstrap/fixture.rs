//! Fixture-only Ed25519 assertion signing: the fixture issuer owns the
//! 32-byte signing seed; only its public key is handed to anyone who
//! verifies. Test and fixture support, not a production signing service.
use vstd::prelude::*;

use crate::primitives::ed25519::{ed25519_public_key, ed25519_sign, public_key_of_seed, sign_with_seed};
use crate::primitives::entropy::getrandom_bytes;
use crate::primitives::digest::sha2_sha256;
use crate::trusted_bootstrap::assertion::{build_transcript_v1, transcript_v1, BootstrapAssertion};
use crate::trusted_bootstrap::boot_nonce::BootNonce;
use crate::trusted_bootstrap::fingerprint::ServerCertFingerprint;
use crate::trusted_bootstrap::site_key::{SiteKeyId, SitePublicKey};

verus! {

#[derive(Debug)]
pub enum FixtureSignerError {
    /// Secure randomness for the signing seed could not be obtained.
    Entropy(getrandom::Error),
}

/// Owns the fixture Ed25519 signing seed. Its `Debug` output shows nothing
/// of the key.
pub struct FixtureAssertionSigner {
    seed: [u8; 32],
    site_key_id: SiteKeyId,
}

impl core::fmt::Debug for FixtureAssertionSigner {
    /// Prints `FixtureAssertionSigner { .. }`.
    #[verifier::external_body]
    fn fmt(&self, f: &mut core::fmt::Formatter<'_>) -> core::fmt::Result {
        f.debug_struct("FixtureAssertionSigner").finish_non_exhaustive()
    }
}

impl FixtureAssertionSigner {
    #[verifier::type_invariant]
    spec fn id_of_own_key(self) -> bool {
        self.site_key_id@ == sha2_sha256(ed25519_public_key(self.seed@))
    }

    /// The public key this signer's seed yields.
    pub closed spec fn spec_public_key(&self) -> Seq<u8> {
        ed25519_public_key(self.seed@)
    }

    /// The signature this signer produces over `message`.
    pub closed spec fn spec_signature(&self, message: Seq<u8>) -> Seq<u8> {
        ed25519_sign(self.seed@, message)
    }

    /// A fresh signing seed from the operating system's CSPRNG.
    pub fn generate() -> (res: Result<Self, FixtureSignerError>) {
        match getrandom_bytes::<32>() {
            Ok(seed) => Ok(Self::from_seed(seed)),
            Err(e) => Err(FixtureSignerError::Entropy(e)),
        }
    }

    /// Deterministic construction from a 32-byte seed.
    pub fn from_seed(seed: [u8; 32]) -> (res: Self)
        ensures
            res.spec_public_key() == ed25519_public_key(seed@),
            forall|m: Seq<u8>| #[trigger] res.spec_signature(m) == ed25519_sign(seed@, m),
    {
        let public = public_key_of_seed(&seed);
        let site_key_id = SiteKeyId::from_raw_bytes(crate::primitives::digest::sha256(&public));
        FixtureAssertionSigner { seed, site_key_id }
    }

    /// The public key a verifier may accept.
    pub fn public_key(&self) -> (res: SitePublicKey)
        ensures
            res@ == self.spec_public_key(),
    {
        SitePublicKey::from_decompressable_bytes(public_key_of_seed(&self.seed))
    }

    /// Signs the exact V1 transcript for `boot_nonce` and
    /// `server_fingerprint`; the `SiteKeyId` is always this signer's own.
    pub fn sign_v1(&self, boot_nonce: BootNonce, server_fingerprint: ServerCertFingerprint) -> (res: BootstrapAssertion)
        ensures
            res@.subrange(0, 133) == transcript_v1(
                boot_nonce@,
                server_fingerprint@,
                sha2_sha256(self.spec_public_key()),
            ),
            res@.subrange(133, 197) == self.spec_signature(res@.subrange(0, 133)),
    {
        proof {
            use_type_invariant(self);
        }
        let transcript = build_transcript_v1(
            boot_nonce.as_bytes(),
            server_fingerprint.as_bytes(),
            self.site_key_id.as_bytes(),
        );
        let signature = sign_with_seed(&self.seed, &transcript);
        let res = BootstrapAssertion::from_signed_transcript(transcript, signature);
        assert(res@.subrange(0, 133) =~= transcript@);
        assert(res@.subrange(133, 197) =~= signature@);
        res
    }
}

} // verus!
