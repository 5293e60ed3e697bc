use bamep::trusted_bootstrap::assertion::{build_transcript_v1, BootstrapAssertion};
use bamep::trusted_bootstrap::boot_nonce::BootNonce;
use bamep::trusted_bootstrap::fingerprint::ServerCertFingerprint;
use bamep::trusted_bootstrap::site_key::{AcceptedSiteKeys, SiteKeyId, SitePublicKey};
use bamep::trusted_bootstrap::verify::VerificationError;
use ed25519_dalek::{Signer, SigningKey};

fn signer_and_key(seed: [u8; 32]) -> (SigningKey, SitePublicKey) {
    let signing_key = SigningKey::from_bytes(&seed);
    let public_key = SitePublicKey::from_bytes(signing_key.verifying_key().to_bytes())
        .expect("valid Ed25519 public key");
    (signing_key, public_key)
}

fn sign_assertion(
    signing_key: &SigningKey,
    site_key_id: SiteKeyId,
    boot_nonce: [u8; 32],
    fingerprint: [u8; 32],
) -> BootstrapAssertion {
    let transcript = build_transcript_v1(&boot_nonce, &fingerprint, site_key_id.as_bytes());
    let signature = signing_key.sign(&transcript);
    BootstrapAssertion::from_signed_transcript(transcript, signature.to_bytes())
}

#[test]
fn valid_ed25519_assertion_verifies() {
    let (signing_key, public_key) = signer_and_key([1u8; 32]);
    let site_key_id = SiteKeyId::from_public_key(&public_key);
    let assertion = sign_assertion(&signing_key, site_key_id, [2u8; 32], [3u8; 32]);
    let accepted = AcceptedSiteKeys::single(public_key);

    let verified = assertion
        .verify(&accepted)
        .expect("valid assertion verifies");
    assert_eq!(verified.boot_nonce(), BootNonce::from_bytes([2u8; 32]));
    assert_eq!(
        verified.server_fingerprint(),
        ServerCertFingerprint::from_sha256_digest([3u8; 32])
    );
    assert_eq!(verified.site_key_id(), site_key_id);
}

#[test]
fn wrong_accepted_signer_is_rejected() {
    let (signing_key, _signer_public_key) = signer_and_key([1u8; 32]);
    let (_other_signing_key, unrelated_accepted_key) = signer_and_key([9u8; 32]);
    let site_key_id = SiteKeyId::from_public_key(&unrelated_accepted_key);

    let assertion = sign_assertion(&signing_key, site_key_id, [2u8; 32], [3u8; 32]);
    let accepted = AcceptedSiteKeys::single(unrelated_accepted_key);

    assert!(matches!(
        assertion.verify(&accepted),
        Err(VerificationError::SignatureInvalid)
    ));
}

#[test]
fn unknown_site_key_id_is_rejected() {
    let (signing_key, public_key) = signer_and_key([1u8; 32]);
    let site_key_id = SiteKeyId::from_public_key(&public_key);
    let assertion = sign_assertion(&signing_key, site_key_id, [2u8; 32], [3u8; 32]);

    let (_unrelated_signing_key, unrelated_accepted_key) = signer_and_key([9u8; 32]);
    let accepted = AcceptedSiteKeys::single(unrelated_accepted_key);

    assert!(matches!(
        assertion.verify(&accepted),
        Err(VerificationError::UnknownSiteKey)
    ));
}

#[test]
fn corrupted_signature_is_rejected() {
    let (signing_key, public_key) = signer_and_key([1u8; 32]);
    let site_key_id = SiteKeyId::from_public_key(&public_key);
    let assertion = sign_assertion(&signing_key, site_key_id, [2u8; 32], [3u8; 32]);
    let accepted = AcceptedSiteKeys::single(public_key);

    let mut corrupted_signature = assertion.signature_bytes();
    corrupted_signature[0] ^= 0xFF;
    let corrupted = BootstrapAssertion::from_signed_transcript(
        *assertion.transcript_bytes(),
        corrupted_signature,
    );

    assert!(matches!(
        corrupted.verify(&accepted),
        Err(VerificationError::SignatureInvalid)
    ));
}

#[test]
fn verification_selects_the_signing_key_among_several_accepted() {
    let (_a, key_a) = signer_and_key([4u8; 32]);
    let (signing_b, key_b) = signer_and_key([5u8; 32]);
    let assertion = sign_assertion(&signing_b, SiteKeyId::from_public_key(&key_b), [6u8; 32], [7u8; 32]);
    let accepted = AcceptedSiteKeys::new(vec![key_a, key_b]);
    let verified = assertion.verify(&accepted).expect("second accepted key verifies");
    assert_eq!(verified.boot_nonce(), BootNonce::from_bytes([6u8; 32]));
}
