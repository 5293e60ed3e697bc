use bamep::trusted_bootstrap::boot_nonce::BootNonce;
use bamep::trusted_bootstrap::fingerprint::ServerCertFingerprint;
use bamep::trusted_bootstrap::fixture::FixtureAssertionSigner;
use bamep::trusted_bootstrap::site_key::{AcceptedSiteKeys, SiteKeyId};

#[test]
fn debug_output_does_not_contain_signing_key_bytes() {
    let signer = FixtureAssertionSigner::from_seed([0x42; 32]);
    let debug_output = format!("{signer:?}");
    assert!(!debug_output.contains("0x42"));
    assert_eq!(debug_output, "FixtureAssertionSigner { .. }");
}

#[test]
fn site_key_id_matches_the_signer_public_key() {
    let signer = FixtureAssertionSigner::from_seed([7u8; 32]);
    let assertion = signer.sign_v1(
        BootNonce::from_bytes([1u8; 32]),
        ServerCertFingerprint::from_sha256_digest([2u8; 32]),
    );
    let expected_site_key_id = SiteKeyId::from_public_key(&signer.public_key());
    assert_eq!(
        assertion.site_key_id_bytes(),
        *expected_site_key_id.as_bytes()
    );
}

#[test]
fn fixture_signed_assertion_verifies_and_round_trips() {
    let signer = FixtureAssertionSigner::from_seed([0x10; 32]);
    let assertion = signer.sign_v1(
        BootNonce::from_bytes([0x20; 32]),
        ServerCertFingerprint::from_sha256_digest([0x30; 32]),
    );
    let parsed = bamep::trusted_bootstrap::assertion::BootstrapAssertion::parse_wire_value(
        &assertion.to_wire_value(),
    )
    .unwrap();
    assert_eq!(parsed, assertion);
    let verified = parsed
        .verify(&AcceptedSiteKeys::single(signer.public_key()))
        .unwrap();
    assert_eq!(verified.boot_nonce(), BootNonce::from_bytes([0x20; 32]));
}
