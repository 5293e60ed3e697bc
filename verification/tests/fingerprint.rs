use bamep::trusted_bootstrap::fingerprint::ServerCertFingerprint;

#[test]
fn same_der_bytes_match() {
    let der = b"not a real certificate, just bytes for the digest";
    let fingerprint = ServerCertFingerprint::from_leaf_der(der);
    assert!(fingerprint.matches_leaf_der(der));
}

#[test]
fn different_der_bytes_do_not_match() {
    let a = ServerCertFingerprint::from_leaf_der(b"certificate A");
    assert!(!a.matches_leaf_der(b"certificate B"));
}

#[test]
fn fingerprint_is_the_sha256_of_the_der_bytes() {
    // SHA-256("abc"), from FIPS 180-2.
    let expected: [u8; 32] = [
        0xba, 0x78, 0x16, 0xbf, 0x8f, 0x01, 0xcf, 0xea, 0x41, 0x41, 0x40, 0xde, 0x5d, 0xae, 0x22,
        0x23, 0xb0, 0x03, 0x61, 0xa3, 0x96, 0x17, 0x7a, 0x9c, 0xb4, 0x10, 0xff, 0x61, 0xf2, 0x00,
        0x15, 0xad,
    ];
    let fingerprint = ServerCertFingerprint::from_leaf_der(b"abc");
    assert_eq!(fingerprint.as_bytes(), &expected);
    assert_eq!(fingerprint, ServerCertFingerprint::from_sha256_digest(expected));
}
