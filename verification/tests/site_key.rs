use bamep::trusted_bootstrap::site_key::{AcceptedSiteKeys, SiteKeyId, SitePublicKey};
use sha2::{Digest, Sha256};

#[test]
fn deterministic_site_key_id_from_exact_raw_public_key() {
    let signing_key = ed25519_dalek::SigningKey::from_bytes(&[3u8; 32]);
    let key = SitePublicKey::from_bytes(signing_key.verifying_key().to_bytes())
        .expect("SigningKey always derives a valid VerifyingKey");
    let id_a = SiteKeyId::from_public_key(&key);
    let id_b = SiteKeyId::from_public_key(&key);
    assert_eq!(id_a, id_b);
}

#[test]
fn different_public_keys_produce_different_ids() {
    let key_a = ed25519_dalek::SigningKey::from_bytes(&[3u8; 32]);
    let key_b = ed25519_dalek::SigningKey::from_bytes(&[4u8; 32]);
    let a = SitePublicKey::from_bytes(key_a.verifying_key().to_bytes()).unwrap();
    let b = SitePublicKey::from_bytes(key_b.verifying_key().to_bytes()).unwrap();
    assert_ne!(
        SiteKeyId::from_public_key(&a),
        SiteKeyId::from_public_key(&b)
    );
}

#[test]
fn accepted_site_keys_finds_by_id() {
    let key = ed25519_dalek::SigningKey::from_bytes(&[5u8; 32]);
    let public = SitePublicKey::from_bytes(key.verifying_key().to_bytes()).unwrap();
    let id = SiteKeyId::from_public_key(&public);
    let accepted = AcceptedSiteKeys::single(public);
    assert!(accepted.find(&id).is_some());
}

#[test]
fn accepted_site_keys_rejects_unknown_id() {
    let key = ed25519_dalek::SigningKey::from_bytes(&[6u8; 32]);
    let public = SitePublicKey::from_bytes(key.verifying_key().to_bytes()).unwrap();
    let accepted = AcceptedSiteKeys::single(public);
    let unrelated_id = SiteKeyId::from_raw_bytes([0xAA; 32]);
    assert!(accepted.find(&unrelated_id).is_none());
}

#[test]
fn site_key_id_is_sha256_of_the_raw_key() {
    let signing_key = ed25519_dalek::SigningKey::from_bytes(&[8u8; 32]);
    let raw = signing_key.verifying_key().to_bytes();
    let key = SitePublicKey::from_bytes(raw).unwrap();
    let expected: [u8; 32] = Sha256::digest(raw).into();
    assert_eq!(SiteKeyId::from_public_key(&key).as_bytes(), &expected);
    assert_eq!(key.as_bytes(), raw);
}

#[test]
fn non_point_bytes_are_not_a_public_key() {
    // y = 2 is not the y-coordinate of any Ed25519 curve point.
    let mut bytes = [0u8; 32];
    bytes[0] = 2;
    assert!(SitePublicKey::from_bytes(bytes).is_err());
}

#[test]
fn find_selects_the_matching_key_among_several() {
    let keys: Vec<SitePublicKey> = [[1u8; 32], [2u8; 32], [3u8; 32]]
        .iter()
        .map(|seed| {
            let sk = ed25519_dalek::SigningKey::from_bytes(seed);
            SitePublicKey::from_bytes(sk.verifying_key().to_bytes()).unwrap()
        })
        .collect();
    let second = keys[1];
    let accepted = AcceptedSiteKeys::new(keys);
    let found = accepted.find(&SiteKeyId::from_public_key(&second)).unwrap();
    assert_eq!(*found, second);
}
