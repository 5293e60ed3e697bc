use base64::{engine::general_purpose::URL_SAFE_NO_PAD, Engine as _};
use bamep::credential::{
    authenticate, default_credential_ttl, AuthOutcome, CredentialChain, CredentialDimension,
    CredentialHash,
};
use bamep::presented_credential::{CredentialKind, CredentialLookupId, PresentedCredential};
use bamep::time::{TimeDelta, Timestamp};

fn now() -> Timestamp {
    let n = chrono::Utc::now();
    Timestamp::from_unix_parts(n.timestamp(), n.timestamp_subsec_nanos()).unwrap()
}

fn fresh_runtime() -> PresentedCredential {
    PresentedCredential::generate(CredentialKind::Runtime)
}

fn fresh_enrollment() -> PresentedCredential {
    PresentedCredential::generate(CredentialKind::Enrollment)
}

fn establish_chain(
    e1: &PresentedCredential,
    r1: &PresentedCredential,
    now: Timestamp,
    ttl: TimeDelta,
) -> CredentialChain {
    let verifier = CredentialHash::of_bytes(e1.secret().expose_secret_bytes());
    CredentialChain::establish(e1.lookup_id().clone(), verifier, r1, now, ttl)
        .expect("fresh successor is Runtime")
}

#[test]
fn establish_creates_predecessor_and_installs_fresh_successor() {
    let e1 = fresh_enrollment();
    let r1 = fresh_runtime();
    let chain = establish_chain(&e1, &r1, now(), default_credential_ttl());
    assert_eq!(
        chain.dimension(now()),
        CredentialDimension::CredentialActive
    );
    assert_eq!(chain.predecessor().lookup_id, *e1.lookup_id());
    assert_eq!(chain.successor().unwrap().lookup_id, *r1.lookup_id());
}

#[test]
fn establish_rejects_a_non_runtime_fresh_successor() {
    let e1 = fresh_enrollment();
    let not_runtime = fresh_enrollment();
    let verifier = CredentialHash::of_bytes(e1.secret().expose_secret_bytes());
    assert!(CredentialChain::establish(
        e1.lookup_id().clone(),
        verifier,
        &not_runtime,
        now(),
        default_credential_ttl()
    )
    .is_none());
}

#[test]
fn presenting_predecessor_again_supersedes_unconfirmed_successor() {
    let e1 = fresh_enrollment();
    let r1 = fresh_runtime();
    let chain = establish_chain(&e1, &r1, now(), default_credential_ttl());

    let r1_prime = fresh_runtime();
    let outcome = authenticate(&chain, &e1, &r1_prime, now(), default_credential_ttl());
    match outcome {
        AuthOutcome::Accepted {
            chain: new_chain,
            successor_confirmed,
            ..
        } => {
            assert!(!successor_confirmed);
            assert_ne!(r1.lookup_id(), r1_prime.lookup_id());
            assert_eq!(
                authenticate(
                    &new_chain,
                    &r1,
                    &fresh_runtime(),
                    now(),
                    default_credential_ttl()
                ),
                AuthOutcome::Rejected
            );
            assert!(matches!(
                authenticate(
                    &new_chain,
                    &r1_prime,
                    &fresh_runtime(),
                    now(),
                    default_credential_ttl()
                ),
                AuthOutcome::Accepted {
                    successor_confirmed: true,
                    ..
                }
            ));
        }
        AuthOutcome::Rejected => panic!("predecessor must still authenticate"),
    }
}

#[test]
fn successor_confirmation_retires_predecessor_and_rotates() {
    let e1 = fresh_enrollment();
    let r1 = fresh_runtime();
    let chain = establish_chain(&e1, &r1, now(), default_credential_ttl());

    let r2 = fresh_runtime();
    let outcome = authenticate(&chain, &r1, &r2, now(), default_credential_ttl());
    let new_chain = match outcome {
        AuthOutcome::Accepted {
            chain,
            successor_confirmed,
            ..
        } => {
            assert!(successor_confirmed);
            chain
        }
        AuthOutcome::Rejected => panic!("successor must authenticate"),
    };

    assert_eq!(
        authenticate(
            &new_chain,
            &e1,
            &fresh_runtime(),
            now(),
            default_credential_ttl()
        ),
        AuthOutcome::Rejected
    );
    assert!(matches!(
        authenticate(
            &new_chain,
            &r1,
            &fresh_runtime(),
            now(),
            default_credential_ttl()
        ),
        AuthOutcome::Accepted {
            successor_confirmed: false,
            ..
        }
    ));
    assert!(matches!(
        authenticate(
            &new_chain,
            &r2,
            &fresh_runtime(),
            now(),
            default_credential_ttl()
        ),
        AuthOutcome::Accepted {
            successor_confirmed: true,
            ..
        }
    ));
}

#[test]
fn recovery_by_retrying_still_valid_predecessor_after_superseded_successor() {
    let e1 = fresh_enrollment();
    let r1 = fresh_runtime();
    let chain = establish_chain(&e1, &r1, now(), default_credential_ttl());

    let r1_prime = fresh_runtime();
    let chain2 = match authenticate(&chain, &e1, &r1_prime, now(), default_credential_ttl()) {
        AuthOutcome::Accepted { chain, .. } => chain,
        AuthOutcome::Rejected => panic!(),
    };

    assert_eq!(
        authenticate(
            &chain2,
            &r1,
            &fresh_runtime(),
            now(),
            default_credential_ttl()
        ),
        AuthOutcome::Rejected
    );

    assert!(matches!(
        authenticate(
            &chain2,
            &e1,
            &fresh_runtime(),
            now(),
            default_credential_ttl()
        ),
        AuthOutcome::Accepted { .. }
    ));
}

#[test]
fn expired_predecessor_and_successor_are_rejected() {
    let e1 = fresh_enrollment();
    let r1 = fresh_runtime();
    let past = now().checked_sub(TimeDelta::hours(2)).unwrap();
    let chain = establish_chain(&e1, &r1, past, default_credential_ttl());

    assert_eq!(
        chain.dimension(now()),
        CredentialDimension::CredentialExpired
    );
    assert_eq!(
        authenticate(&chain, &e1, &fresh_runtime(), now(), default_credential_ttl()),
        AuthOutcome::Rejected
    );
    assert_eq!(
        authenticate(&chain, &r1, &fresh_runtime(), now(), default_credential_ttl()),
        AuthOutcome::Rejected
    );
}

#[test]
fn revocation_invalidates_every_credential_in_the_chain() {
    let e1 = fresh_enrollment();
    let r1 = fresh_runtime();
    let chain = establish_chain(&e1, &r1, now(), default_credential_ttl());
    let revoked = chain.revoke();

    assert_eq!(
        revoked.dimension(now()),
        CredentialDimension::CredentialRevoked
    );
    assert_eq!(
        authenticate(
            &revoked,
            &e1,
            &fresh_runtime(),
            now(),
            default_credential_ttl()
        ),
        AuthOutcome::Rejected
    );
    assert_eq!(
        authenticate(
            &revoked,
            &r1,
            &fresh_runtime(),
            now(),
            default_credential_ttl()
        ),
        AuthOutcome::Rejected
    );
}

#[test]
fn unrelated_garbage_credential_is_rejected() {
    let e1 = fresh_enrollment();
    let chain = establish_chain(&e1, &fresh_runtime(), now(), default_credential_ttl());
    let garbage = fresh_runtime();
    assert_eq!(
        authenticate(
            &chain,
            &garbage,
            &fresh_runtime(),
            now(),
            default_credential_ttl()
        ),
        AuthOutcome::Rejected
    );
}

#[test]
fn correct_lookup_id_with_wrong_secret_is_rejected() {
    let e1 = fresh_enrollment();
    let chain = establish_chain(&e1, &fresh_runtime(), now(), default_credential_ttl());

    let wrong_secret = PresentedCredential::generate(CredentialKind::Enrollment);
    let forged = presented_with_lookup_id(&wrong_secret, e1.lookup_id().clone());
    assert_eq!(
        authenticate(
            &chain,
            &forged,
            &fresh_runtime(),
            now(),
            default_credential_ttl()
        ),
        AuthOutcome::Rejected
    );
}

#[test]
fn wrong_lookup_id_with_the_right_secret_bytes_is_rejected() {
    let e1 = fresh_enrollment();
    let chain = establish_chain(&e1, &fresh_runtime(), now(), default_credential_ttl());

    let other_lookup = PresentedCredential::generate(CredentialKind::Enrollment);
    let forged = presented_with_lookup_id(&e1, other_lookup.lookup_id().clone());
    assert_eq!(
        authenticate(
            &chain,
            &forged,
            &fresh_runtime(),
            now(),
            default_credential_ttl()
        ),
        AuthOutcome::Rejected
    );
}

/// Rebuilds a presented credential carrying a different lookup id, through
/// the public wire format.
fn presented_with_lookup_id(
    source: &PresentedCredential,
    lookup_id: CredentialLookupId,
) -> PresentedCredential {
    let wire = source.to_wire_value();
    let parts: Vec<&str> = wire.split('.').collect();
    let lookup_wire = URL_SAFE_NO_PAD.encode(lookup_id.to_bytes());
    let rebuilt = format!("{}.{}.{}.{}", parts[0], parts[1], lookup_wire, parts[3]);
    PresentedCredential::parse(&rebuilt).expect("rebuilt wire value must parse")
}

#[test]
fn concurrent_redemption_last_commit_wins_and_prior_session_not_retroactively_invalidated() {
    let e1 = fresh_enrollment();
    let chain = establish_chain(&e1, &fresh_runtime(), now(), default_credential_ttl());

    let outcome_a = authenticate(&chain, &e1, &fresh_runtime(), now(), default_credential_ttl());
    let outcome_b = authenticate(&chain, &e1, &fresh_runtime(), now(), default_credential_ttl());

    assert!(matches!(outcome_a, AuthOutcome::Accepted { .. }));
    assert!(matches!(outcome_b, AuthOutcome::Accepted { .. }));
}

#[test]
fn hash_verifies_its_own_secret_and_round_trips_through_bytes() {
    let secret = [7u8; 32];
    let hash = CredentialHash::of_bytes(&secret);
    assert!(hash.verify_bytes(&secret));
    assert!(!hash.verify_bytes(&[8u8; 32]));
    let bytes = hash.to_bytes();
    let back = CredentialHash::from_bytes(bytes);
    assert_eq!(back, hash);
    assert_eq!(back.to_bytes(), bytes);
    assert!(back.verify_bytes(&secret));
}

#[test]
fn issued_successor_expires_exactly_one_ttl_after_issuance() {
    let e1 = fresh_enrollment();
    let r1 = fresh_runtime();
    let start = Timestamp::from_unix_micros(1_000_000_000_000).unwrap();
    let ttl = TimeDelta::minutes(10);
    let chain = establish_chain(&e1, &r1, start, ttl);
    let expiry = chain.successor().unwrap().expires_at;
    assert_eq!(expiry, Timestamp::from_unix_micros(1_000_000_000_000 + 600_000_000).unwrap());
    assert_eq!(chain.predecessor().issued_at, start);
    let just_before = expiry.checked_sub(TimeDelta::microseconds(1)).unwrap();
    assert!(matches!(
        authenticate(&chain, &r1, &fresh_runtime(), just_before, ttl),
        AuthOutcome::Accepted { successor_confirmed: true, .. }
    ));
    assert_eq!(
        authenticate(&chain, &r1, &fresh_runtime(), expiry, ttl),
        AuthOutcome::Rejected
    );
    assert_eq!(chain.dimension(expiry), CredentialDimension::CredentialExpired);
}

#[test]
fn enrollment_kind_candidate_is_never_installed() {
    let e1 = fresh_enrollment();
    let chain = establish_chain(&e1, &fresh_runtime(), now(), default_credential_ttl());
    assert_eq!(
        authenticate(&chain, &e1, &fresh_enrollment(), now(), default_credential_ttl()),
        AuthOutcome::Rejected
    );
}
