use bamep::boot_context::{BootContext, BootContextResolveError};
use bamep::credential::CredentialHash;
use bamep::endpoint::EndpointId;
use bamep::presented_credential::{CredentialLookupId, PresentedCredentialSecret};
use bamep::time::{TimeDelta, Timestamp};

fn now() -> Timestamp {
    let n = chrono::Utc::now();
    Timestamp::from_unix_parts(n.timestamp(), n.timestamp_subsec_nanos()).unwrap()
}

fn plus(t: Timestamp, d: TimeDelta) -> Timestamp {
    t.checked_add(d).unwrap()
}

fn minus(t: Timestamp, d: TimeDelta) -> Timestamp {
    t.checked_sub(d).unwrap()
}

fn fresh_context(secret: &PresentedCredentialSecret, ttl: TimeDelta) -> BootContext {
    BootContext::new(
        CredentialLookupId::generate(),
        CredentialHash::of_bytes(secret.expose_secret_bytes()),
        now(),
        plus(now(), ttl),
        "inventory-signal-e1".into(),
    )
}

#[test]
fn stores_lookup_id_without_treating_it_as_authentication() {
    let secret = PresentedCredentialSecret::generate();
    let lookup_id = CredentialLookupId::generate();
    let context = BootContext::new(
        lookup_id.clone(),
        CredentialHash::of_bytes(secret.expose_secret_bytes()),
        now(),
        plus(now(), TimeDelta::minutes(5)),
        "inventory-signal-e1".into(),
    );

    assert_eq!(context.boot_context_id(), &lookup_id);
    let wrong = PresentedCredentialSecret::generate();
    assert!(!context.verify_secret(&wrong));
}

#[test]
fn correct_enrollment_secret_verifies() {
    let secret = PresentedCredentialSecret::generate();
    let context = fresh_context(&secret, TimeDelta::minutes(5));
    assert!(context.verify_secret(&secret));
}

#[test]
fn different_secret_does_not_verify() {
    let secret = PresentedCredentialSecret::generate();
    let context = fresh_context(&secret, TimeDelta::minutes(5));
    let other = PresentedCredentialSecret::generate();
    assert!(!context.verify_secret(&other));
}

#[test]
fn verifier_uses_the_one_way_credential_hash_mechanism() {
    let secret = PresentedCredentialSecret::generate();
    let hash = CredentialHash::of_bytes(secret.expose_secret_bytes());
    let context = BootContext::from_parts(
        CredentialLookupId::generate(),
        hash.clone(),
        now(),
        plus(now(), TimeDelta::minutes(5)),
        "inventory-signal-e1".into(),
        None,
    );

    let reconstructed_hash = CredentialHash::from_bytes(hash.to_bytes());
    assert!(reconstructed_hash.verify_bytes(secret.expose_secret_bytes()));
    assert!(context.verify_secret(&secret));
}

#[test]
fn context_valid_before_expires_at() {
    let secret = PresentedCredentialSecret::generate();
    let context = fresh_context(&secret, TimeDelta::minutes(5));
    assert!(context.valid_at(minus(context.expires_at(), TimeDelta::seconds(1))));
}

#[test]
fn context_invalid_at_expires_at() {
    let secret = PresentedCredentialSecret::generate();
    let context = fresh_context(&secret, TimeDelta::minutes(5));
    assert!(!context.valid_at(context.expires_at()));
}

#[test]
fn context_invalid_after_expires_at() {
    let secret = PresentedCredentialSecret::generate();
    let context = fresh_context(&secret, TimeDelta::minutes(5));
    assert!(!context.valid_at(plus(context.expires_at(), TimeDelta::seconds(1))));
}

#[test]
fn unresolved_context_has_no_resolved_endpoint_id() {
    let secret = PresentedCredentialSecret::generate();
    let context = fresh_context(&secret, TimeDelta::minutes(5));
    assert_eq!(context.resolved_endpoint_id(), None);
}

#[test]
fn from_parts_round_trips_a_resolved_endpoint_id() {
    let secret = PresentedCredentialSecret::generate();
    let endpoint_id = EndpointId::new();
    let context = BootContext::from_parts(
        CredentialLookupId::generate(),
        CredentialHash::of_bytes(secret.expose_secret_bytes()),
        now(),
        plus(now(), TimeDelta::minutes(5)),
        "inventory-signal-e1".into(),
        Some(endpoint_id),
    );
    assert_eq!(context.resolved_endpoint_id(), Some(endpoint_id));
}

#[test]
fn resolve_binds_once_and_refuses_a_different_endpoint() {
    let secret = PresentedCredentialSecret::generate();
    let context = fresh_context(&secret, TimeDelta::minutes(5));
    let a = EndpointId(0x1111_1111_1111_4111_8111_1111_1111_1111);
    let b = EndpointId(0x2222_2222_2222_4222_8222_2222_2222_2222);
    let resolved = context.resolve(a).unwrap();
    assert_eq!(resolved.resolved_endpoint_id(), Some(a));
    assert_eq!(resolved.inventory_signal(), "inventory-signal-e1");
    assert_eq!(resolved.boot_context_id(), context.boot_context_id());
    assert_eq!(resolved.resolve(a).unwrap().resolved_endpoint_id(), Some(a));
    assert_eq!(
        resolved.resolve(b),
        Err(BootContextResolveError::AlreadyResolved { existing: a, attempted: b })
    );
}
