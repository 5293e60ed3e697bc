use base64::{engine::general_purpose::URL_SAFE_NO_PAD, Engine as _};
use bamep::boot_context::BootContext;
use bamep::credential::{authenticate, default_credential_ttl, AuthOutcome, CredentialHash};
use bamep::endpoint::EndpointId;
use bamep::events::Actor;
use bamep::identity::IdentityState;
use bamep::presented_credential::{CredentialKind, PresentedCredential};
use bamep::time::{TimeDelta, Timestamp};
use bamep::transitions::{
    approve_enrollment, first_contact, genuine_reboot, redeem_known, revoke_credential,
    RedeemOutcome,
};

fn now() -> Timestamp {
    let n = chrono::Utc::now();
    Timestamp::from_unix_parts(n.timestamp(), n.timestamp_subsec_nanos()).unwrap()
}

fn fresh_runtime() -> PresentedCredential {
    PresentedCredential::generate(CredentialKind::Runtime)
}

fn issue_boot_context(
    inventory_signal: &str,
    now: Timestamp,
    ttl: TimeDelta,
) -> (BootContext, PresentedCredential) {
    let credential = PresentedCredential::generate(CredentialKind::Enrollment);
    let verifier = CredentialHash::of_bytes(credential.secret().expose_secret_bytes());
    let context = BootContext::new(
        credential.lookup_id().clone(),
        verifier,
        now,
        now.checked_add(ttl).unwrap(),
        inventory_signal.to_string(),
    );
    (context, credential)
}

#[test]
fn first_contact_creates_pending_enrollment_with_one_event() {
    let (context, e1) = issue_boot_context("mac:AA:BB", now(), TimeDelta::minutes(5));
    let outcome = first_contact(
        &context,
        &e1,
        &fresh_runtime(),
        now(),
        default_credential_ttl(),
    )
    .expect("fresh BootContext resolves cleanly");
    match outcome {
        RedeemOutcome::Established {
            outcome,
            first_contact,
            resolved_boot_context,
            ..
        } => {
            assert!(first_contact);
            assert_eq!(outcome.endpoint.identity, IdentityState::PendingEnrollment);
            assert_eq!(outcome.events.len(), 1);
            assert_eq!(outcome.events[0].event_type(), "EndpointPendingEnrollment");
            assert!(outcome.audit.is_none());
            assert_eq!(
                resolved_boot_context.unwrap().resolved_endpoint_id(),
                Some(outcome.endpoint.id)
            );
        }
        RedeemOutcome::Rejected => panic!("first contact must be established"),
    }
}

#[test]
fn first_contact_rejects_wrong_kind_presented_credential() {
    let (context, e1) = issue_boot_context("mac:AA:BB", now(), TimeDelta::minutes(5));
    let wrong_kind_wire = e1.to_wire_value().replacen(".enrollment.", ".runtime.", 1);
    let wrong_kind = PresentedCredential::parse(&wrong_kind_wire).unwrap();
    let outcome = first_contact(
        &context,
        &wrong_kind,
        &fresh_runtime(),
        now(),
        default_credential_ttl(),
    )
    .unwrap();
    assert!(matches!(outcome, RedeemOutcome::Rejected));
}

#[test]
fn first_contact_rejects_wrong_secret() {
    let (context, e1) = issue_boot_context("mac:AA:BB", now(), TimeDelta::minutes(5));
    let other = PresentedCredential::generate(CredentialKind::Enrollment);
    let wire = format!(
        "v1.enrollment.{}.{}",
        URL_SAFE_NO_PAD.encode(e1.lookup_id().to_bytes()),
        URL_SAFE_NO_PAD.encode(other.secret().expose_secret_bytes())
    );
    let forged = PresentedCredential::parse(&wire).unwrap();
    let outcome = first_contact(
        &context,
        &forged,
        &fresh_runtime(),
        now(),
        default_credential_ttl(),
    )
    .unwrap();
    assert!(matches!(outcome, RedeemOutcome::Rejected));
}

#[test]
fn first_contact_rejects_an_expired_boot_context() {
    let past = now().checked_sub(TimeDelta::minutes(10)).unwrap();
    let (context, e1) = issue_boot_context("mac:AA:BB", past, TimeDelta::minutes(5));
    let outcome = first_contact(
        &context,
        &e1,
        &fresh_runtime(),
        now(),
        default_credential_ttl(),
    )
    .unwrap();
    assert!(matches!(outcome, RedeemOutcome::Rejected));
}

#[test]
fn first_contact_rejects_an_already_resolved_boot_context() {
    let (context, e1) = issue_boot_context("mac:AA:BB", now(), TimeDelta::minutes(5));
    let resolved = context.resolve(EndpointId::new()).unwrap();
    let outcome = first_contact(
        &resolved,
        &e1,
        &fresh_runtime(),
        now(),
        default_credential_ttl(),
    )
    .unwrap();
    assert!(matches!(outcome, RedeemOutcome::Rejected));
}

#[test]
fn redeem_known_rotation_produces_no_events() {
    let (context, e1) = issue_boot_context("mac:AA:BB", now(), TimeDelta::minutes(5));
    let r1 = fresh_runtime();
    let RedeemOutcome::Established { outcome: first, .. } =
        first_contact(&context, &e1, &r1, now(), default_credential_ttl()).unwrap()
    else {
        panic!()
    };

    let outcome = redeem_known(
        &first.endpoint,
        &r1,
        &fresh_runtime(),
        now(),
        default_credential_ttl(),
    );
    match outcome {
        RedeemOutcome::Established {
            outcome,
            successor_confirmed,
            resolved_boot_context,
            ..
        } => {
            assert!(successor_confirmed);
            assert!(
                outcome.events.is_empty(),
                "routine rotation must not emit a domain event"
            );
            assert!(outcome.audit.is_none());
            assert!(resolved_boot_context.is_none());
        }
        RedeemOutcome::Rejected => panic!("R1 must authenticate"),
    }
}

#[test]
fn genuine_reboot_reestablishes_chain_preserving_identity_and_id() {
    let (context1, e1) = issue_boot_context("mac:AA:BB", now(), TimeDelta::minutes(5));
    let RedeemOutcome::Established { outcome: first, .. } = first_contact(
        &context1,
        &e1,
        &fresh_runtime(),
        now(),
        default_credential_ttl(),
    )
    .unwrap() else {
        panic!()
    };
    let original_id = first.endpoint.id;

    let (context2, e2) = issue_boot_context("mac:AA:BB", now(), TimeDelta::minutes(5));
    let r_after_reboot = fresh_runtime();
    let RedeemOutcome::Established {
        outcome: rebooted, ..
    } = genuine_reboot(
        &context2,
        &first.endpoint,
        &e2,
        &r_after_reboot,
        now(),
        default_credential_ttl(),
    )
    .unwrap()
    else {
        panic!("genuine reboot must establish a fresh chain")
    };

    assert_eq!(
        rebooted.endpoint.id, original_id,
        "identity must be preserved across reboot"
    );
    assert_eq!(
        rebooted.endpoint.identity, first.endpoint.identity,
        "identity lifecycle state must not change on genuine reboot"
    );
    assert!(
        rebooted.events.is_empty(),
        "genuine reboot must not emit a domain event"
    );
    assert!(rebooted.audit.is_none());

    assert!(matches!(
        authenticate(
            &rebooted.endpoint.credential,
            &r_after_reboot,
            &fresh_runtime(),
            now(),
            default_credential_ttl()
        ),
        AuthOutcome::Accepted { .. }
    ));
    assert_eq!(
        authenticate(
            &rebooted.endpoint.credential,
            &e1,
            &fresh_runtime(),
            now(),
            default_credential_ttl()
        ),
        AuthOutcome::Rejected
    );
}

#[test]
fn genuine_reboot_rejects_when_current_chain_is_revoked() {
    let (context1, e1) = issue_boot_context("mac:AA:BB", now(), TimeDelta::minutes(5));
    let RedeemOutcome::Established { outcome: first, .. } = first_contact(
        &context1,
        &e1,
        &fresh_runtime(),
        now(),
        default_credential_ttl(),
    )
    .unwrap() else {
        panic!()
    };
    let revoked = revoke_credential(&first.endpoint, now());

    let (context2, e2) = issue_boot_context("mac:AA:BB", now(), TimeDelta::minutes(5));
    let outcome = genuine_reboot(
        &context2,
        &revoked.endpoint,
        &e2,
        &fresh_runtime(),
        now(),
        default_credential_ttl(),
    )
    .unwrap();
    assert!(matches!(outcome, RedeemOutcome::Rejected));
}

#[test]
fn rejected_redemption_yields_no_transition_to_persist() {
    let (context, e1) = issue_boot_context("mac:AA:BB", now(), TimeDelta::minutes(5));
    let RedeemOutcome::Established { outcome: first, .. } = first_contact(
        &context,
        &e1,
        &fresh_runtime(),
        now(),
        default_credential_ttl(),
    )
    .unwrap() else {
        panic!()
    };

    let bogus = PresentedCredential::generate(CredentialKind::Runtime);
    assert!(matches!(
        redeem_known(
            &first.endpoint,
            &bogus,
            &fresh_runtime(),
            now(),
            default_credential_ttl()
        ),
        RedeemOutcome::Rejected
    ));
}

#[test]
fn approve_enrollment_emits_enrolled_and_operator_decision_with_audit() {
    let (context, e1) = issue_boot_context("mac:AA:BB", now(), TimeDelta::minutes(5));
    let RedeemOutcome::Established { outcome: first, .. } = first_contact(
        &context,
        &e1,
        &fresh_runtime(),
        now(),
        default_credential_ttl(),
    )
    .unwrap() else {
        panic!()
    };

    let operator = Actor::Operator {
        label: "wp1-harness".into(),
    };
    let outcome =
        approve_enrollment(&first.endpoint, operator, now()).expect("valid transition");

    assert_eq!(outcome.endpoint.identity, IdentityState::Enrolled);
    assert_eq!(outcome.events.len(), 2);
    assert!(outcome
        .events
        .iter()
        .any(|e| e.event_type() == "EndpointEnrolled"));
    assert!(outcome
        .events
        .iter()
        .any(|e| e.event_type() == "OperatorDecisionRecorded"));
    assert!(outcome.audit.is_some());
}

#[test]
fn approve_enrollment_rejects_already_enrolled() {
    let (context, e1) = issue_boot_context("mac:AA:BB", now(), TimeDelta::minutes(5));
    let RedeemOutcome::Established { outcome: first, .. } = first_contact(
        &context,
        &e1,
        &fresh_runtime(),
        now(),
        default_credential_ttl(),
    )
    .unwrap() else {
        panic!()
    };
    let operator = Actor::Operator {
        label: "wp1-harness".into(),
    };
    let enrolled = approve_enrollment(&first.endpoint, operator.clone(), now()).unwrap();

    assert!(approve_enrollment(&enrolled.endpoint, operator, now()).is_err());
}

#[test]
fn revoke_invalidates_every_credential_in_chain_with_no_new_event() {
    let (context, e1) = issue_boot_context("mac:AA:BB", now(), TimeDelta::minutes(5));
    let r1 = fresh_runtime();
    let RedeemOutcome::Established { outcome: first, .. } =
        first_contact(&context, &e1, &r1, now(), default_credential_ttl()).unwrap()
    else {
        panic!()
    };

    let revoked = revoke_credential(&first.endpoint, now());
    assert!(revoked.events.is_empty());

    assert!(matches!(
        redeem_known(
            &revoked.endpoint,
            &r1,
            &fresh_runtime(),
            now(),
            default_credential_ttl()
        ),
        RedeemOutcome::Rejected
    ));
}

#[test]
fn promoted_predecessor_survives_boot_context_expiry() {
    let short_ttl = TimeDelta::minutes(1);
    let (context, e1) = issue_boot_context("mac:AA:BB", now(), short_ttl);
    let long_credential_ttl = TimeDelta::hours(1);
    let RedeemOutcome::Established { outcome: first, .. } =
        first_contact(&context, &e1, &fresh_runtime(), now(), long_credential_ttl).unwrap()
    else {
        panic!()
    };

    let later = now().checked_add(TimeDelta::minutes(30)).unwrap();
    let retry_successor = fresh_runtime();
    let outcome = redeem_known(
        &first.endpoint,
        &e1,
        &retry_successor,
        later,
        long_credential_ttl,
    );
    assert!(matches!(outcome, RedeemOutcome::Established { .. }));
}

#[test]
fn approval_records_operator_decision_details() {
    let start = Timestamp::from_unix_micros(1_700_000_000_000_000).unwrap();
    let (context, e1) = issue_boot_context("mac:CC:DD", start, TimeDelta::minutes(5));
    let RedeemOutcome::Established { outcome: first, .. } =
        first_contact(&context, &e1, &fresh_runtime(), start, default_credential_ttl()).unwrap()
    else {
        panic!()
    };
    assert_eq!(first.endpoint.inventory_signal, "mac:CC:DD");
    assert_eq!(first.endpoint.created_at, start);
    assert!(first.endpoint.current_boot.is_none());
    let operator = Actor::Operator { label: "op".into() };
    let at = start.checked_add(TimeDelta::seconds(5)).unwrap();
    let outcome = approve_enrollment(&first.endpoint, operator.clone(), at).unwrap();
    assert_eq!(outcome.endpoint.updated_at, at);
    assert_eq!(outcome.endpoint.created_at, start);
    assert_eq!(outcome.events[0].event_type(), "EndpointEnrolled");
    assert_eq!(outcome.events[1].event_type(), "OperatorDecisionRecorded");
    assert_eq!(outcome.events[1].endpoint_id(), first.endpoint.id);
    assert_eq!(outcome.events[1].occurred_at(), at);
    let audit = outcome.audit.unwrap();
    assert_eq!(audit.detail, "EnrollmentApproved");
    assert_eq!(audit.actor, operator);
    assert_eq!(audit.endpoint_id, first.endpoint.id);
}

#[test]
fn genuine_reboot_refuses_a_context_resolved_to_another_endpoint() {
    let (context1, e1) = issue_boot_context("mac:AA:BB", now(), TimeDelta::minutes(5));
    let RedeemOutcome::Established { outcome: first, .. } =
        first_contact(&context1, &e1, &fresh_runtime(), now(), default_credential_ttl()).unwrap()
    else {
        panic!()
    };
    let (context2, e2) = issue_boot_context("mac:AA:BB", now(), TimeDelta::minutes(5));
    let other = EndpointId(0x3333_3333_3333_4333_8333_3333_3333_3333);
    let taken = context2.resolve(other).unwrap();
    let res = genuine_reboot(&taken, &first.endpoint, &e2, &fresh_runtime(), now(), default_credential_ttl());
    assert!(res.is_err());
}

#[test]
fn revoked_endpoint_rejects_even_at_the_end_of_time() {
    let t = now();
    let (context, enrollment) = issue_boot_context("inventory-signal-end", t, TimeDelta::minutes(10));
    let runtime = fresh_runtime();
    let established = match first_contact(&context, &enrollment, &runtime, t, default_credential_ttl()) {
        Ok(RedeemOutcome::Established { outcome, .. }) => outcome.endpoint,
        _ => panic!("first contact must establish"),
    };
    let revoked = revoke_credential(&established, t).endpoint;
    let end = Timestamp::from_unix_nanos(bamep::time::MAX_INSTANT_NANOS).unwrap();
    let huge = TimeDelta::microseconds(i64::MAX);
    assert!(matches!(
        authenticate(&revoked.credential, &runtime, &fresh_runtime(), t, huge),
        AuthOutcome::Rejected
    ));
    assert!(matches!(redeem_known(&revoked, &runtime, &fresh_runtime(), end, huge), RedeemOutcome::Rejected));
    assert!(matches!(
        first_contact(&context, &runtime, &fresh_runtime(), t, huge),
        Ok(RedeemOutcome::Rejected)
    ));
}
