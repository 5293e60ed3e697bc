//! The durable endpoint transitions, each producing an outcome ready for
//! atomic persistence: first contact, redemption against a known chain,
//! genuine reboot, operator approval and credential revocation.
use vstd::prelude::*;

use crate::boot_context::{resolve_result, BootContext, BootContextResolveError, BootContextView};
use crate::credential::{
    authenticate, authentication_accepts, authentication_result, chain_accepts, established_chain,
    hash_verifies, slot_matches, AuthOutcome, CredentialChain, CredentialChainView,
};
use crate::endpoint::{EndpointAggregate, EndpointId};
use crate::events::{Actor, AuditRecord, DomainEvent, TransitionOutcome};
use crate::identity::{approve, enrolled_name, IdentityState, InvalidIdentityTransition};
use crate::presented_credential::{CredentialKind, PresentedCredential, PresentedCredentialView};
use crate::primitives::entropy::random_uuid_v4;
use crate::time::{add_fits, before, shifted, TimeDelta, Timestamp};

verus! {

/// Result of redeeming a credential in a fresh authentication request.
#[derive(Debug)]
pub enum RedeemOutcome {
    Established {
        outcome: TransitionOutcome,
        /// The fresh runtime credential this redemption installed.
        issued: PresentedCredential,
        issued_expires_at: Timestamp,
        /// True only for the endpoint's very first redemption.
        first_contact: bool,
        successor_confirmed: bool,
        /// The boot context this redemption resolved, when it resolved one.
        resolved_boot_context: Option<BootContext>,
    },
    Rejected,
}

/// The checks both first contact and genuine reboot make: an enrollment
/// credential, for this context's lookup identifier, while the context is
/// still valid, whose secret verifies against the context's verifier.
pub open spec fn boot_credential_valid(context: BootContextView, presented: PresentedCredentialView, now: Timestamp) -> bool {
    &&& presented.kind == CredentialKind::Enrollment
    &&& presented.lookup_id == context.boot_context_id
    &&& before(now, context.expires_at)
    &&& hash_verifies(context.secret_verifier@, presented.secret)
}

pub(crate) fn boot_context_credential_is_valid(context: &BootContext, presented: &PresentedCredential, now: Timestamp) -> (res: bool)
    ensures
        res == boot_credential_valid(context@, presented@, now),
{
    presented.kind() == CredentialKind::Enrollment && presented.lookup_id().same_as(
        context.boot_context_id(),
    ) && context.valid_at(now) && context.verify_secret(presented.secret())
}

/// The endpoint created by a first contact: pending enrollment, carrying the
/// context's inventory signal and a fresh chain whose predecessor is the
/// presented enrollment credential, with no known current boot.
pub open spec fn first_contact_endpoint(
    endpoint: EndpointAggregate,
    context: BootContextView,
    presented: PresentedCredentialView,
    fresh: PresentedCredentialView,
    now: Timestamp,
    ttl: TimeDelta,
) -> bool {
    &&& endpoint.inventory_signal@ == context.inventory_signal
    &&& endpoint.identity == IdentityState::PendingEnrollment
    &&& established_chain(
        endpoint.credential@,
        presented.lookup_id,
        context.secret_verifier,
        fresh,
        now,
        ttl,
    )
    &&& endpoint.current_boot is None
    &&& endpoint.created_at == now
    &&& endpoint.updated_at == now
}

/// Whether [`first_contact`] establishes an endpoint: the context is
/// unresolved, the presented credential passes its checks, and the
/// candidate successor is a `Runtime` credential. Only then is `now + ttl`
/// computed.
pub open spec fn first_contact_accepts(
    context: BootContextView,
    presented: PresentedCredentialView,
    fresh: PresentedCredentialView,
    now: Timestamp,
) -> bool {
    &&& context.resolved_endpoint_id is None
    &&& boot_credential_valid(context, presented, now)
    &&& fresh.kind == CredentialKind::Runtime
}

/// Whether [`genuine_reboot`] establishes a new chain (or meets a context
/// already resolved elsewhere): the presented credential passes the
/// boot-context checks, the candidate's chain is not revoked, and the
/// candidate successor is a `Runtime` credential. Only then is `now + ttl`
/// computed.
pub open spec fn genuine_reboot_accepts(
    context: BootContextView,
    candidate_chain: CredentialChainView,
    presented: PresentedCredentialView,
    fresh: PresentedCredentialView,
    now: Timestamp,
) -> bool {
    &&& boot_credential_valid(context, presented, now)
    &&& !candidate_chain.revoked
    &&& fresh.kind == CredentialKind::Runtime
}

/// What [`first_contact`] promises of its result.
pub open spec fn first_contact_post(
    context: BootContext,
    presented: PresentedCredential,
    fresh_successor: PresentedCredential,
    now: Timestamp,
    ttl: TimeDelta,
    res: Result<RedeemOutcome, BootContextResolveError>,
) -> bool {
    &&& res is Ok
    &&& !(context@.resolved_endpoint_id is None && boot_credential_valid(context@, presented@, now)
        && fresh_successor@.kind == CredentialKind::Runtime) ==> (res matches Ok(RedeemOutcome::Rejected))
    &&& context@.resolved_endpoint_id is None && boot_credential_valid(context@, presented@, now)
        && fresh_successor@.kind == CredentialKind::Runtime ==> (res matches Ok(
        RedeemOutcome::Established {
            outcome,
            issued,
            issued_expires_at,
            first_contact,
            successor_confirmed,
            resolved_boot_context,
        },
    ) && first_contact_endpoint(outcome.endpoint, context@, presented@, fresh_successor@, now, ttl)
        && outcome.events@.len() == 1 && (outcome.events@[0] matches DomainEvent::EndpointPendingEnrollment {
        endpoint_id,
        occurred_at,
        ..
    } && endpoint_id == outcome.endpoint.id && occurred_at == now) && outcome.audit is None
        && issued == fresh_successor && issued_expires_at == shifted(now, ttl) && first_contact
        && !successor_confirmed && (resolved_boot_context matches Some(b) && b@ == (BootContextView {
        resolved_endpoint_id: Some(outcome.endpoint.id),
        ..context@
    })))
}

/// `(no record) -> PendingEnrollment`, atomic with a fresh credential chain.
///
/// Rejected when the context is already resolved, when the presented
/// credential does not verify against it, or when the candidate successor
/// is not a runtime credential. Otherwise established: one
/// `EndpointPendingEnrollment` event, no audit record, and the context
/// resolved to the new endpoint.
pub fn first_contact(
    context: &BootContext,
    presented: &PresentedCredential,
    fresh_successor: &PresentedCredential,
    now: Timestamp,
    ttl: TimeDelta,
) -> (res: Result<RedeemOutcome, BootContextResolveError>)
    requires
        first_contact_accepts(context@, presented@, fresh_successor@, now) ==> add_fits(now, ttl),
    ensures
        first_contact_post(*context, *presented, *fresh_successor, now, ttl, res),
{
    if context.resolved_endpoint_id().is_some() {
        return Ok(RedeemOutcome::Rejected);
    }
    if !boot_context_credential_is_valid(context, presented, now) {
        return Ok(RedeemOutcome::Rejected);
    }
    let chain = match CredentialChain::establish(
        *presented.lookup_id(),
        *context.secret_verifier(),
        fresh_successor,
        now,
        ttl,
    ) {
        Some(chain) => chain,
        None => {
            return Ok(RedeemOutcome::Rejected);
        },
    };
    let id = EndpointId::new();
    let aggregate = EndpointAggregate {
        id,
        inventory_signal: String::from_str(context.inventory_signal()),
        identity: IdentityState::PendingEnrollment,
        credential: chain,
        current_boot: None,
        created_at: now,
        updated_at: now,
    };
    let event = DomainEvent::EndpointPendingEnrollment {
        event_id: random_uuid_v4(),
        endpoint_id: id,
        occurred_at: now,
    };
    let resolved_context = context.resolve(id)?;
    let mut events: Vec<DomainEvent> = Vec::new();
    events.push(event);
    Ok(
        RedeemOutcome::Established {
            outcome: TransitionOutcome { endpoint: aggregate, events, audit: None },
            issued: *fresh_successor,
            issued_expires_at: now.add(ttl),
            first_contact: true,
            successor_confirmed: false,
            resolved_boot_context: Some(resolved_context),
        },
    )
}

/// What [`redeem_known`] promises of its result.
pub open spec fn redeem_known_post(
    aggregate: EndpointAggregate,
    presented: PresentedCredential,
    fresh_successor: PresentedCredential,
    now: Timestamp,
    ttl: TimeDelta,
    res: RedeemOutcome,
) -> bool {
        match res {
            RedeemOutcome::Rejected => authentication_result(
                AuthOutcome::Rejected,
                aggregate.credential@,
                presented@,
                fresh_successor@,
                now,
                ttl,
            ),
            RedeemOutcome::Established {
                outcome,
                issued,
                issued_expires_at,
                first_contact,
                successor_confirmed,
                resolved_boot_context,
            } => {
                &&& authentication_result(
                    AuthOutcome::Accepted {
                        chain: outcome.endpoint.credential,
                        issued_expires_at,
                        successor_confirmed,
                    },
                    aggregate.credential@,
                    presented@,
                    fresh_successor@,
                    now,
                    ttl,
                )
                &&& outcome.endpoint == EndpointAggregate {
                    credential: outcome.endpoint.credential,
                    updated_at: now,
                    ..aggregate
                }
                &&& outcome.events@.len() == 0
                &&& outcome.audit is None
                &&& issued == fresh_successor
                &&& !first_contact
                &&& resolved_boot_context is None
            },
        }
}

/// Redeems a credential against a known endpoint's chain. Routine rotation
/// is bookkeeping, not a domain event: an established outcome carries no
/// events. A rejection is not a transition and carries nothing to persist.
pub fn redeem_known(
    aggregate: &EndpointAggregate,
    presented: &PresentedCredential,
    fresh_successor: &PresentedCredential,
    now: Timestamp,
    ttl: TimeDelta,
) -> (res: RedeemOutcome)
    requires
        authentication_accepts(aggregate.credential@, presented@, fresh_successor@, now) ==> add_fits(
            now,
            ttl,
        ),
    ensures
        redeem_known_post(*aggregate, *presented, *fresh_successor, now, ttl, res),
{
    match authenticate(&aggregate.credential, presented, fresh_successor, now, ttl) {
        AuthOutcome::Accepted { chain, issued_expires_at, successor_confirmed } => {
            let mut endpoint = aggregate.duplicate();
            endpoint.credential = chain;
            endpoint.updated_at = now;
            RedeemOutcome::Established {
                outcome: TransitionOutcome { endpoint, events: Vec::new(), audit: None },
                issued: *fresh_successor,
                issued_expires_at,
                first_contact: false,
                successor_confirmed,
                resolved_boot_context: None,
            }
        },
        AuthOutcome::Rejected => RedeemOutcome::Rejected,
    }
}

/// What [`genuine_reboot`] promises of its result.
pub open spec fn genuine_reboot_post(
    context: BootContext,
    candidate: EndpointAggregate,
    presented: PresentedCredential,
    fresh_successor: PresentedCredential,
    now: Timestamp,
    ttl: TimeDelta,
    res: Result<RedeemOutcome, BootContextResolveError>,
) -> bool {
    &&& !(boot_credential_valid(context@, presented@, now) && !candidate.credential@.revoked
            && fresh_successor@.kind == CredentialKind::Runtime) ==> (res matches Ok(RedeemOutcome::Rejected))
    &&& boot_credential_valid(context@, presented@, now) && !candidate.credential@.revoked
            && fresh_successor@.kind == CredentialKind::Runtime ==> match resolve_result(
            context@,
            candidate.id,
        ) {
            Err(e) => res == Err::<RedeemOutcome, BootContextResolveError>(e),
            Ok(resolved) => res matches Ok(
                RedeemOutcome::Established {
                    outcome,
                    issued,
                    issued_expires_at,
                    first_contact,
                    successor_confirmed,
                    resolved_boot_context,
                },
            ) && outcome.endpoint == (EndpointAggregate {
                credential: outcome.endpoint.credential,
                updated_at: now,
                ..candidate
            }) && established_chain(
                outcome.endpoint.credential@,
                presented@.lookup_id,
                context@.secret_verifier,
                fresh_successor@,
                now,
                ttl,
            ) && outcome.events@.len() == 0 && outcome.audit is None && issued == fresh_successor
                && issued_expires_at == shifted(now, ttl) && !first_contact && !successor_confirmed
                && (resolved_boot_context matches Some(b) && b@ == resolved),
        }
}

/// Genuine reboot of a known endpoint: a fresh, valid boot-scoped
/// enrollment credential establishes a brand-new chain for the endpoint's
/// existing identity, superseding the old chain in full. Identity and
/// lifecycle state are preserved and no event is emitted. A revoked chain
/// is durable endpoint state that a genuine reboot does not clear: the
/// redemption is rejected. An error only when the context is already
/// resolved to a different endpoint.
pub fn genuine_reboot(
    context: &BootContext,
    candidate: &EndpointAggregate,
    presented: &PresentedCredential,
    fresh_successor: &PresentedCredential,
    now: Timestamp,
    ttl: TimeDelta,
) -> (res: Result<RedeemOutcome, BootContextResolveError>)
    requires
        genuine_reboot_accepts(context@, candidate.credential@, presented@, fresh_successor@, now)
            ==> add_fits(now, ttl),
    ensures
        genuine_reboot_post(*context, *candidate, *presented, *fresh_successor, now, ttl, res),
{
    if !boot_context_credential_is_valid(context, presented, now) {
        return Ok(RedeemOutcome::Rejected);
    }
    if candidate.credential.is_revoked() {
        return Ok(RedeemOutcome::Rejected);
    }
    let chain = match CredentialChain::establish(
        *presented.lookup_id(),
        *context.secret_verifier(),
        fresh_successor,
        now,
        ttl,
    ) {
        Some(chain) => chain,
        None => {
            return Ok(RedeemOutcome::Rejected);
        },
    };
    let resolved_context = context.resolve(candidate.id)?;
    let mut endpoint = candidate.duplicate();
    endpoint.credential = chain;
    endpoint.updated_at = now;
    Ok(
        RedeemOutcome::Established {
            outcome: TransitionOutcome { endpoint, events: Vec::new(), audit: None },
            issued: *fresh_successor,
            issued_expires_at: now.add(ttl),
            first_contact: false,
            successor_confirmed: false,
            resolved_boot_context: Some(resolved_context),
        },
    )
}

/// The decision name recorded for an enrollment approval.
pub open spec fn enrollment_approved_name() -> Seq<char> {
    seq![
        'E', 'n', 'r', 'o', 'l', 'l', 'm', 'e', 'n', 't', 'A', 'p', 'p', 'r', 'o', 'v', 'e', 'd',
    ]
}

/// `PendingEnrollment -> Enrolled`, atomic with `EndpointEnrolled` and
/// `OperatorDecisionRecorded`, plus the required immutable audit record.
pub fn approve_enrollment(aggregate: &EndpointAggregate, operator: Actor, now: Timestamp) -> (res: Result<TransitionOutcome, InvalidIdentityTransition>)
    ensures
        aggregate.identity != IdentityState::PendingEnrollment ==> (res matches Err(e) && e.from
            == aggregate.identity && e.attempted@ == enrolled_name()),
        aggregate.identity == IdentityState::PendingEnrollment ==> (res matches Ok(o) && o.endpoint
            == (EndpointAggregate {
            identity: IdentityState::Enrolled,
            updated_at: now,
            ..*aggregate
        }) && o.events@.len() == 2 && (o.events@[0] matches DomainEvent::EndpointEnrolled {
            endpoint_id,
            occurred_at,
            ..
        } && endpoint_id == aggregate.id && occurred_at == now) && (o.events@[1] matches DomainEvent::OperatorDecisionRecorded {
            endpoint_id,
            decision,
            actor,
            occurred_at,
            ..
        } && endpoint_id == aggregate.id && decision@ == enrollment_approved_name() && actor
            == operator && occurred_at == now) && (o.audit matches Some(a) && a.endpoint_id
            == aggregate.id && a.actor == operator && a.occurred_at == now && a.detail@
            == enrollment_approved_name())),
{
    let new_identity = approve(aggregate.identity)?;
    let decision = "EnrollmentApproved";
    proof {
        reveal_strlit("EnrollmentApproved");
        assert(decision@ =~= enrollment_approved_name());
    }
    let enrolled_event = DomainEvent::EndpointEnrolled {
        event_id: random_uuid_v4(),
        endpoint_id: aggregate.id,
        occurred_at: now,
    };
    let decision_event = DomainEvent::OperatorDecisionRecorded {
        event_id: random_uuid_v4(),
        endpoint_id: aggregate.id,
        decision: String::from_str(decision),
        actor: operator.duplicate(),
        occurred_at: now,
    };
    let audit = AuditRecord {
        audit_id: random_uuid_v4(),
        endpoint_id: aggregate.id,
        actor: operator,
        occurred_at: now,
        detail: String::from_str(decision),
    };
    let mut endpoint = aggregate.duplicate();
    endpoint.identity = new_identity;
    endpoint.updated_at = now;
    let mut events: Vec<DomainEvent> = Vec::new();
    events.push(enrolled_event);
    events.push(decision_event);
    Ok(TransitionOutcome { endpoint, events, audit: Some(audit) })
}

/// Explicit revocation: invalidates every credential still valid in the
/// chain. No event or audit record is attributed.
pub fn revoke_credential(aggregate: &EndpointAggregate, now: Timestamp) -> (res: TransitionOutcome)
    ensures
        res.endpoint == (EndpointAggregate {
            credential: res.endpoint.credential,
            updated_at: now,
            ..*aggregate
        }),
        res.endpoint.credential@.revoked,
        res.endpoint.credential@.predecessor == aggregate.credential@.predecessor,
        res.endpoint.credential@.successor == aggregate.credential@.successor,
        res.events@.len() == 0,
        res.audit is None,
{
    let mut endpoint = aggregate.duplicate();
    endpoint.credential = aggregate.credential.revoke();
    endpoint.updated_at = now;
    TransitionOutcome { endpoint, events: Vec::new(), audit: None }
}

/// The enrollment credential that made first contact keeps authenticating,
/// as the new chain's predecessor, until the credential lifetime ends,
/// whatever the boot context's own (shorter) expiry; so does the issued
/// runtime credential.
pub proof fn law_first_contact_credentials_authenticate(
    context: BootContext,
    presented: PresentedCredential,
    fresh_successor: PresentedCredential,
    now: Timestamp,
    ttl: TimeDelta,
    res: Result<RedeemOutcome, BootContextResolveError>,
    later: Timestamp,
)
    requires
        first_contact_post(context, presented, fresh_successor, now, ttl, res),
        context@.resolved_endpoint_id is None,
        boot_credential_valid(context@, presented@, now),
        fresh_successor@.kind == CredentialKind::Runtime,
        before(later, shifted(now, ttl)),
    ensures
        res matches Ok(RedeemOutcome::Established { outcome, .. }) && chain_accepts(
            outcome.endpoint.credential@,
            presented@,
            later,
        ) && chain_accepts(outcome.endpoint.credential@, fresh_successor@, later),
{
}

/// A genuine reboot keeps the endpoint's identifier, lifecycle state and
/// inventory signal, and supersedes the old chain in full: afterwards the
/// chain accepts exactly what matches the new enrollment credential's slot
/// or the freshly issued one.
pub proof fn law_genuine_reboot_supersedes_chain(
    context: BootContext,
    candidate: EndpointAggregate,
    presented: PresentedCredential,
    fresh_successor: PresentedCredential,
    now: Timestamp,
    ttl: TimeDelta,
    res: Result<RedeemOutcome, BootContextResolveError>,
    other: PresentedCredentialView,
    later: Timestamp,
)
    requires
        genuine_reboot_post(context, candidate, presented, fresh_successor, now, ttl, res),
        res matches Ok(RedeemOutcome::Established { .. }),
    ensures
        res matches Ok(RedeemOutcome::Established { outcome, .. }) && outcome.endpoint.id
            == candidate.id && outcome.endpoint.identity == candidate.identity
            && outcome.endpoint.inventory_signal == candidate.inventory_signal && (chain_accepts(
            outcome.endpoint.credential@,
            other,
            later,
        ) <==> (slot_matches(outcome.endpoint.credential@.predecessor, other, later)
            || slot_matches(outcome.endpoint.credential@.successor.unwrap(), other, later)))
            && outcome.endpoint.credential@.predecessor.lookup_id@ == presented@.lookup_id,
{
}

/// Revocation is durable endpoint state: once an endpoint's chain is
/// revoked, neither a credential of the chain nor a fresh, valid enrollment
/// credential of a genuine reboot establishes anything.
pub proof fn law_revoked_endpoint_stays_rejected(
    context: BootContext,
    aggregate: EndpointAggregate,
    presented: PresentedCredential,
    fresh_successor: PresentedCredential,
    now: Timestamp,
    ttl: TimeDelta,
    known: RedeemOutcome,
    reboot: Result<RedeemOutcome, BootContextResolveError>,
)
    requires
        aggregate.credential@.revoked,
        redeem_known_post(aggregate, presented, fresh_successor, now, ttl, known),
        genuine_reboot_post(context, aggregate, presented, fresh_successor, now, ttl, reboot),
    ensures
        known is Rejected,
        reboot matches Ok(RedeemOutcome::Rejected),
{
}


/// The single event of an established first contact announces the
/// endpoint it created, at `now`, and the boot context it returns is the
/// given one resolved to that same endpoint.
pub proof fn law_first_contact_event_names_the_new_endpoint(
    context: BootContext,
    presented: PresentedCredential,
    fresh_successor: PresentedCredential,
    now: Timestamp,
    ttl: TimeDelta,
    res: Result<RedeemOutcome, BootContextResolveError>,
)
    requires
        first_contact_post(context, presented, fresh_successor, now, ttl, res),
    ensures
        res matches Ok(RedeemOutcome::Established { outcome, resolved_boot_context, .. }) ==> {
            &&& outcome.events@.len() == 1
            &&& outcome.events@[0] matches DomainEvent::EndpointPendingEnrollment { endpoint_id, .. }
                && endpoint_id == outcome.endpoint.id
            &&& outcome.endpoint.identity == IdentityState::PendingEnrollment
            &&& resolved_boot_context matches Some(b) && b@.resolved_endpoint_id == Some(
                outcome.endpoint.id,
            ) && b@.boot_context_id == context@.boot_context_id
        },
{
}

/// An established genuine reboot hands back the boot context, resolved to
/// the rebooted endpoint, so that it is persisted as resolved; nothing else
/// of the context changes.
pub proof fn law_genuine_reboot_resolves_its_context(
    context: BootContext,
    candidate: EndpointAggregate,
    presented: PresentedCredential,
    fresh_successor: PresentedCredential,
    now: Timestamp,
    ttl: TimeDelta,
    res: Result<RedeemOutcome, BootContextResolveError>,
)
    requires
        genuine_reboot_post(context, candidate, presented, fresh_successor, now, ttl, res),
    ensures
        res matches Ok(RedeemOutcome::Established { resolved_boot_context, .. }) ==> (
        resolved_boot_context matches Some(b) && b@ == (BootContextView {
            resolved_endpoint_id: Some(candidate.id),
            ..context@
        })),
{
}

} // verus!
