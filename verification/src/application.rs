//! The decisions the Server's application layer makes around the endpoint
//! transitions: issuing a boot-scoped enrollment credential, routing a
//! presented credential to what it redeems against, deciding the
//! redemption, and settling the decision into commit or rollback. The
//! persistence and the wall clock stay with the caller.
use vstd::prelude::*;

use crate::boot_context::{BootContext, BootContextResolveError, BootContextView};
use crate::credential::{authentication_accepts, hash_verifies, CredentialHash};
use crate::endpoint::{EndpointAggregate, EndpointId};
use crate::identity::{IdentityState, InvalidIdentityTransition};
use crate::presented_credential::{CredentialKind, PresentedCredential};
use crate::time::{add_fits, before, shifted, utc_now, TimeDelta, Timestamp};
use crate::transitions::{
    boot_context_credential_is_valid, first_contact, first_contact_accepts, first_contact_post,
    genuine_reboot, genuine_reboot_accepts, genuine_reboot_post, redeem_known, redeem_known_post,
    RedeemOutcome,
};

verus! {

#[derive(Debug, Clone, PartialEq, Eq)]
pub enum RepositoryError {
    /// A persistence backend error, by its description.
    Backend(String),
}

#[derive(Debug, Clone, PartialEq, Eq)]
pub enum ApplicationError {
    EndpointNotFound(EndpointId),
    InvalidTransition(InvalidIdentityTransition),
    Repository(RepositoryError),
}

/// Why an in-place endpoint update did not commit.
#[derive(Debug, Clone, PartialEq, Eq)]
pub enum EndpointUpdateError {
    NotFound(EndpointId),
    InvalidTransition(InvalidIdentityTransition),
    Repository(RepositoryError),
}

/// Each update failure as the application error of the same meaning.
pub open spec fn update_error_meaning(err: EndpointUpdateError) -> ApplicationError {
    match err {
        EndpointUpdateError::NotFound(id) => ApplicationError::EndpointNotFound(id),
        EndpointUpdateError::InvalidTransition(e) => ApplicationError::InvalidTransition(e),
        EndpointUpdateError::Repository(e) => ApplicationError::Repository(e),
    }
}

impl From<EndpointUpdateError> for ApplicationError {
    fn from(err: EndpointUpdateError) -> (res: Self) {
        match err {
            EndpointUpdateError::NotFound(id) => ApplicationError::EndpointNotFound(id),
            EndpointUpdateError::InvalidTransition(e) => ApplicationError::InvalidTransition(e),
            EndpointUpdateError::Repository(e) => ApplicationError::Repository(e),
        }
    }
}

impl vstd::std_specs::convert::FromSpecImpl<EndpointUpdateError> for ApplicationError {
    open spec fn obeys_from_spec() -> bool {
        true
    }

    open spec fn from_spec(err: EndpointUpdateError) -> Self {
        update_error_meaning(err)
    }
}

/// Wall-clock abstraction, so that "now" is read at decision time.
pub trait Clock {
    fn now(&self) -> Timestamp;
}

/// Real wall-clock time.
pub struct SystemClock;

impl Clock for SystemClock {
    fn now(&self) -> Timestamp {
        utc_now()
    }
}

/// A freshly issued boot-scoped enrollment credential and the boot context
/// that backs it: a new self-locating enrollment credential, whose lookup
/// identifier is the context's, whose secret verifies against the context's
/// verifier, issued now and expiring after `enrollment_ttl`, unresolved.
/// The caller persists the context before it delivers the credential.
pub fn prepare_enrollment_credential(inventory_signal: &str, now: Timestamp, enrollment_ttl: TimeDelta) -> (res: (PresentedCredential, BootContext))
    requires
        add_fits(now, enrollment_ttl),
    ensures
        res.0@.kind == CredentialKind::Enrollment,
        res.1@.boot_context_id == res.0@.lookup_id,
        hash_verifies(res.1@.secret_verifier@, res.0@.secret),
        res.1@.issued_at == now,
        res.1@.expires_at == shifted(now, enrollment_ttl),
        res.1@.inventory_signal == inventory_signal@,
        res.1@.resolved_endpoint_id is None,
{
    let credential = PresentedCredential::generate(CredentialKind::Enrollment);
    let secret_verifier = CredentialHash::of_bytes(credential.secret().expose_secret_bytes());
    let context = BootContext::new(
        *credential.lookup_id(),
        secret_verifier,
        now,
        now.add(enrollment_ttl),
        String::from_str(inventory_signal),
    );
    (credential, context)
}

/// What a presented credential redeems against, as located under the
/// persistence layer's locks.
pub enum RedemptionTarget {
    /// A persisted endpoint whose chain the credential's lookup identifier
    /// maps to, or to which its boot context already resolved.
    Endpoint(EndpointAggregate),
    /// A runtime credential whose lookup identifier maps to no chain.
    UnknownCredential,
    /// An enrollment credential whose lookup identifier names no boot context.
    UnknownBootContext,
    /// An unresolved boot context, with the endpoint its inventory signal
    /// correlates to, if any.
    UnresolvedBootContext { context: BootContext, candidate_endpoint: Option<EndpointAggregate> },
}

/// What [`decide_redemption`] promises: the transition that the target
/// calls for.
pub open spec fn decision_post(
    target: RedemptionTarget,
    presented: PresentedCredential,
    fresh_successor: PresentedCredential,
    now: Timestamp,
    ttl: TimeDelta,
    res: Result<RedeemOutcome, BootContextResolveError>,
) -> bool {
    match target {
        RedemptionTarget::Endpoint(aggregate) => res matches Ok(outcome) && redeem_known_post(
            aggregate,
            presented,
            fresh_successor,
            now,
            ttl,
            outcome,
        ),
        RedemptionTarget::UnknownCredential => res matches Ok(RedeemOutcome::Rejected),
        RedemptionTarget::UnknownBootContext => res matches Ok(RedeemOutcome::Rejected),
        RedemptionTarget::UnresolvedBootContext { context, candidate_endpoint } => match candidate_endpoint {
            None => first_contact_post(context, presented, fresh_successor, now, ttl, res),
            Some(candidate) => genuine_reboot_post(
                context,
                candidate,
                presented,
                fresh_successor,
                now,
                ttl,
                res,
            ),
        },
    }
}

/// Whether the decision for `target` issues a runtime credential, and so
/// computes its expiry `now + ttl`: the transition that the target calls
/// for accepts.
pub open spec fn decision_accepts(
    target: RedemptionTarget,
    presented: PresentedCredential,
    fresh_successor: PresentedCredential,
    now: Timestamp,
) -> bool {
    match target {
        RedemptionTarget::Endpoint(aggregate) => authentication_accepts(
            aggregate.credential@,
            presented@,
            fresh_successor@,
            now,
        ),
        RedemptionTarget::UnknownCredential => false,
        RedemptionTarget::UnknownBootContext => false,
        RedemptionTarget::UnresolvedBootContext { context, candidate_endpoint } => match candidate_endpoint {
            None => first_contact_accepts(context@, presented@, fresh_successor@, now),
            Some(candidate) => genuine_reboot_accepts(
                context@,
                candidate.credential@,
                presented@,
                fresh_successor@,
                now,
            ),
        },
    }
}

/// Whether deciding the redemption of `presented` against `target` at
/// `now` would issue `fresh_successor`; a caller checks with it that the
/// expiry of the issued credential is representable before deciding.
pub fn decision_issues_credential(
    target: &RedemptionTarget,
    presented: &PresentedCredential,
    fresh_successor: &PresentedCredential,
    now: Timestamp,
) -> (res: bool)
    ensures
        res == decision_accepts(*target, *presented, *fresh_successor, now),
{
    let runtime = fresh_successor.kind() == CredentialKind::Runtime;
    match target {
        RedemptionTarget::Endpoint(aggregate) => runtime && aggregate.credential.accepts(presented, now),
        RedemptionTarget::UnknownCredential => false,
        RedemptionTarget::UnknownBootContext => false,
        RedemptionTarget::UnresolvedBootContext { context, candidate_endpoint } => {
            match candidate_endpoint {
                None => runtime && context.resolved_endpoint_id().is_none()
                    && boot_context_credential_is_valid(context, presented, now),
                Some(candidate) => runtime && !candidate.credential.is_revoked()
                    && boot_context_credential_is_valid(context, presented, now),
            }
        },
    }
}

/// The redemption decision: a known endpoint's chain authenticates the
/// credential; an unresolved boot context is a first contact when no
/// endpoint correlates, a genuine reboot of the correlated endpoint
/// otherwise; an unknown target is rejected.
pub fn decide_redemption(
    target: &RedemptionTarget,
    presented: &PresentedCredential,
    fresh_successor: &PresentedCredential,
    now: Timestamp,
    ttl: TimeDelta,
) -> (res: Result<RedeemOutcome, BootContextResolveError>)
    requires
        decision_accepts(*target, *presented, *fresh_successor, now) ==> add_fits(now, ttl),
    ensures
        decision_post(*target, *presented, *fresh_successor, now, ttl, res),
{
    match target {
        RedemptionTarget::Endpoint(aggregate) => Ok(
            redeem_known(aggregate, presented, fresh_successor, now, ttl),
        ),
        RedemptionTarget::UnknownCredential => Ok(RedeemOutcome::Rejected),
        RedemptionTarget::UnknownBootContext => Ok(RedeemOutcome::Rejected),
        RedemptionTarget::UnresolvedBootContext { context, candidate_endpoint } => {
            match candidate_endpoint {
                None => first_contact(context, presented, fresh_successor, now, ttl),
                Some(candidate) => genuine_reboot(
                    context,
                    candidate,
                    presented,
                    fresh_successor,
                    now,
                    ttl,
                ),
            }
        },
    }
}

impl RedemptionTarget {
    /// Whether the credential located nothing to redeem against.
    pub fn is_unknown(&self) -> (res: bool)
        ensures
            res == (*self is UnknownCredential || *self is UnknownBootContext),
    {
        match self {
            RedemptionTarget::UnknownCredential => true,
            RedemptionTarget::UnknownBootContext => true,
            _ => false,
        }
    }
}

/// First routing step, after reading the lookup identifier's persisted
/// mapping (an unlocked read that never authenticates anything).
#[derive(Debug, Clone, Copy, PartialEq, Eq, Structural)]
pub enum RouteByLookup {
    /// Lock and load the endpoint the mapping names.
    LoadEndpoint(EndpointId),
    /// A runtime credential never falls through to a boot context.
    UnknownCredential,
    /// Lock and load the boot context the lookup identifier names.
    LoadBootContext,
}

pub fn route_by_lookup(mapped_endpoint: Option<EndpointId>, kind: CredentialKind) -> (res: RouteByLookup)
    ensures
        res == (match mapped_endpoint {
            Some(id) => RouteByLookup::LoadEndpoint(id),
            None => if kind == CredentialKind::Runtime {
                RouteByLookup::UnknownCredential
            } else {
                RouteByLookup::LoadBootContext
            },
        }),
{
    match mapped_endpoint {
        Some(id) => RouteByLookup::LoadEndpoint(id),
        None => {
            if kind == CredentialKind::Runtime {
                RouteByLookup::UnknownCredential
            } else {
                RouteByLookup::LoadBootContext
            }
        },
    }
}

/// Second routing step, for an enrollment credential, after locking its
/// boot context.
#[derive(Debug, Clone, Copy, PartialEq, Eq, Structural)]
pub enum RouteByBootContext {
    UnknownBootContext,
    /// Lock and load the endpoint the context already resolved to; the
    /// first-contact resolution is never run again.
    LoadResolvedEndpoint(EndpointId),
    /// Take the correlation lock on the context's inventory signal and load
    /// the candidate endpoint, if any.
    CorrelateUnresolved,
}

pub fn route_by_boot_context(context: Option<&BootContext>) -> (res: RouteByBootContext)
    ensures
        res == (match context {
            None => RouteByBootContext::UnknownBootContext,
            Some(c) => match c@.resolved_endpoint_id {
                Some(id) => RouteByBootContext::LoadResolvedEndpoint(id),
                None => RouteByBootContext::CorrelateUnresolved,
            },
        }),
{
    match context {
        None => RouteByBootContext::UnknownBootContext,
        Some(c) => match c.resolved_endpoint_id() {
            Some(id) => RouteByBootContext::LoadResolvedEndpoint(id),
            None => RouteByBootContext::CorrelateUnresolved,
        },
    }
}

/// How the persistence transaction ends after a redemption decision.
#[derive(Debug, Clone, Copy, PartialEq, Eq)]
pub enum RedemptionSettlement {
    /// Persist state, events, audit, lookup projection and any resolved
    /// boot context, then commit.
    Commit,
    /// Roll back: a rejected request is not a transition.
    RollbackRejected,
    /// Roll back and report an internal contract violation: a decision
    /// accepted a redemption for an unknown target.
    RollbackContractViolation,
    /// Roll back and report the boot-context resolution conflict.
    RollbackResolveConflict(BootContextResolveError),
}

/// How a decision settles: an established outcome commits unless the
/// target was unknown; a rejection or a resolution conflict rolls back.
pub open spec fn settlement_for(target_is_unknown: bool, decision: Result<RedeemOutcome, BootContextResolveError>) -> RedemptionSettlement {
    match decision {
        Ok(RedeemOutcome::Established { .. }) => if target_is_unknown {
            RedemptionSettlement::RollbackContractViolation
        } else {
            RedemptionSettlement::Commit
        },
        Ok(RedeemOutcome::Rejected) => RedemptionSettlement::RollbackRejected,
        Err(e) => RedemptionSettlement::RollbackResolveConflict(e),
    }
}

pub fn settle_redemption(target_is_unknown: bool, decision: &Result<RedeemOutcome, BootContextResolveError>) -> (res: RedemptionSettlement)
    ensures
        res == settlement_for(target_is_unknown, *decision),
{
    match decision {
        Ok(RedeemOutcome::Established { .. }) => {
            if target_is_unknown {
                RedemptionSettlement::RollbackContractViolation
            } else {
                RedemptionSettlement::Commit
            }
        },
        Ok(RedeemOutcome::Rejected) => RedemptionSettlement::RollbackRejected,
        Err(e) => RedemptionSettlement::RollbackResolveConflict(*e),
    }
}

/// A redemption outcome, shaped for the gateway to answer the
/// authentication request with.
#[derive(Debug, Clone, PartialEq, Eq)]
pub enum RedeemResult {
    Established {
        endpoint_id: EndpointId,
        runtime_credential: PresentedCredential,
        credential_expires_at: Timestamp,
    },
    Rejected,
}

pub fn redeem_result(outcome: &RedeemOutcome) -> (res: RedeemResult)
    ensures
        res == (match *outcome {
            RedeemOutcome::Established { outcome, issued, issued_expires_at, .. } => RedeemResult::Established {
                endpoint_id: outcome.endpoint.id,
                runtime_credential: issued,
                credential_expires_at: issued_expires_at,
            },
            RedeemOutcome::Rejected => RedeemResult::Rejected,
        }),
{
    match outcome {
        RedeemOutcome::Established { outcome, issued, issued_expires_at, .. } => RedeemResult::Established {
            endpoint_id: outcome.endpoint.id,
            runtime_credential: *issued,
            credential_expires_at: *issued_expires_at,
        },
        RedeemOutcome::Rejected => RedeemResult::Rejected,
    }
}

/// A redemption decided for a target that located nothing never commits:
/// it is rejected and rolled back, so the contract-violation branch is
/// unreachable for decisions this library makes.
pub proof fn law_unknown_target_never_commits(
    target: RedemptionTarget,
    presented: PresentedCredential,
    fresh_successor: PresentedCredential,
    now: Timestamp,
    ttl: TimeDelta,
    decision: Result<RedeemOutcome, BootContextResolveError>,
)
    requires
        decision_post(target, presented, fresh_successor, now, ttl, decision),
    ensures
        (target is UnknownCredential || target is UnknownBootContext) ==> settlement_for(true, decision)
            == RedemptionSettlement::RollbackRejected,
        settlement_for(target is UnknownCredential || target is UnknownBootContext, decision)
            != RedemptionSettlement::RollbackContractViolation,
{
}

/// A freshly issued enrollment credential redeems against the boot context
/// issued with it, at any instant before the context expires: a first
/// contact with a runtime candidate establishes the endpoint.
pub proof fn law_issued_enrollment_credential_redeems(
    credential: PresentedCredential,
    context: BootContext,
    fresh_successor: PresentedCredential,
    issued_at: Timestamp,
    enrollment_ttl: TimeDelta,
    inventory_signal: Seq<char>,
    later: Timestamp,
    ttl: TimeDelta,
    res: Result<RedeemOutcome, BootContextResolveError>,
)
    requires
        credential@.kind == CredentialKind::Enrollment,
        context@.boot_context_id == credential@.lookup_id,
        hash_verifies(context@.secret_verifier@, credential@.secret),
        context@.expires_at == shifted(issued_at, enrollment_ttl),
        context@.resolved_endpoint_id is None,
        before(later, context@.expires_at),
        fresh_successor@.kind == CredentialKind::Runtime,
        first_contact_post(context, credential, fresh_successor, later, ttl, res),
    ensures
        res matches Ok(RedeemOutcome::Established { first_contact, .. }) && first_contact,
{
}


/// A boot context that correlates to a known endpoint never creates a new
/// one: when the redemption is established, it is that endpoint, with its
/// identifier, lifecycle state and inventory signal, no event is emitted,
/// it is not a first contact, and the context resolves to that endpoint.
/// Only an uncorrelated context is decided as a first contact.
pub proof fn law_correlated_context_reboots_the_known_endpoint(
    target: RedemptionTarget,
    presented: PresentedCredential,
    fresh_successor: PresentedCredential,
    now: Timestamp,
    ttl: TimeDelta,
    res: Result<RedeemOutcome, BootContextResolveError>,
)
    requires
        decision_post(target, presented, fresh_successor, now, ttl, res),
    ensures
        target matches RedemptionTarget::UnresolvedBootContext { candidate_endpoint: Some(candidate), .. }
            ==> (res matches Ok(
            RedeemOutcome::Established { outcome, first_contact, resolved_boot_context, .. },
        ) ==> {
            &&& outcome.endpoint.id == candidate.id
            &&& outcome.endpoint.identity == candidate.identity
            &&& outcome.endpoint.inventory_signal == candidate.inventory_signal
            &&& outcome.events@.len() == 0
            &&& !first_contact
            &&& resolved_boot_context matches Some(b) && b@.resolved_endpoint_id == Some(candidate.id)
        }),
        target matches RedemptionTarget::UnresolvedBootContext { candidate_endpoint: None, .. } ==> (
        res matches Ok(RedeemOutcome::Established { outcome, first_contact, .. }) ==> first_contact
            && outcome.endpoint.identity == IdentityState::PendingEnrollment),
{
}

} // verus!
