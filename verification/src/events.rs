//! Domain events, audit records, and the outcome of a transition, ready
//! for atomic persistence.
use vstd::prelude::*;

use crate::endpoint::{EndpointAggregate, EndpointId};
use crate::time::Timestamp;

verus! {

/// Who performed an audited action.
#[derive(Debug, Clone, PartialEq, Eq)]
pub enum Actor {
    Operator { label: String },
}

impl Actor {
    /// A field-for-field copy.
    pub fn duplicate(&self) -> (res: Actor)
        ensures
            res == *self,
    {
        match self {
            Actor::Operator { label } => Actor::Operator { label: label.clone() },
        }
    }
}

#[derive(Debug, Clone, PartialEq, Eq)]
pub enum DomainEvent {
    EndpointPendingEnrollment { event_id: u128, endpoint_id: EndpointId, occurred_at: Timestamp },
    EndpointEnrolled { event_id: u128, endpoint_id: EndpointId, occurred_at: Timestamp },
    OperatorDecisionRecorded {
        event_id: u128,
        endpoint_id: EndpointId,
        decision: String,
        actor: Actor,
        occurred_at: Timestamp,
    },
}

/// The type name each event is persisted under.
pub open spec fn event_type_name(event: DomainEvent) -> Seq<char> {
    match event {
        DomainEvent::EndpointPendingEnrollment { .. } => seq![
            'E', 'n', 'd', 'p', 'o', 'i', 'n', 't', 'P', 'e', 'n', 'd', 'i', 'n', 'g', 'E', 'n',
            'r', 'o', 'l', 'l', 'm', 'e', 'n', 't',
        ],
        DomainEvent::EndpointEnrolled { .. } => seq![
            'E', 'n', 'd', 'p', 'o', 'i', 'n', 't', 'E', 'n', 'r', 'o', 'l', 'l', 'e', 'd',
        ],
        DomainEvent::OperatorDecisionRecorded { .. } => seq![
            'O', 'p', 'e', 'r', 'a', 't', 'o', 'r', 'D', 'e', 'c', 'i', 's', 'i', 'o', 'n', 'R',
            'e', 'c', 'o', 'r', 'd', 'e', 'd',
        ],
    }
}

impl DomainEvent {
    pub fn event_type(&self) -> (res: &'static str)
        ensures
            res@ == event_type_name(*self),
    {
        match self {
            DomainEvent::EndpointPendingEnrollment { .. } => {
                let name = "EndpointPendingEnrollment";
                proof {
                    reveal_strlit("EndpointPendingEnrollment");
                    assert(name@ =~= event_type_name(*self));
                }
                name
            },
            DomainEvent::EndpointEnrolled { .. } => {
                let name = "EndpointEnrolled";
                proof {
                    reveal_strlit("EndpointEnrolled");
                    assert(name@ =~= event_type_name(*self));
                }
                name
            },
            DomainEvent::OperatorDecisionRecorded { .. } => {
                let name = "OperatorDecisionRecorded";
                proof {
                    reveal_strlit("OperatorDecisionRecorded");
                    assert(name@ =~= event_type_name(*self));
                }
                name
            },
        }
    }

    pub fn event_id(&self) -> (res: u128)
        ensures
            res == (match *self {
                DomainEvent::EndpointPendingEnrollment { event_id, .. } => event_id,
                DomainEvent::EndpointEnrolled { event_id, .. } => event_id,
                DomainEvent::OperatorDecisionRecorded { event_id, .. } => event_id,
            }),
    {
        match self {
            DomainEvent::EndpointPendingEnrollment { event_id, .. } => *event_id,
            DomainEvent::EndpointEnrolled { event_id, .. } => *event_id,
            DomainEvent::OperatorDecisionRecorded { event_id, .. } => *event_id,
        }
    }

    pub fn endpoint_id(&self) -> (res: EndpointId)
        ensures
            res == (match *self {
                DomainEvent::EndpointPendingEnrollment { endpoint_id, .. } => endpoint_id,
                DomainEvent::EndpointEnrolled { endpoint_id, .. } => endpoint_id,
                DomainEvent::OperatorDecisionRecorded { endpoint_id, .. } => endpoint_id,
            }),
    {
        match self {
            DomainEvent::EndpointPendingEnrollment { endpoint_id, .. } => *endpoint_id,
            DomainEvent::EndpointEnrolled { endpoint_id, .. } => *endpoint_id,
            DomainEvent::OperatorDecisionRecorded { endpoint_id, .. } => *endpoint_id,
        }
    }

    pub fn occurred_at(&self) -> (res: Timestamp)
        ensures
            res == (match *self {
                DomainEvent::EndpointPendingEnrollment { occurred_at, .. } => occurred_at,
                DomainEvent::EndpointEnrolled { occurred_at, .. } => occurred_at,
                DomainEvent::OperatorDecisionRecorded { occurred_at, .. } => occurred_at,
            }),
    {
        match self {
            DomainEvent::EndpointPendingEnrollment { occurred_at, .. } => *occurred_at,
            DomainEvent::EndpointEnrolled { occurred_at, .. } => *occurred_at,
            DomainEvent::OperatorDecisionRecorded { occurred_at, .. } => *occurred_at,
        }
    }
}

/// The immutable audit record an operator decision requires.
#[derive(Debug, Clone, PartialEq, Eq)]
pub struct AuditRecord {
    pub audit_id: u128,
    pub endpoint_id: EndpointId,
    pub actor: Actor,
    pub occurred_at: Timestamp,
    pub detail: String,
}

/// The endpoint's new state plus the events and audit record to persist
/// with it, in one transaction.
#[derive(Debug, Clone, PartialEq, Eq)]
pub struct TransitionOutcome {
    pub endpoint: EndpointAggregate,
    pub events: Vec<DomainEvent>,
    pub audit: Option<AuditRecord>,
}

} // verus!
