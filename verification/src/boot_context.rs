//! `BootContext`: durable state backing an unresolved boot-scoped
//! enrollment credential. Before its first redemption, the credential's
//! lookup identifier resolves through this record; once redemption
//! succeeds, the record names the endpoint it resolved to.
use vstd::prelude::*;

use crate::credential::{hash_verifies, CredentialHash};
use crate::endpoint::EndpointId;
use crate::presented_credential::{CredentialLookupId, PresentedCredentialSecret};
use crate::time::{before, Timestamp};

verus! {

/// Durable state for one boot-scoped enrollment credential.
/// `inventory_signal` is correlation evidence only, never authentication.
#[derive(Debug, Clone, PartialEq, Eq)]
pub struct BootContext {
    boot_context_id: CredentialLookupId,
    secret_verifier: CredentialHash,
    issued_at: Timestamp,
    expires_at: Timestamp,
    inventory_signal: String,
    resolved_endpoint_id: Option<EndpointId>,
}

/// The parts of a [`BootContext`].
pub struct BootContextView {
    pub boot_context_id: Seq<u8>,
    pub secret_verifier: CredentialHash,
    pub issued_at: Timestamp,
    pub expires_at: Timestamp,
    pub inventory_signal: Seq<char>,
    pub resolved_endpoint_id: Option<EndpointId>,
}

impl View for BootContext {
    type V = BootContextView;

    closed spec fn view(&self) -> BootContextView {
        BootContextView {
            boot_context_id: self.boot_context_id@,
            secret_verifier: self.secret_verifier,
            issued_at: self.issued_at,
            expires_at: self.expires_at,
            inventory_signal: self.inventory_signal@,
            resolved_endpoint_id: self.resolved_endpoint_id,
        }
    }
}

/// `resolve` was asked to bind a context that a different endpoint already
/// resolved.
#[derive(Debug, Clone, Copy, PartialEq, Eq)]
pub enum BootContextResolveError {
    AlreadyResolved { existing: EndpointId, attempted: EndpointId },
}

/// What resolving a context to `endpoint_id` yields: the same context bound
/// to the endpoint, unless a different endpoint already holds it.
pub open spec fn resolve_result(context: BootContextView, endpoint_id: EndpointId) -> Result<BootContextView, BootContextResolveError> {
    match context.resolved_endpoint_id {
        Some(existing) if existing != endpoint_id => Err(
            BootContextResolveError::AlreadyResolved { existing, attempted: endpoint_id },
        ),
        _ => Ok(BootContextView { resolved_endpoint_id: Some(endpoint_id), ..context }),
    }
}

impl BootContext {
    /// A fresh, unresolved context at issuance time; the caller derives the
    /// verifier beforehand and this constructor never sees the secret.
    pub fn new(
        boot_context_id: CredentialLookupId,
        secret_verifier: CredentialHash,
        issued_at: Timestamp,
        expires_at: Timestamp,
        inventory_signal: String,
    ) -> (res: Self)
        ensures
            res@ == (BootContextView {
                boot_context_id: boot_context_id@,
                secret_verifier,
                issued_at,
                expires_at,
                inventory_signal: inventory_signal@,
                resolved_endpoint_id: None,
            }),
    {
        BootContext {
            boot_context_id,
            secret_verifier,
            issued_at,
            expires_at,
            inventory_signal,
            resolved_endpoint_id: None,
        }
    }

    /// Reconstructs a context from its durable parts.
    pub fn from_parts(
        boot_context_id: CredentialLookupId,
        secret_verifier: CredentialHash,
        issued_at: Timestamp,
        expires_at: Timestamp,
        inventory_signal: String,
        resolved_endpoint_id: Option<EndpointId>,
    ) -> (res: Self)
        ensures
            res@ == (BootContextView {
                boot_context_id: boot_context_id@,
                secret_verifier,
                issued_at,
                expires_at,
                inventory_signal: inventory_signal@,
                resolved_endpoint_id,
            }),
    {
        BootContext {
            boot_context_id,
            secret_verifier,
            issued_at,
            expires_at,
            inventory_signal,
            resolved_endpoint_id,
        }
    }

    pub fn boot_context_id(&self) -> (res: &CredentialLookupId)
        ensures
            res@ == self@.boot_context_id,
    {
        &self.boot_context_id
    }

    pub fn secret_verifier(&self) -> (res: &CredentialHash)
        ensures
            *res == self@.secret_verifier,
    {
        &self.secret_verifier
    }

    pub fn issued_at(&self) -> (res: Timestamp)
        ensures
            res == self@.issued_at,
    {
        self.issued_at
    }

    pub fn expires_at(&self) -> (res: Timestamp)
        ensures
            res == self@.expires_at,
    {
        self.expires_at
    }

    /// Correlation evidence only; never an authentication input.
    pub fn inventory_signal(&self) -> (res: &str)
        ensures
            res@ == self@.inventory_signal,
    {
        self.inventory_signal.as_str()
    }

    pub fn resolved_endpoint_id(&self) -> (res: Option<EndpointId>)
        ensures
            res == self@.resolved_endpoint_id,
    {
        self.resolved_endpoint_id
    }

    /// Whether the context may still admit its first redemption at `now`
    /// (no grace period).
    pub fn valid_at(&self, now: Timestamp) -> (res: bool)
        ensures
            res == before(now, self@.expires_at),
    {
        now.is_before(&self.expires_at)
    }

    /// Verifies a presented enrollment secret against the stored secret_verifier.
    pub fn verify_secret(&self, presented: &PresentedCredentialSecret) -> (res: bool)
        ensures
            res == hash_verifies(self@.secret_verifier@, presented@),
    {
        self.secret_verifier.verify_bytes(presented.expose_secret_bytes())
    }

    /// This context bound to `endpoint_id`; an error when a different
    /// endpoint already resolved it.
    pub fn resolve(&self, endpoint_id: EndpointId) -> (res: Result<BootContext, BootContextResolveError>)
        ensures
            match res {
                Ok(c) => resolve_result(self@, endpoint_id) == Ok::<_, BootContextResolveError>(c@),
                Err(e) => resolve_result(self@, endpoint_id) == Err::<BootContextView, _>(e),
            },
    {
        if let Some(existing) = self.resolved_endpoint_id {
            if existing != endpoint_id {
                return Err(BootContextResolveError::AlreadyResolved { existing, attempted: endpoint_id });
            }
        }
        Ok(
            BootContext {
                boot_context_id: self.boot_context_id,
                secret_verifier: self.secret_verifier,
                issued_at: self.issued_at,
                expires_at: self.expires_at,
                inventory_signal: self.inventory_signal.clone(),
                resolved_endpoint_id: Some(endpoint_id),
            },
        )
    }

    /// A field-for-field copy.
    pub fn duplicate(&self) -> (res: Self)
        ensures
            res@ == self@,
    {
        BootContext {
            boot_context_id: self.boot_context_id,
            secret_verifier: self.secret_verifier,
            issued_at: self.issued_at,
            expires_at: self.expires_at,
            inventory_signal: self.inventory_signal.clone(),
            resolved_endpoint_id: self.resolved_endpoint_id,
        }
    }
}

} // verus!
