//! The endpoint aggregate: identity lifecycle, credential chain and
//! authoritative current boot, kept as independent dimensions.
use vstd::prelude::*;

use crate::credential::CredentialChain;
use crate::current_boot::CurrentBoot;
use crate::identity::IdentityState;
use crate::primitives::entropy::random_uuid_v4;
use crate::time::Timestamp;

verus! {

/// Durable endpoint identity: a Server-assigned version-4 UUID (its 128-bit
/// value), independent of any hardware attribute.
#[derive(Debug, Clone, Copy, PartialEq, Eq, Structural, Hash)]
pub struct EndpointId(pub u128);

impl EndpointId {
    /// A fresh random identifier.
    pub fn new() -> (res: Self)
        ensures
            crate::primitives::entropy::uuid_version_field(res.0) == 4,
    {
        EndpointId(random_uuid_v4())
    }
}

impl Default for EndpointId {
    /// A fresh random identifier, as [`EndpointId::new`].
    fn default() -> (res: Self)
        ensures
            crate::primitives::entropy::uuid_version_field(res.0) == 4,
    {
        EndpointId::new()
    }
}

/// The aggregate the endpoint transitions operate on.
#[derive(Debug, Clone, PartialEq, Eq)]
pub struct EndpointAggregate {
    pub id: EndpointId,
    /// Correlation evidence used to match a reconnecting known endpoint;
    /// never authentication.
    pub inventory_signal: String,
    pub identity: IdentityState,
    pub credential: CredentialChain,
    /// `None` means legacy/unknown current boot: trusted bootstrap is never
    /// considered established for such an endpoint.
    pub current_boot: Option<CurrentBoot>,
    pub created_at: Timestamp,
    pub updated_at: Timestamp,
}

impl EndpointAggregate {
    /// A field-for-field copy.
    pub fn duplicate(&self) -> (res: Self)
        ensures
            res == *self,
    {
        EndpointAggregate {
            id: self.id,
            inventory_signal: self.inventory_signal.clone(),
            identity: self.identity,
            credential: self.credential,
            current_boot: self.current_boot,
            created_at: self.created_at,
            updated_at: self.updated_at,
        }
    }
}

} // verus!
