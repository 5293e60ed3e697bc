//! The endpoint's authoritative durable current-boot projection: which
//! boot context (by its lookup identifier) and exact `BootNonce` are
//! current, and whether trusted bootstrap is established for that boot.
use vstd::prelude::*;

use crate::presented_credential::CredentialLookupId;
use crate::trusted_bootstrap::boot_nonce::BootNonce;

verus! {

/// Whether the Server has verified authenticated bootstrap evidence for
/// this exact current boot.
#[derive(Debug, Clone, Copy, PartialEq, Eq, Structural)]
pub enum TrustedBootstrapState {
    NotEstablished,
    Established,
}

/// Boot context identity and nonce, always carried together.
#[derive(Debug, Clone, Copy, PartialEq, Eq)]
pub struct CurrentBoot {
    boot_context_id: CredentialLookupId,
    boot_nonce: BootNonce,
    trusted_bootstrap: TrustedBootstrapState,
}

/// The parts of a [`CurrentBoot`].
pub struct CurrentBootView {
    pub boot_context_id: Seq<u8>,
    pub boot_nonce: Seq<u8>,
    pub trusted_bootstrap: TrustedBootstrapState,
}

impl View for CurrentBoot {
    type V = CurrentBootView;

    closed spec fn view(&self) -> CurrentBootView {
        CurrentBootView {
            boot_context_id: self.boot_context_id@,
            boot_nonce: self.boot_nonce@,
            trusted_bootstrap: self.trusted_bootstrap,
        }
    }
}

impl CurrentBoot {
    pub fn new(
        boot_context_id: CredentialLookupId,
        boot_nonce: BootNonce,
        trusted_bootstrap: TrustedBootstrapState,
    ) -> (res: Self)
        ensures
            res@.boot_context_id == boot_context_id@,
            res@.boot_nonce == boot_nonce@,
            res@.trusted_bootstrap == trusted_bootstrap,
    {
        CurrentBoot { boot_context_id, boot_nonce, trusted_bootstrap }
    }

    pub fn boot_context_id(&self) -> (res: &CredentialLookupId)
        ensures
            res@ == self@.boot_context_id,
    {
        &self.boot_context_id
    }

    pub fn boot_nonce(&self) -> (res: BootNonce)
        ensures
            res@ == self@.boot_nonce,
    {
        self.boot_nonce
    }

    pub fn trusted_bootstrap(&self) -> (res: TrustedBootstrapState)
        ensures
            res == self@.trusted_bootstrap,
    {
        self.trusted_bootstrap
    }
}

} // verus!
