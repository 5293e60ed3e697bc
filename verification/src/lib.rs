//! Endpoint identity lifecycle, runtime-credential chain, boot-scoped
//! enrollment, and trusted-bootstrap assertion checking for bare-metal
//! provisioning.
use vstd::prelude::*;

pub mod application;
pub mod boot_context;
pub mod bytes;
pub mod credential;
pub mod current_boot;
pub mod endpoint;
pub mod envelope;
pub mod events;
pub mod identity;
pub mod presented_credential;
pub mod primitives;
pub mod simulator;
pub mod text;
pub mod time;
pub mod transitions;
pub mod trusted_bootstrap;

verus! {
} // verus!
