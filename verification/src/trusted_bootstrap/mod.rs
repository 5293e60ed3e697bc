//! The trusted-bootstrap shared contract: `BootNonce`, the Server
//! certificate fingerprint, `SiteKeyId` and the accepted site keys, and the
//! assertion-schema-V1 representation with its strict parsing and
//! Ed25519 verification.
pub mod assertion;
pub mod boot_nonce;
pub mod fingerprint;
pub mod fixture;
pub mod site_key;
pub mod verify;
