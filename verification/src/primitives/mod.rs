//! The calls this library makes into outside crates, each behind one
//! trusted item whose contract states what the outside crate documents.
pub mod base64url;
pub mod digest;
pub mod ed25519;
pub mod fmt;
pub mod entropy;
