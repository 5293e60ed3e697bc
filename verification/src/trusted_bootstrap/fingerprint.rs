//! `ServerCertFingerprint`: SHA-256 over the exact DER bytes of the leaf
//! certificate the Server presents (exact-certificate pinning).
use vstd::prelude::*;

use crate::primitives::digest::{ring_sha256, ring_sha256_digest};

verus! {

#[derive(Clone, Copy, PartialEq, Eq, Debug)]
pub struct ServerCertFingerprint {
    digest: [u8; 32],
}

impl View for ServerCertFingerprint {
    type V = Seq<u8>;

    closed spec fn view(&self) -> Seq<u8> {
        self.digest@
    }
}

impl ServerCertFingerprint {
    pub broadcast proof fn lemma_len(f: ServerCertFingerprint)
        ensures
            #[trigger] f@.len() == 32,
    {
    }

    /// The fingerprint of the exact DER bytes of a leaf certificate.
    pub fn from_leaf_der(der: &[u8]) -> (res: Self)
        ensures
            res@ == ring_sha256(der@),
    {
        ServerCertFingerprint { digest: ring_sha256_digest(der) }
    }

    /// Wraps an already-computed 32-byte SHA-256 digest.
    pub fn from_sha256_digest(digest: [u8; 32]) -> (res: Self)
        ensures
            res@ == digest@,
    {
        ServerCertFingerprint { digest }
    }

    /// The raw 32-byte digest.
    pub fn as_bytes(&self) -> (res: &[u8; 32])
        ensures
            res@ == self@,
    {
        &self.digest
    }

    /// Whether the exact certificate `der` hashes to this fingerprint.
    pub fn matches_leaf_der(&self, der: &[u8]) -> (res: bool)
        ensures
            res == (ring_sha256(der@) == self@),
    {
        let computed = Self::from_leaf_der(der);
        crate::bytes::bytes_equal(&computed.digest, &self.digest)
    }

    /// Whether both fingerprints hold the same digest.
    pub fn same_as(&self, other: &ServerCertFingerprint) -> (res: bool)
        ensures
            res == (self@ == other@),
    {
        crate::bytes::bytes_equal(&self.digest, &other.digest)
    }
}

} // verus!
