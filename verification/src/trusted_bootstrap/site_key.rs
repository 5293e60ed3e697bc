//! The site bootstrap trust anchor: the raw 32-byte Ed25519 public key,
//! its identifier `SiteKeyId = SHA-256(public key bytes)`, and the set of
//! already-accepted keys. An assertion's `SiteKeyId` only selects among
//! keys already accepted here; it never makes a key trusted.
use vstd::prelude::*;

use crate::primitives::digest::{sha2_sha256, sha256};
use crate::primitives::ed25519::{check_public_key, ed25519_key_decompresses};

verus! {

/// A raw Ed25519 public key that decompresses to a curve point.
#[derive(Clone, Copy, Debug, PartialEq, Eq)]
pub struct SitePublicKey {
    bytes: [u8; 32],
}

impl View for SitePublicKey {
    type V = Seq<u8>;

    closed spec fn view(&self) -> Seq<u8> {
        self.bytes@
    }
}

#[derive(Debug)]
pub enum SitePublicKeyError {
    /// The bytes are not a valid Ed25519 public key.
    InvalidKey(ed25519_dalek::SignatureError),
}

impl SitePublicKey {
    #[verifier::type_invariant]
    spec fn decompresses(self) -> bool {
        ed25519_key_decompresses(self.bytes@)
    }

    /// Validates `bytes` as an Ed25519 public key.
    pub fn from_bytes(bytes: [u8; 32]) -> (res: Result<Self, SitePublicKeyError>)
        ensures
            res is Ok <==> ed25519_key_decompresses(bytes@),
            res matches Ok(key) ==> key@ == bytes@,
    {
        match check_public_key(&bytes) {
            Ok(()) => Ok(SitePublicKey { bytes }),
            Err(e) => Err(SitePublicKeyError::InvalidKey(e)),
        }
    }

    /// Wraps bytes already known to decompress.
    pub(crate) fn from_decompressable_bytes(bytes: [u8; 32]) -> (res: Self)
        requires
            ed25519_key_decompresses(bytes@),
        ensures
            res@ == bytes@,
    {
        SitePublicKey { bytes }
    }

    pub fn as_bytes(&self) -> (res: [u8; 32])
        ensures
            res@ == self@,
            ed25519_key_decompresses(res@),
    {
        proof {
            use_type_invariant(self);
        }
        self.bytes
    }
}

/// `SHA-256(exact raw 32-byte public key)`.
#[derive(Clone, Copy, PartialEq, Eq, Debug, Hash)]
pub struct SiteKeyId([u8; 32]);

impl View for SiteKeyId {
    type V = Seq<u8>;

    closed spec fn view(&self) -> Seq<u8> {
        self.0@
    }
}

impl SiteKeyId {
    pub fn from_public_key(key: &SitePublicKey) -> (res: Self)
        ensures
            res@ == sha2_sha256(key@),
    {
        SiteKeyId(sha256(&key.bytes))
    }

    /// A candidate identifier, e.g. from an assertion; not thereby trusted.
    pub fn from_raw_bytes(bytes: [u8; 32]) -> (res: Self)
        ensures
            res@ == bytes@,
    {
        SiteKeyId(bytes)
    }

    pub fn as_bytes(&self) -> (res: &[u8; 32])
        ensures
            res@ == self@,
    {
        &self.0
    }

    pub fn same_as(&self, other: &SiteKeyId) -> (res: bool)
        ensures
            res == (self@ == other@),
    {
        crate::bytes::bytes_equal(&self.0, &other.0)
    }
}

/// The first accepted key (in configuration order) whose identifier is
/// `id`.
pub open spec fn first_key_with_id(keys: Seq<Seq<u8>>, id: Seq<u8>) -> Option<Seq<u8>>
    decreases keys.len(),
{
    if keys.len() == 0 {
        None
    } else if sha2_sha256(keys[0]) == id {
        Some(keys[0])
    } else {
        first_key_with_id(keys.drop_first(), id)
    }
}

/// The immutable set of already-accepted site public keys, each stored
/// with its identifier.
pub struct AcceptedSiteKeys {
    keys: Vec<(SiteKeyId, SitePublicKey)>,
}

impl View for AcceptedSiteKeys {
    type V = Seq<Seq<u8>>;

    closed spec fn view(&self) -> Seq<Seq<u8>> {
        Seq::new(self.keys@.len(), |i: int| self.keys@[i].1@)
    }
}

impl AcceptedSiteKeys {
    #[verifier::type_invariant]
    spec fn ids_match_keys(self) -> bool {
        forall|i: int| 0 <= i < self.keys@.len() ==> (#[trigger] self.keys@[i]).0@ == sha2_sha256(self.keys@[i].1@)
    }

    /// Accepts the given keys, in order.
    pub fn new(keys: Vec<SitePublicKey>) -> (res: Self)
        ensures
            res@ == keys@.map_values(|k: SitePublicKey| k@),
    {
        let mut pairs: Vec<(SiteKeyId, SitePublicKey)> = Vec::new();
        let mut i: usize = 0;
        while i < keys.len()
            invariant
                i <= keys@.len(),
                pairs@.len() == i,
                forall|j: int| 0 <= j < i ==> (#[trigger] pairs@[j]).1 == keys@[j],
                forall|j: int| 0 <= j < i ==> (#[trigger] pairs@[j]).0@ == sha2_sha256(pairs@[j].1@),
            decreases keys@.len() - i,
        {
            let key = keys[i];
            pairs.push((SiteKeyId::from_public_key(&key), key));
            i = i + 1;
        }
        let res = AcceptedSiteKeys { keys: pairs };
        assert(res@ =~= keys@.map_values(|k: SitePublicKey| k@));
        res
    }

    /// Accepts exactly one key.
    pub fn single(key: SitePublicKey) -> (res: Self)
        ensures
            res@ == seq![key@],
    {
        let mut keys: Vec<SitePublicKey> = Vec::new();
        keys.push(key);
        let res = Self::new(keys);
        assert(res@ =~= seq![key@]);
        res
    }

    /// The accepted key that `id` selects, if any.
    pub fn find(&self, id: &SiteKeyId) -> (res: Option<&SitePublicKey>)
        ensures
            match res {
                Some(k) => first_key_with_id(self@, id@) == Some(k@),
                None => first_key_with_id(self@, id@) is None,
            },
    {
        proof {
            use_type_invariant(self);
        }
        let mut i: usize = 0;
        assert(self@.skip(0) =~= self@);
        while i < self.keys.len()
            invariant
                i <= self.keys@.len(),
                forall|j: int| 0 <= j < self.keys@.len() ==> (#[trigger] self.keys@[j]).0@ == sha2_sha256(self.keys@[j].1@),
                first_key_with_id(self@, id@) == first_key_with_id(self@.skip(i as int), id@),
            decreases self.keys@.len() - i,
        {
            let ghost rest = self@.skip(i as int);
            assert(rest[0] == self.keys@[i as int].1@);
            assert(rest.drop_first() =~= self@.skip(i + 1));
            if self.keys[i].0.same_as(id) {
                return Some(&self.keys[i].1);
            }
            i = i + 1;
        }
        assert(self@.skip(i as int).len() == 0);
        None
    }
}

} // verus!
