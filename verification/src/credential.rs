//! Runtime credential issuance, rotation and reconnect recovery: the
//! credential chain of one endpoint, with at most one predecessor in grace
//! and at most one unconfirmed successor.
//!
//! This module never reads the clock: callers pass `now`, and supply the
//! freshly generated successor candidate themselves.
use vstd::prelude::*;

use crate::bytes::copy_into;
use crate::presented_credential::{
    CredentialKind, CredentialLookupId, PresentedCredential, PresentedCredentialView,
};
use crate::primitives::digest::{constant_time_eq, sha2_sha256, sha256};
use crate::primitives::entropy::os_random_bytes;
use crate::time::{add_fits, before, shifted, TimeDelta, Timestamp, NANOS_PER_SECOND};

verus! {

/// The durable salted-hash representation of a credential secret: never
/// reversible to the secret.
#[derive(Debug, Clone, Copy, PartialEq, Eq)]
pub struct CredentialHash {
    salt: [u8; 16],
    digest: [u8; 32],
}

/// The parts of a [`CredentialHash`].
pub struct CredentialHashView {
    pub salt: Seq<u8>,
    pub digest: Seq<u8>,
}

impl View for CredentialHash {
    type V = CredentialHashView;

    closed spec fn view(&self) -> CredentialHashView {
        CredentialHashView { salt: self.salt@, digest: self.digest@ }
    }
}

/// Whether `secret` verifies against the hash: SHA-256 over the salt
/// followed by the secret equals the stored digest.
pub open spec fn hash_verifies(hash: CredentialHashView, secret: Seq<u8>) -> bool {
    sha2_sha256(hash.salt + secret) == hash.digest
}

impl CredentialHash {
    pub broadcast proof fn lemma_lens(h: CredentialHash)
        ensures
            #[trigger] h@.salt.len() == 16,
            h@.digest.len() == 32,
    {
    }

    /// One-way verifier of the given secret bytes, under a fresh random salt.
    pub fn of_bytes(secret_bytes: &[u8]) -> (res: Self)
        ensures
            hash_verifies(res@, secret_bytes@),
    {
        let salt = os_random_bytes::<16>();
        Self::of_bytes_with_salt(secret_bytes, salt)
    }

    fn of_bytes_with_salt(secret_bytes: &[u8], salt: [u8; 16]) -> (res: Self)
        ensures
            res@.salt == salt@,
            res@.digest == sha2_sha256(salt@ + secret_bytes@),
    {
        let mut message: Vec<u8> = Vec::new();
        let mut i: usize = 0;
        while i < 16
            invariant
                i <= 16,
                message@ == salt@.subrange(0, i as int),
            decreases 16 - i,
        {
            message.push(salt[i]);
            i = i + 1;
            assert(message@ =~= salt@.subrange(0, i as int));
        }
        let mut j: usize = 0;
        while j < secret_bytes.len()
            invariant
                j <= secret_bytes@.len(),
                message@ == salt@ + secret_bytes@.subrange(0, j as int),
            decreases secret_bytes@.len() - j,
        {
            message.push(secret_bytes[j]);
            j = j + 1;
            assert(message@ =~= salt@ + secret_bytes@.subrange(0, j as int));
        }
        assert(secret_bytes@.subrange(0, secret_bytes@.len() as int) =~= secret_bytes@);
        let digest = sha256(message.as_slice());
        CredentialHash { salt, digest }
    }

    /// Verification against raw secret bytes, comparing digests in
    /// constant time.
    pub fn verify_bytes(&self, secret_bytes: &[u8]) -> (res: bool)
        ensures
            res == hash_verifies(self@, secret_bytes@),
    {
        let candidate = Self::of_bytes_with_salt(secret_bytes, self.salt);
        constant_time_eq(&candidate.digest, &self.digest)
    }

    /// The 48-byte durable representation: salt, then digest.
    pub fn to_bytes(&self) -> (res: [u8; 48])
        ensures
            res@ == self@.salt + self@.digest,
    {
        let mut out = [0u8; 48];
        copy_into(&mut out, 0, &self.salt);
        copy_into(&mut out, 16, &self.digest);
        assert(out@ =~= self@.salt + self@.digest);
        out
    }

    /// Reconstructs a hash from its durable representation.
    pub fn from_bytes(bytes: [u8; 48]) -> (res: Self)
        ensures
            res@.salt == bytes@.subrange(0, 16),
            res@.digest == bytes@.subrange(16, 48),
    {
        let mut salt = [0u8; 16];
        let mut digest = [0u8; 32];
        let mut i: usize = 0;
        while i < 16
            invariant
                i <= 16,
                forall|j: int| 0 <= j < i ==> salt@[j] == bytes@[j],
            decreases 16 - i,
        {
            salt[i] = bytes[i];
            i = i + 1;
        }
        let mut k: usize = 0;
        while k < 32
            invariant
                k <= 32,
                forall|j: int| 0 <= j < i ==> salt@[j] == bytes@[j],
                i == 16,
                forall|j: int| 0 <= j < k ==> digest@[j] == bytes@[16 + j],
            decreases 32 - k,
        {
            digest[k] = bytes[16 + k];
            k = k + 1;
        }
        assert(salt@ =~= bytes@.subrange(0, 16));
        assert(digest@ =~= bytes@.subrange(16, 48));
        CredentialHash { salt, digest }
    }
}

/// One credential in the chain: lookup identifier, durable hash and
/// validity window.
#[derive(Debug, Clone, Copy, PartialEq, Eq)]
pub struct CredentialSlot {
    pub lookup_id: CredentialLookupId,
    pub hash: CredentialHash,
    pub issued_at: Timestamp,
    pub expires_at: Timestamp,
}

/// A slot is valid strictly before its expiry.
pub open spec fn slot_valid_at(slot: CredentialSlot, now: Timestamp) -> bool {
    before(now, slot.expires_at)
}

/// A presented credential matches a slot when the slot is still valid and
/// both the lookup identifier and the secret agree.
pub open spec fn slot_matches(slot: CredentialSlot, presented: PresentedCredentialView, now: Timestamp) -> bool {
    &&& slot_valid_at(slot, now)
    &&& slot.lookup_id@ == presented.lookup_id
    &&& hash_verifies(slot.hash@, presented.secret)
}

/// The slot minted for a freshly issued credential at `now` with lifetime
/// `ttl`: its lookup identifier, a verifier of its secret, issued now,
/// expiring at `now + ttl`.
pub open spec fn minted_for(slot: CredentialSlot, fresh: PresentedCredentialView, now: Timestamp, ttl: TimeDelta) -> bool {
    &&& slot.lookup_id@ == fresh.lookup_id
    &&& hash_verifies(slot.hash@, fresh.secret)
    &&& slot.issued_at == now
    &&& slot.expires_at == shifted(now, ttl)
}

impl CredentialSlot {
    fn valid_at(&self, now: Timestamp) -> (res: bool)
        ensures
            res == slot_valid_at(*self, now),
    {
        now.is_before(&self.expires_at)
    }

    /// Both the lookup identifier and the secret must match; the lookup
    /// identifier never authenticates by itself.
    fn matches(&self, presented: &PresentedCredential, now: Timestamp) -> (res: bool)
        ensures
            res == slot_matches(*self, presented@, now),
    {
        self.valid_at(now) && self.lookup_id.same_as(presented.lookup_id())
            && self.hash.verify_bytes(presented.secret().expose_secret_bytes())
    }
}

/// Default runtime-credential validity window, in hours.
pub const DEFAULT_CREDENTIAL_TTL_HOURS: i64 = 1;

/// Default runtime-credential validity window: one hour.
pub fn default_credential_ttl() -> (res: TimeDelta)
    ensures
        res@ == DEFAULT_CREDENTIAL_TTL_HOURS * 3600 * NANOS_PER_SECOND,
{
    TimeDelta::hours(DEFAULT_CREDENTIAL_TTL_HOURS)
}

/// The durable credential chain of one endpoint.
#[derive(Debug, Clone, Copy, PartialEq, Eq)]
pub struct CredentialChain {
    predecessor: CredentialSlot,
    successor: Option<CredentialSlot>,
    revoked: bool,
}

/// The parts of a [`CredentialChain`].
pub struct CredentialChainView {
    pub predecessor: CredentialSlot,
    pub successor: Option<CredentialSlot>,
    pub revoked: bool,
}

impl View for CredentialChain {
    type V = CredentialChainView;

    closed spec fn view(&self) -> CredentialChainView {
        CredentialChainView {
            predecessor: self.predecessor,
            successor: self.successor,
            revoked: self.revoked,
        }
    }
}

/// The credential/session lifecycle dimension, derived from the chain.
#[derive(Debug, Clone, Copy, PartialEq, Eq, Structural)]
pub enum CredentialDimension {
    NoActiveCredential,
    CredentialActive,
    CredentialExpired,
    CredentialRevoked,
}

/// The dimension a chain is in at `now`.
pub open spec fn dimension_at(chain: CredentialChainView, now: Timestamp) -> CredentialDimension {
    if chain.revoked {
        CredentialDimension::CredentialRevoked
    } else if slot_valid_at(chain.predecessor, now) || (chain.successor matches Some(s)
        && slot_valid_at(s, now)) {
        CredentialDimension::CredentialActive
    } else {
        CredentialDimension::CredentialExpired
    }
}

/// Whether `presented` authenticates against `chain` at `now`: the chain is
/// not revoked and the credential matches its predecessor or its successor.
pub open spec fn chain_accepts(chain: CredentialChainView, presented: PresentedCredentialView, now: Timestamp) -> bool {
    &&& !chain.revoked
    &&& slot_matches(chain.predecessor, presented, now) || (chain.successor matches Some(s)
        && slot_matches(s, presented, now))
}

/// A fresh chain: the promoted predecessor (issued now, expiring at
/// `now + ttl`) and the minted successor, not revoked.
pub open spec fn established_chain(
    chain: CredentialChainView,
    predecessor_lookup_id: Seq<u8>,
    predecessor_verifier: CredentialHash,
    fresh: PresentedCredentialView,
    now: Timestamp,
    ttl: TimeDelta,
) -> bool {
    &&& chain.predecessor.lookup_id@ == predecessor_lookup_id
    &&& chain.predecessor.hash == predecessor_verifier
    &&& chain.predecessor.issued_at == now
    &&& chain.predecessor.expires_at == shifted(now, ttl)
    &&& chain.successor matches Some(s) && minted_for(s, fresh, now, ttl)
    &&& !chain.revoked
}

/// Builds the slot of a freshly issued successor; refuses (`None`) any
/// candidate that is not a `Runtime` credential.
fn mint_successor_slot(fresh_successor: &PresentedCredential, now: Timestamp, ttl: TimeDelta) -> (res: Option<CredentialSlot>)
    requires
        fresh_successor@.kind == CredentialKind::Runtime ==> add_fits(now, ttl),
    ensures
        fresh_successor@.kind != CredentialKind::Runtime ==> res is None,
        fresh_successor@.kind == CredentialKind::Runtime ==> (res matches Some(slot) && minted_for(
            slot,
            fresh_successor@,
            now,
            ttl,
        )),
{
    if fresh_successor.kind() != CredentialKind::Runtime {
        return None;
    }
    Some(
        CredentialSlot {
            lookup_id: *fresh_successor.lookup_id(),
            hash: CredentialHash::of_bytes(fresh_successor.secret().expose_secret_bytes()),
            issued_at: now,
            expires_at: now.add(ttl),
        },
    )
}

impl CredentialChain {
    /// Establishes a fresh chain by promoting an already-verified predecessor
    /// and installing a freshly issued `Runtime` successor. `None` exactly
    /// when the candidate is not a `Runtime` credential.
    pub fn establish(
        predecessor_lookup_id: CredentialLookupId,
        predecessor_verifier: CredentialHash,
        fresh_successor: &PresentedCredential,
        now: Timestamp,
        ttl: TimeDelta,
    ) -> (res: Option<Self>)
        requires
            fresh_successor@.kind == CredentialKind::Runtime ==> add_fits(now, ttl),
        ensures
            fresh_successor@.kind != CredentialKind::Runtime ==> res is None,
            fresh_successor@.kind == CredentialKind::Runtime ==> (res matches Some(chain)
                && established_chain(
                chain@,
                predecessor_lookup_id@,
                predecessor_verifier,
                fresh_successor@,
                now,
                ttl,
            )),
    {
        let successor = match mint_successor_slot(fresh_successor, now, ttl) {
            Some(slot) => slot,
            None => {
                return None;
            },
        };
        let predecessor = CredentialSlot {
            lookup_id: predecessor_lookup_id,
            hash: predecessor_verifier,
            issued_at: now,
            expires_at: now.add(ttl),
        };
        Some(Self { predecessor, successor: Some(successor), revoked: false })
    }

    /// The credential/session lifecycle dimension at `now`.
    pub fn dimension(&self, now: Timestamp) -> (res: CredentialDimension)
        ensures
            res == dimension_at(self@, now),
    {
        if self.revoked {
            return CredentialDimension::CredentialRevoked;
        }
        let predecessor_valid = self.predecessor.valid_at(now);
        let successor_valid = match &self.successor {
            Some(s) => s.valid_at(now),
            None => false,
        };
        if predecessor_valid || successor_valid {
            CredentialDimension::CredentialActive
        } else {
            CredentialDimension::CredentialExpired
        }
    }

    /// Explicit revocation: the same slots, marked revoked.
    pub fn revoke(&self) -> (res: Self)
        ensures
            res@.predecessor == self@.predecessor,
            res@.successor == self@.successor,
            res@.revoked,
    {
        Self { predecessor: self.predecessor, successor: self.successor, revoked: true }
    }

    /// Whether the chain accepts `presented` at `now`: not revoked, and the
    /// predecessor or the successor matches it.
    pub(crate) fn accepts(&self, presented: &PresentedCredential, now: Timestamp) -> (res: bool)
        ensures
            res == chain_accepts(self@, presented@, now),
    {
        if self.revoked {
            return false;
        }
        if self.predecessor.matches(presented, now) {
            return true;
        }
        match &self.successor {
            Some(s) => s.matches(presented, now),
            None => false,
        }
    }

    pub fn predecessor(&self) -> (res: &CredentialSlot)
        ensures
            *res == self@.predecessor,
    {
        &self.predecessor
    }

    pub fn successor(&self) -> (res: Option<&CredentialSlot>)
        ensures
            match res {
                Some(s) => self@.successor == Some(*s),
                None => self@.successor is None,
            },
    {
        self.successor.as_ref()
    }

    pub fn is_revoked(&self) -> (res: bool)
        ensures
            res == self@.revoked,
    {
        self.revoked
    }

    /// Reconstructs a chain from its durable parts.
    pub fn from_parts(predecessor: CredentialSlot, successor: Option<CredentialSlot>, revoked: bool) -> (res: Self)
        ensures
            res@.predecessor == predecessor,
            res@.successor == successor,
            res@.revoked == revoked,
    {
        Self { predecessor, successor, revoked }
    }
}

/// Outcome of presenting a credential against an existing chain.
#[derive(Debug, Clone, Copy, PartialEq, Eq)]
pub enum AuthOutcome {
    /// The presented credential matched the predecessor (superseding any
    /// unconfirmed successor) or the unconfirmed successor (confirming it);
    /// the fresh successor was installed either way.
    Accepted { chain: CredentialChain, issued_expires_at: Timestamp, successor_confirmed: bool },
    /// Generic rejection, never distinguishing why.
    Rejected,
}

/// What [`authenticate`] decides, apart from the random salt of the new
/// successor's verifier: accepted exactly when the chain accepts the
/// presented credential and the candidate is a `Runtime` credential.
pub open spec fn authentication_result(
    res: AuthOutcome,
    chain: CredentialChainView,
    presented: PresentedCredentialView,
    fresh: PresentedCredentialView,
    now: Timestamp,
    ttl: TimeDelta,
) -> bool {
    match res {
        AuthOutcome::Rejected => !(chain_accepts(chain, presented, now) && fresh.kind
            == CredentialKind::Runtime),
        AuthOutcome::Accepted { chain: new_chain, issued_expires_at, successor_confirmed } => {
            &&& chain_accepts(chain, presented, now)
            &&& fresh.kind == CredentialKind::Runtime
            &&& successor_confirmed == !slot_matches(chain.predecessor, presented, now)
            &&& new_chain@.predecessor == (if successor_confirmed {
                chain.successor.unwrap()
            } else {
                chain.predecessor
            })
            &&& new_chain@.successor matches Some(s) && minted_for(s, fresh, now, ttl)
            &&& !new_chain@.revoked
            &&& issued_expires_at == shifted(now, ttl)
        },
    }
}

/// Whether [`authenticate`] accepts, and so issues a successor expiring at
/// `now + ttl`: the chain accepts the presented credential and the
/// candidate is a `Runtime` credential.
pub open spec fn authentication_accepts(
    chain: CredentialChainView,
    presented: PresentedCredentialView,
    fresh: PresentedCredentialView,
    now: Timestamp,
) -> bool {
    chain_accepts(chain, presented, now) && fresh.kind == CredentialKind::Runtime
}

/// Presents `presented` against `chain`, minting `fresh_successor` as the
/// new successor on acceptance. `now + ttl` is computed, and must be
/// representable, only when it accepts. The presented credential's kind is not
/// checked: a promoted enrollment credential keeps working as predecessor
/// during its grace window.
pub fn authenticate(
    chain: &CredentialChain,
    presented: &PresentedCredential,
    fresh_successor: &PresentedCredential,
    now: Timestamp,
    ttl: TimeDelta,
) -> (res: AuthOutcome)
    requires
        authentication_accepts(chain@, presented@, fresh_successor@, now) ==> add_fits(now, ttl),
    ensures
        authentication_result(res, chain@, presented@, fresh_successor@, now, ttl),
{
    if chain.revoked {
        return AuthOutcome::Rejected;
    }
    if chain.predecessor.matches(presented, now) {
        let issued_slot = match mint_successor_slot(fresh_successor, now, ttl) {
            Some(slot) => slot,
            None => {
                return AuthOutcome::Rejected;
            },
        };
        let new_chain = CredentialChain {
            predecessor: chain.predecessor,
            successor: Some(issued_slot),
            revoked: false,
        };
        return AuthOutcome::Accepted {
            chain: new_chain,
            issued_expires_at: issued_slot.expires_at,
            successor_confirmed: false,
        };
    }
    if let Some(successor) = &chain.successor {
        if successor.matches(presented, now) {
            let issued_slot = match mint_successor_slot(fresh_successor, now, ttl) {
                Some(slot) => slot,
                None => {
                    return AuthOutcome::Rejected;
                },
            };
            let new_chain = CredentialChain {
                predecessor: *successor,
                successor: Some(issued_slot),
                revoked: false,
            };
            return AuthOutcome::Accepted {
                chain: new_chain,
                issued_expires_at: issued_slot.expires_at,
                successor_confirmed: true,
            };
        }
    }
    AuthOutcome::Rejected
}

/// Revocation invalidates every credential in the chain: whatever is
/// presented against a revoked chain, authentication rejects it.
pub proof fn law_revoked_chain_rejects_everything(
    chain: CredentialChainView,
    presented: PresentedCredentialView,
    fresh: PresentedCredentialView,
    now: Timestamp,
    ttl: TimeDelta,
    res: AuthOutcome,
)
    requires
        chain.revoked,
        authentication_result(res, chain, presented, fresh, now, ttl),
    ensures
        res == AuthOutcome::Rejected,
{
}

/// The successor issued by an accepted authentication authenticates against
/// the new chain, as its successor, at every instant from issuance until its
/// expiry.
pub proof fn law_issued_successor_authenticates(
    chain: CredentialChainView,
    presented: PresentedCredentialView,
    fresh: PresentedCredentialView,
    now: Timestamp,
    ttl: TimeDelta,
    new_chain: CredentialChain,
    issued_expires_at: Timestamp,
    successor_confirmed: bool,
    later: Timestamp,
)
    requires
        authentication_result(
            AuthOutcome::Accepted { chain: new_chain, issued_expires_at, successor_confirmed },
            chain,
            presented,
            fresh,
            now,
            ttl,
        ),
        before(later, issued_expires_at),
    ensures
        chain_accepts(new_chain@, fresh, later),
        slot_matches(new_chain@.successor.unwrap(), fresh, later),
{
}

/// After an accepted authentication the chain holds exactly two
/// credentials: the one that stayed or became predecessor, and the freshly
/// issued successor. Re-presenting the predecessor supersedes the
/// unconfirmed successor; confirming the successor retires the old
/// predecessor. Any credential the new chain accepts matches one of those
/// two slots.
pub proof fn law_rotation_keeps_two_credentials(
    chain: CredentialChainView,
    presented: PresentedCredentialView,
    fresh: PresentedCredentialView,
    now: Timestamp,
    ttl: TimeDelta,
    new_chain: CredentialChain,
    issued_expires_at: Timestamp,
    successor_confirmed: bool,
    other: PresentedCredentialView,
    later: Timestamp,
)
    requires
        authentication_result(
            AuthOutcome::Accepted { chain: new_chain, issued_expires_at, successor_confirmed },
            chain,
            presented,
            fresh,
            now,
            ttl,
        ),
    ensures
        !successor_confirmed ==> new_chain@.predecessor == chain.predecessor,
        successor_confirmed ==> chain.successor == Some(new_chain@.predecessor),
        successor_confirmed ==> slot_matches(new_chain@.predecessor, presented, now),
        chain_accepts(new_chain@, other, later) <==> (slot_matches(new_chain@.predecessor, other, later)
            || slot_matches(new_chain@.successor.unwrap(), other, later)),
{
}

/// The lookup identifier never authenticates by itself, nor does the secret:
/// a credential whose lookup identifier is in no slot, or whose secret
/// verifies against no slot's hash, is rejected.
pub proof fn law_lookup_id_and_secret_both_required(
    chain: CredentialChainView,
    presented: PresentedCredentialView,
    now: Timestamp,
)
    requires
        (presented.lookup_id != chain.predecessor.lookup_id@ && (chain.successor matches Some(s)
            ==> presented.lookup_id != s.lookup_id@)) || (!hash_verifies(
            chain.predecessor.hash@,
            presented.secret,
        ) && (chain.successor matches Some(s) ==> !hash_verifies(s.hash@, presented.secret))),
    ensures
        !chain_accepts(chain, presented, now),
{
}

/// The dimension is derived from the chain and never drifts from it: a
/// chain that accepts some credential is active; an expired or revoked
/// chain accepts nothing.
pub proof fn law_dimension_agrees_with_authentication(
    chain: CredentialChainView,
    presented: PresentedCredentialView,
    now: Timestamp,
)
    ensures
        chain_accepts(chain, presented, now) ==> dimension_at(chain, now)
            == CredentialDimension::CredentialActive,
        dimension_at(chain, now) == CredentialDimension::CredentialExpired ==> !chain_accepts(
            chain,
            presented,
            now,
        ),
        (dimension_at(chain, now) == CredentialDimension::CredentialRevoked) == chain.revoked,
        dimension_at(chain, now) != CredentialDimension::NoActiveCredential,
{
}

/// The durable byte form of a hash gives back its salt and digest.
pub proof fn law_hash_bytes_round_trip(hash: CredentialHash)
    ensures
        (hash@.salt + hash@.digest).subrange(0, 16) == hash@.salt,
        (hash@.salt + hash@.digest).subrange(16, 48) == hash@.digest,
{
    assert((hash@.salt + hash@.digest).subrange(0, 16) =~= hash@.salt);
    assert((hash@.salt + hash@.digest).subrange(16, 48) =~= hash@.digest);
}


/// The expiry reported for an accepted authentication is that of the
/// credential it issued: the new chain's successor slot expires then, and
/// that is `ttl` after `now`, whatever the expiry of the slot that was
/// presented.
pub proof fn law_reported_expiry_is_the_issued_credentials(
    chain: CredentialChainView,
    presented: PresentedCredentialView,
    fresh: PresentedCredentialView,
    now: Timestamp,
    ttl: TimeDelta,
    new_chain: CredentialChain,
    issued_expires_at: Timestamp,
    successor_confirmed: bool,
)
    requires
        add_fits(now, ttl),
        authentication_result(
            AuthOutcome::Accepted { chain: new_chain, issued_expires_at, successor_confirmed },
            chain,
            presented,
            fresh,
            now,
            ttl,
        ),
    ensures
        new_chain@.successor matches Some(s) && s.expires_at == issued_expires_at && s.lookup_id@
            == fresh.lookup_id,
        issued_expires_at@ == now@ + ttl@,
{
    crate::time::lemma_shifted(now, ttl);
}

} // verus!
