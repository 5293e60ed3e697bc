//! The self-locating presented-credential representation and its wire
//! encoding:
//!
//! ```text
//! v1.<kind>.<lookup_id>.<secret>
//! ```
//!
//! `<kind>` is `enrollment` or `runtime`; `<lookup_id>` is 16 bytes and
//! `<secret>` 32 bytes, each base64url without padding. A presented value is
//! only evidence of format: authenticating it means verifying its secret
//! against a stored one-way verifier, which this module does not do.
use vstd::prelude::*;

use crate::bytes::{array_from_slice, bytes_equal};
use crate::primitives::base64url::{
    b64url_decode, b64url_encode, b64url_encoded_len, base64url_decode, base64url_encode,
    is_b64url_char,
};
use crate::primitives::entropy::os_random_bytes;
use crate::text::{
    free_of, lemma_four_pieces, lemma_split_concat, lemma_split_free, range_equals,
    split_bounds, split_on,
};

verus! {

/// The wire-representation version tag understood by
/// [`PresentedCredential::parse`].
pub const WIRE_VERSION: &'static str = "v1";

/// Length in bytes of a lookup identifier.
pub const LOOKUP_ID_LEN: usize = 16;

/// Length in bytes of credential secret material.
pub const SECRET_LEN: usize = 32;

/// Distinguishes a boot-scoped enrollment credential from a runtime
/// credential of an already-persisted chain.
#[derive(Debug, Clone, Copy, PartialEq, Eq, Structural)]
pub enum CredentialKind {
    Enrollment,
    Runtime,
}

/// The version tag `v1` as characters.
pub open spec fn version_tag() -> Seq<char> {
    seq!['v', '1']
}

/// The wire tag of each credential kind.
pub open spec fn kind_tag(kind: CredentialKind) -> Seq<char> {
    match kind {
        CredentialKind::Enrollment => seq!['e', 'n', 'r', 'o', 'l', 'l', 'm', 'e', 'n', 't'],
        CredentialKind::Runtime => seq!['r', 'u', 'n', 't', 'i', 'm', 'e'],
    }
}

/// The credential kind a wire tag names, if any.
pub open spec fn kind_from_tag(tag: Seq<char>) -> Option<CredentialKind> {
    if tag == kind_tag(CredentialKind::Enrollment) {
        Some(CredentialKind::Enrollment)
    } else if tag == kind_tag(CredentialKind::Runtime) {
        Some(CredentialKind::Runtime)
    } else {
        None
    }
}

impl CredentialKind {
    /// The wire tag of this kind.
    pub fn to_wire(self) -> (res: &'static str)
        ensures
            res@ == kind_tag(self),
    {
        match self {
            CredentialKind::Enrollment => {
                let tag = "enrollment";
                proof {
                    reveal_strlit("enrollment");
                    assert(tag@ =~= kind_tag(self));
                }
                tag
            },
            CredentialKind::Runtime => {
                let tag = "runtime";
                proof {
                    reveal_strlit("runtime");
                    assert(tag@ =~= kind_tag(self));
                }
                tag
            },
        }
    }

    /// The kind named by the characters of `s` in `[start, end)`.
    fn from_wire_range(s: &str, start: usize, end: usize) -> (res: Option<CredentialKind>)
        requires
            start <= end <= s@.len(),
        ensures
            res == kind_from_tag(s@.subrange(start as int, end as int)),
    {
        if range_equals(s, start, end, CredentialKind::Enrollment.to_wire()) {
            Some(CredentialKind::Enrollment)
        } else if range_equals(s, start, end, CredentialKind::Runtime.to_wire()) {
            Some(CredentialKind::Runtime)
        } else {
            None
        }
    }
}

/// Why a wire value was rejected. Carries no part of the input.
#[derive(Debug, Clone, Copy, PartialEq, Eq, Structural)]
pub enum PresentedCredentialParseError {
    UnsupportedVersion,
    UnknownKind,
    MalformedStructure,
    InvalidLookupIdEncoding,
    InvalidLookupIdLength,
    InvalidSecretEncoding,
    InvalidSecretLength,
}

/// The non-secret lookup/routing key of a presented credential: 16 bytes.
/// Possession of it alone never authenticates anything.
#[derive(Clone, Copy, PartialEq, Eq)]
pub struct CredentialLookupId([u8; 16]);

impl core::fmt::Debug for CredentialLookupId {
    /// Prints `CredentialLookupId("<base64url text>")`, the identifier's
    /// wire form.
    #[verifier::external_body]
    fn fmt(&self, f: &mut core::fmt::Formatter<'_>) -> core::fmt::Result {
        let text = base64::Engine::encode(&base64::engine::general_purpose::URL_SAFE_NO_PAD, self.0);
        f.debug_tuple("CredentialLookupId").field(&text).finish()
    }
}

impl View for CredentialLookupId {
    type V = Seq<u8>;

    closed spec fn view(&self) -> Seq<u8> {
        self.0@
    }
}

impl CredentialLookupId {
    /// Every lookup identifier is 16 bytes.
    pub broadcast proof fn lemma_len(id: CredentialLookupId)
        ensures
            #[trigger] id@.len() == 16,
    {
    }

    /// A fresh lookup identifier from the operating system's CSPRNG.
    pub fn generate() -> (res: Self) {
        CredentialLookupId(os_random_bytes::<16>())
    }

    pub fn from_bytes(bytes: [u8; 16]) -> (res: Self)
        ensures
            res@ == bytes@,
    {
        CredentialLookupId(bytes)
    }

    pub fn to_bytes(&self) -> (res: [u8; 16])
        ensures
            res@ == self@,
    {
        self.0
    }

    /// Whether both identifiers hold the same bytes.
    pub fn same_as(&self, other: &CredentialLookupId) -> (res: bool)
        ensures
            res == (self@ == other@),
    {
        bytes_equal(&self.0, &other.0)
    }

    /// The base64url (no padding) text of the identifier.
    pub fn to_wire(&self) -> (res: String)
        ensures
            res@ == b64url_encode(self@),
            res@.len() == 22,
            free_of(res@, '.'),
            b64url_decode(res@) == Some(self@),
    {
        let res = base64url_encode(&self.0);
        assert(b64url_encoded_len(16) == 22);
        proof {
            assert forall|i: int| 0 <= i < res@.len() implies res@[i] != '.' by {
                assert(is_b64url_char(res@[i]));
            }
        }
        res
    }

    fn from_wire(s: &str) -> (res: Result<Self, PresentedCredentialParseError>)
        ensures
            match b64url_decode(s@) {
                None => res == Err::<Self, _>(PresentedCredentialParseError::InvalidLookupIdEncoding),
                Some(b) => if b.len() != 16 {
                    res == Err::<Self, _>(PresentedCredentialParseError::InvalidLookupIdLength)
                } else {
                    res matches Ok(id) && id@ == b
                },
            },
            res matches Ok(id) ==> b64url_encode(id@) == s@,
    {
        match base64url_decode(s) {
            Err(_) => Err(PresentedCredentialParseError::InvalidLookupIdEncoding),
            Ok(decoded) => {
                if decoded.len() != 16 {
                    Err(PresentedCredentialParseError::InvalidLookupIdLength)
                } else {
                    Ok(CredentialLookupId(array_from_slice::<16>(decoded.as_slice())))
                }
            },
        }
    }
}

/// High-entropy secret material of a presented credential: 32 bytes.
/// Its `Debug` output never shows the bytes.
#[derive(Clone, Copy, PartialEq, Eq)]
pub struct PresentedCredentialSecret([u8; 32]);

impl core::fmt::Debug for PresentedCredentialSecret {
    /// Prints `PresentedCredentialSecret("REDACTED")`.
    #[verifier::external_body]
    fn fmt(&self, f: &mut core::fmt::Formatter<'_>) -> core::fmt::Result {
        f.debug_tuple("PresentedCredentialSecret").field(&"REDACTED").finish()
    }
}

impl View for PresentedCredentialSecret {
    type V = Seq<u8>;

    closed spec fn view(&self) -> Seq<u8> {
        self.0@
    }
}

impl PresentedCredentialSecret {
    /// Every secret is 32 bytes.
    pub broadcast proof fn lemma_len(secret: PresentedCredentialSecret)
        ensures
            #[trigger] secret@.len() == 32,
    {
    }

    /// Fresh secret material from the operating system's CSPRNG.
    pub fn generate() -> (res: Self) {
        PresentedCredentialSecret(os_random_bytes::<32>())
    }

    /// The raw secret bytes: an explicit, deliberately named accessor.
    pub fn expose_secret_bytes(&self) -> (res: &[u8; 32])
        ensures
            res@ == self@,
    {
        &self.0
    }

    /// The base64url (no padding) text of the secret.
    pub fn to_wire(&self) -> (res: String)
        ensures
            res@ == b64url_encode(self@),
            res@.len() == 43,
            free_of(res@, '.'),
            b64url_decode(res@) == Some(self@),
    {
        let res = base64url_encode(&self.0);
        assert(b64url_encoded_len(32) == 43);
        proof {
            assert forall|i: int| 0 <= i < res@.len() implies res@[i] != '.' by {
                assert(is_b64url_char(res@[i]));
            }
        }
        res
    }

    fn from_wire(s: &str) -> (res: Result<Self, PresentedCredentialParseError>)
        ensures
            match b64url_decode(s@) {
                None => res == Err::<Self, _>(PresentedCredentialParseError::InvalidSecretEncoding),
                Some(b) => if b.len() != 32 {
                    res == Err::<Self, _>(PresentedCredentialParseError::InvalidSecretLength)
                } else {
                    res matches Ok(secret) && secret@ == b
                },
            },
            res matches Ok(secret) ==> b64url_encode(secret@) == s@,
    {
        match base64url_decode(s) {
            Err(_) => Err(PresentedCredentialParseError::InvalidSecretEncoding),
            Ok(decoded) => {
                if decoded.len() != 32 {
                    Err(PresentedCredentialParseError::InvalidSecretLength)
                } else {
                    Ok(PresentedCredentialSecret(array_from_slice::<32>(decoded.as_slice())))
                }
            },
        }
    }
}

/// The parsed parts of a presented credential.
pub struct PresentedCredentialView {
    pub kind: CredentialKind,
    pub lookup_id: Seq<u8>,
    pub secret: Seq<u8>,
}

/// A presented credential: kind, non-secret lookup identifier and secret
/// material kept as three distinct fields. Its `Debug` output redacts the
/// secret.
#[derive(Clone, Copy, PartialEq, Eq)]
pub struct PresentedCredential {
    kind: CredentialKind,
    lookup_id: CredentialLookupId,
    secret: PresentedCredentialSecret,
}

impl core::fmt::Debug for PresentedCredential {
    /// Prints the kind and lookup identifier, and `"REDACTED"` for the secret.
    #[verifier::external_body]
    fn fmt(&self, f: &mut core::fmt::Formatter<'_>) -> core::fmt::Result {
        f.debug_struct("PresentedCredential")
            .field("kind", &self.kind)
            .field("lookup_id", &self.lookup_id)
            .field("secret", &"REDACTED")
            .finish()
    }
}

impl View for PresentedCredential {
    type V = PresentedCredentialView;

    closed spec fn view(&self) -> PresentedCredentialView {
        PresentedCredentialView { kind: self.kind, lookup_id: self.lookup_id@, secret: self.secret@ }
    }
}

/// The wire text of a credential with the given parts.
pub open spec fn wire_text(c: PresentedCredentialView) -> Seq<char> {
    version_tag() + seq!['.'] + kind_tag(c.kind) + seq!['.'] + b64url_encode(c.lookup_id) + seq![
        '.',
    ] + b64url_encode(c.secret)
}

/// What parsing a wire text yields: the structural checks in order, then
/// the version tag, the kind tag, and the two base64url fields.
pub open spec fn parse_spec(s: Seq<char>) -> Result<PresentedCredentialView, PresentedCredentialParseError> {
    let segs = split_on(s, '.');
    if segs.len() != 4 || segs[0].len() == 0 || segs[1].len() == 0 || segs[2].len() == 0
        || segs[3].len() == 0 {
        Err(PresentedCredentialParseError::MalformedStructure)
    } else if segs[0] != version_tag() {
        Err(PresentedCredentialParseError::UnsupportedVersion)
    } else if kind_from_tag(segs[1]) is None {
        Err(PresentedCredentialParseError::UnknownKind)
    } else {
        match b64url_decode(segs[2]) {
            None => Err(PresentedCredentialParseError::InvalidLookupIdEncoding),
            Some(lookup_id) => if lookup_id.len() != 16 {
                Err(PresentedCredentialParseError::InvalidLookupIdLength)
            } else {
                match b64url_decode(segs[3]) {
                    None => Err(PresentedCredentialParseError::InvalidSecretEncoding),
                    Some(secret) => if secret.len() != 32 {
                        Err(PresentedCredentialParseError::InvalidSecretLength)
                    } else {
                        Ok(
                            PresentedCredentialView {
                                kind: kind_from_tag(segs[1]).unwrap(),
                                lookup_id,
                                secret,
                            },
                        )
                    },
                }
            },
        }
    }
}

impl PresentedCredential {
    pub broadcast proof fn lemma_lens(c: PresentedCredential)
        ensures
            #[trigger] c@.lookup_id.len() == 16,
            c@.secret.len() == 32,
    {
    }

    /// A fresh credential of the given kind: new random lookup identifier and
    /// new random secret material.
    pub fn generate(kind: CredentialKind) -> (res: Self)
        ensures
            res@.kind == kind,
    {
        PresentedCredential {
            kind,
            lookup_id: CredentialLookupId::generate(),
            secret: PresentedCredentialSecret::generate(),
        }
    }

    pub fn kind(&self) -> (res: CredentialKind)
        ensures
            res == self@.kind,
    {
        self.kind
    }

    pub fn lookup_id(&self) -> (res: &CredentialLookupId)
        ensures
            res@ == self@.lookup_id,
    {
        &self.lookup_id
    }

    pub fn secret(&self) -> (res: &PresentedCredentialSecret)
        ensures
            res@ == self@.secret,
    {
        &self.secret
    }

    /// Serializes into the one opaque wire string; parsing that string gives
    /// back this credential.
    pub fn to_wire_value(&self) -> (res: String)
        ensures
            res@ == wire_text(self@),
            parse_spec(res@) == Ok::<PresentedCredentialView, PresentedCredentialParseError>(self@),
    {
        let lookup = self.lookup_id.to_wire();
        let secret = self.secret.to_wire();
        let mut out = String::from_str("v1");
        out.append(".");
        out.append(self.kind.to_wire());
        out.append(".");
        out.append(lookup.as_str());
        out.append(".");
        out.append(secret.as_str());
        proof {
            reveal_strlit("v1");
            reveal_strlit(".");
            let v = version_tag();
            let k = kind_tag(self.kind);
            assert(out@ =~= wire_text(self@));
            assert(free_of(v, '.'));
            assert(free_of(k, '.'));
            lemma_split_free(v, '.');
            lemma_split_free(k, '.');
            lemma_split_free(lookup@, '.');
            lemma_split_free(secret@, '.');
            lemma_split_concat(v + seq!['.'] + k + seq!['.'] + lookup@, secret@, '.');
            lemma_split_concat(v + seq!['.'] + k, lookup@, '.');
            lemma_split_concat(v, k, '.');
            let segs = split_on(out@, '.');
            assert(segs =~= seq![v, k, lookup@, secret@]);
            assert(kind_from_tag(k) == Some(self.kind));
        }
        out
    }

    /// Parses a wire value produced by [`to_wire_value`](Self::to_wire_value).
    /// Any malformed or unsupported value is rejected explicitly; a value
    /// that parses is the canonical wire text of what it parses to.
    pub fn parse(wire: &str) -> (res: Result<Self, PresentedCredentialParseError>)
        ensures
            match res {
                Ok(c) => parse_spec(wire@) == Ok::<_, PresentedCredentialParseError>(c@),
                Err(e) => parse_spec(wire@) == Err::<PresentedCredentialView, _>(e),
            },
            res matches Ok(c) ==> wire_text(c@) == wire@,
    {
        let bounds = split_bounds(wire, '.');
        let ghost segs = split_on(wire@, '.');
        if bounds.len() != 4 {
            return Err(PresentedCredentialParseError::MalformedStructure);
        }
        let (v0, v1) = bounds[0];
        let (k0, k1) = bounds[1];
        let (l0, l1) = bounds[2];
        let (s0, s1) = bounds[3];
        assert(segs[0] == wire@.subrange(v0 as int, v1 as int));
        assert(segs[1] == wire@.subrange(k0 as int, k1 as int));
        assert(segs[2] == wire@.subrange(l0 as int, l1 as int));
        assert(segs[3] == wire@.subrange(s0 as int, s1 as int));
        if v0 == v1 || k0 == k1 || l0 == l1 || s0 == s1 {
            return Err(PresentedCredentialParseError::MalformedStructure);
        }
        let version = "v1";
        proof {
            reveal_strlit("v1");
            assert(version@ =~= version_tag());
        }
        if !range_equals(wire, v0, v1, version) {
            return Err(PresentedCredentialParseError::UnsupportedVersion);
        }
        let kind = match CredentialKind::from_wire_range(wire, k0, k1) {
            Some(kind) => kind,
            None => {
                return Err(PresentedCredentialParseError::UnknownKind);
            },
        };
        let lookup_id = CredentialLookupId::from_wire(wire.substring_char(l0, l1))?;
        let secret = PresentedCredentialSecret::from_wire(wire.substring_char(s0, s1))?;
        proof {
            lemma_four_pieces(wire@, '.');
            assert(kind_tag(kind) == segs[1]);
        }
        Ok(PresentedCredential { kind, lookup_id, secret })
    }
}

} // verus!
