//! Assertion schema V1, exact wire representation: a 133-byte signed
//! transcript followed by a 64-byte Ed25519 signature, carried as the
//! 263-character canonical base64url-without-padding text. Parsing is strict
//! and canonical, never best-effort.
//!
//! Transcript layout: `u16be(33) || domain[33] || u16be(1) || boot_nonce[32]
//! || expected_server_fingerprint[32] || site_key_id[32]`.
use vstd::prelude::*;

use crate::bytes::{array_from_slice, copy_into};
use crate::primitives::base64url::{
    b64url_decode, b64url_encode, b64url_encoded_len, base64url_decode, base64url_encode,
};
use crate::text::{all_canonical_base64url, canonical_base64url_byte, lemma_b64url_text_bytes, str_equal};

verus! {

/// The exact 33-byte ASCII domain/contract discriminator.
pub const DOMAIN_DISCRIMINATOR: [u8; 33] = [
    98, 97, 109, 101, 112, 46, 116, 114, 117, 115, 116, 101, 100, 45, 98, 111, 111, 116, 115, 116,
    114, 97, 112, 46, 97, 115, 115, 101, 114, 116, 105, 111, 110,
];

pub const SCHEMA_VERSION: u16 = 1;

pub const TRANSCRIPT_LEN: usize = 133;

pub const SIGNATURE_LEN: usize = 64;

pub const ASSERTION_LEN: usize = 197;

pub const CARRIER_LEN: usize = 263;

pub const NONCE_OFFSET: usize = 37;

pub const FINGERPRINT_OFFSET: usize = 69;

pub const SITE_KEY_ID_OFFSET: usize = 101;

/// The bytes of `bamep.trusted-bootstrap.assertion`.
pub open spec fn domain_discriminator() -> Seq<u8> {
    seq![
        98u8, 97, 109, 101, 112, 46, 116, 114, 117, 115, 116, 101, 100, 45, 98, 111, 111, 116, 115,
        116, 114, 97, 112, 46, 97, 115, 115, 101, 114, 116, 105, 111, 110,
    ]
}

/// The exact V1 signed transcript for the given fields.
pub open spec fn transcript_v1(boot_nonce: Seq<u8>, fingerprint: Seq<u8>, site_key_id: Seq<u8>) -> Seq<u8> {
    seq![0u8, 33u8] + domain_discriminator() + seq![0u8, 1u8] + boot_nonce + fingerprint + site_key_id
}

/// A big-endian `u16` read from two bytes.
pub open spec fn u16_be(hi: u8, lo: u8) -> int {
    hi * 256 + lo
}

#[derive(Debug, Clone, Copy, PartialEq, Eq, Structural)]
pub enum AssertionParseError {
    CarrierLength,
    CarrierCharacters,
    CarrierEncoding,
    CarrierNonCanonical,
    AssertionLength,
    DomainLength,
    DomainDiscriminator,
    UnsupportedSchemaVersion,
}

/// The first header field of a decoded 197-byte assertion that is wrong:
/// the domain length prefix, then the discriminator, then the schema
/// version.
pub open spec fn header_error(bytes: Seq<u8>) -> Option<AssertionParseError> {
    if u16_be(bytes[0], bytes[1]) != 33 {
        Some(AssertionParseError::DomainLength)
    } else if bytes.subrange(2, 35) != domain_discriminator() {
        Some(AssertionParseError::DomainDiscriminator)
    } else if u16_be(bytes[35], bytes[36]) != 1 {
        Some(AssertionParseError::UnsupportedSchemaVersion)
    } else {
        None
    }
}

/// What strict carrier parsing yields: length (in UTF-8 bytes), alphabet,
/// decoding, decoded length, canonical re-encoding, then the header.
pub open spec fn assertion_parse(s: Seq<char>) -> Result<Seq<u8>, AssertionParseError> {
    let text_bytes = vstd::utf8::encode_utf8(s);
    if text_bytes.len() != 263 {
        Err(AssertionParseError::CarrierLength)
    } else if !(forall|i: int| 0 <= i < text_bytes.len() ==> canonical_base64url_byte(#[trigger] text_bytes[i])) {
        Err(AssertionParseError::CarrierCharacters)
    } else {
        match b64url_decode(s) {
            None => Err(AssertionParseError::CarrierEncoding),
            Some(bytes) => if bytes.len() != 197 {
                Err(AssertionParseError::AssertionLength)
            } else if b64url_encode(bytes) != s {
                Err(AssertionParseError::CarrierNonCanonical)
            } else {
                match header_error(bytes) {
                    Some(e) => Err(e),
                    None => Ok(bytes),
                }
            },
        }
    }
}

/// The 197 canonical assertion bytes, kept as transcript and signature.
#[derive(Clone, Copy, PartialEq, Eq, Debug)]
pub struct BootstrapAssertion {
    transcript: [u8; 133],
    signature: [u8; 64],
}

impl View for BootstrapAssertion {
    type V = Seq<u8>;

    closed spec fn view(&self) -> Seq<u8> {
        self.transcript@ + self.signature@
    }
}

/// The domain discriminator as an array.
fn domain_discriminator_bytes() -> (res: [u8; 33])
    ensures
        res@ == domain_discriminator(),
{
    let res: [u8; 33] = [
        98, 97, 109, 101, 112, 46, 116, 114, 117, 115, 116, 101, 100, 45, 98, 111, 111, 116, 115,
        116, 114, 97, 112, 46, 97, 115, 115, 101, 114, 116, 105, 111, 110,
    ];
    assert(res@ =~= domain_discriminator());
    res
}

/// Builds the exact 133-byte V1 signed transcript.
pub fn build_transcript_v1(boot_nonce: &[u8; 32], server_fingerprint: &[u8; 32], site_key_id: &[u8; 32]) -> (res: [u8; 133])
    ensures
        res@ == transcript_v1(boot_nonce@, server_fingerprint@, site_key_id@),
{
    let mut buf = [0u8; 133];
    let prefix: [u8; 2] = [0, 33];
    let version: [u8; 2] = [0, 1];
    let domain = domain_discriminator_bytes();
    copy_into(&mut buf, 0, &prefix);
    copy_into(&mut buf, 2, &domain);
    copy_into(&mut buf, 35, &version);
    copy_into(&mut buf, NONCE_OFFSET, boot_nonce);
    copy_into(&mut buf, FINGERPRINT_OFFSET, server_fingerprint);
    copy_into(&mut buf, SITE_KEY_ID_OFFSET, site_key_id);
    assert(buf@ =~= transcript_v1(boot_nonce@, server_fingerprint@, site_key_id@));
    buf
}

impl BootstrapAssertion {
    pub broadcast proof fn lemma_len(a: BootstrapAssertion)
        ensures
            #[trigger] a@.len() == 197,
    {
    }

    /// Strict carrier parsing: exact 263-character canonical carrier,
    /// canonical re-encode-and-compare, exact length, domain discriminator
    /// and schema version.
    pub fn parse_wire_value(carrier: &str) -> (res: Result<Self, AssertionParseError>)
        ensures
            match res {
                Ok(a) => assertion_parse(carrier@) == Ok::<Seq<u8>, AssertionParseError>(a@),
                Err(e) => assertion_parse(carrier@) == Err::<Seq<u8>, AssertionParseError>(e),
            },
    {
        let text_bytes = carrier.as_bytes();
        if text_bytes.len() != CARRIER_LEN {
            return Err(AssertionParseError::CarrierLength);
        }
        if !all_canonical_base64url(text_bytes) {
            return Err(AssertionParseError::CarrierCharacters);
        }
        let decoded = match base64url_decode(carrier) {
            Ok(d) => d,
            Err(_) => {
                return Err(AssertionParseError::CarrierEncoding);
            },
        };
        if decoded.len() != ASSERTION_LEN {
            return Err(AssertionParseError::AssertionLength);
        }
        let all = decoded.as_slice();
        let candidate = BootstrapAssertion {
            transcript: array_from_slice::<133>(&all[0..133]),
            signature: array_from_slice::<64>(&all[133..197]),
        };
        assert(candidate@ =~= decoded@);
        let reencoded = candidate.to_wire_value();
        if !str_equal(reencoded.as_str(), carrier) {
            return Err(AssertionParseError::CarrierNonCanonical);
        }
        candidate.validate_header()?;
        Ok(candidate)
    }

    fn validate_header(&self) -> (res: Result<(), AssertionParseError>)
        ensures
            match header_error(self@) {
                Some(e) => res == Err::<(), AssertionParseError>(e),
                None => res is Ok,
            },
    {
        let t = &self.transcript;
        let domain_len: u16 = (t[0] as u16) * 256 + (t[1] as u16);
        if domain_len != 33 {
            return Err(AssertionParseError::DomainLength);
        }
        let domain = domain_discriminator_bytes();
        if !crate::bytes::bytes_equal(&t[2..35], &domain) {
            assert(self@.subrange(2, 35) =~= t@.subrange(2, 35));
            return Err(AssertionParseError::DomainDiscriminator);
        }
        assert(self@.subrange(2, 35) =~= t@.subrange(2, 35));
        let schema_version: u16 = (t[35] as u16) * 256 + (t[36] as u16);
        if schema_version != SCHEMA_VERSION {
            return Err(AssertionParseError::UnsupportedSchemaVersion);
        }
        Ok(())
    }

    /// The canonical carrier text; for an assertion whose header is valid,
    /// strict parsing of it gives back this assertion.
    pub fn to_wire_value(&self) -> (res: String)
        ensures
            res@ == b64url_encode(self@),
            res@.len() == 263,
            header_error(self@) is None ==> assertion_parse(res@) == Ok::<Seq<u8>, AssertionParseError>(self@),
    {
        let mut all: Vec<u8> = Vec::new();
        let mut i: usize = 0;
        while i < 133
            invariant
                i <= 133,
                all@ == self.transcript@.subrange(0, i as int),
            decreases 133 - i,
        {
            all.push(self.transcript[i]);
            i = i + 1;
            assert(all@ =~= self.transcript@.subrange(0, i as int));
        }
        let mut j: usize = 0;
        while j < 64
            invariant
                j <= 64,
                all@ == self.transcript@ + self.signature@.subrange(0, j as int),
            decreases 64 - j,
        {
            all.push(self.signature[j]);
            j = j + 1;
            assert(all@ =~= self.transcript@ + self.signature@.subrange(0, j as int));
        }
        assert(all@ =~= self@);
        let res = base64url_encode(all.as_slice());
        proof {
            assert(b64url_encoded_len(197) == 263);
            lemma_b64url_text_bytes(res@);
        }
        res
    }

    pub fn boot_nonce_bytes(&self) -> (res: [u8; 32])
        ensures
            res@ == self@.subrange(37, 69),
    {
        assert(self@.subrange(37, 69) =~= self.transcript@.subrange(37, 69));
        array_from_slice::<32>(&self.transcript[37..69])
    }

    pub fn server_fingerprint_bytes(&self) -> (res: [u8; 32])
        ensures
            res@ == self@.subrange(69, 101),
    {
        assert(self@.subrange(69, 101) =~= self.transcript@.subrange(69, 101));
        array_from_slice::<32>(&self.transcript[69..101])
    }

    pub fn site_key_id_bytes(&self) -> (res: [u8; 32])
        ensures
            res@ == self@.subrange(101, 133),
    {
        assert(self@.subrange(101, 133) =~= self.transcript@.subrange(101, 133));
        array_from_slice::<32>(&self.transcript[101..133])
    }

    pub fn signature_bytes(&self) -> (res: [u8; 64])
        ensures
            res@ == self@.subrange(133, 197),
    {
        assert(self@.subrange(133, 197) =~= self.signature@);
        self.signature
    }

    pub fn transcript_bytes(&self) -> (res: &[u8; 133])
        ensures
            res@ == self@.subrange(0, 133),
    {
        assert(self@.subrange(0, 133) =~= self.transcript@);
        &self.transcript
    }

    /// The complete assertion from a transcript and its signature. No
    /// header check: parsing is the only way to accept outside input.
    pub fn from_signed_transcript(transcript: [u8; 133], signature: [u8; 64]) -> (res: Self)
        ensures
            res@ == transcript@ + signature@,
    {
        BootstrapAssertion { transcript, signature }
    }
}

} // verus!
