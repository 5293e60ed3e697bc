//! `BootNonce` V1: exactly 32 random bytes generated fresh for every new
//! boot context. Its only wire representation is base64url without
//! padding, exactly 43 ASCII characters, parsed strictly.
use vstd::prelude::*;

use crate::bytes::array_from_slice;
use crate::primitives::base64url::{
    b64url_decode, b64url_encode, b64url_encoded_len, base64url_decode, base64url_encode,
};
use crate::primitives::entropy::getrandom_bytes;
use crate::text::{all_canonical_base64url, canonical_base64url_byte, lemma_b64url_text_bytes, str_equal};

verus! {

pub const BOOT_NONCE_BYTES: usize = 32;

pub const BOOT_NONCE_WIRE_LEN: usize = 43;

/// The trusted-bootstrap freshness primitive.
#[derive(Clone, Copy, PartialEq, Eq, Debug, Hash)]
pub struct BootNonce([u8; 32]);

impl View for BootNonce {
    type V = Seq<u8>;

    closed spec fn view(&self) -> Seq<u8> {
        self.0@
    }
}

#[derive(Debug, Clone, Copy, PartialEq, Eq)]
pub enum BootNonceError {
    /// Secure randomness could not be obtained.
    Entropy(getrandom::Error),
    WireLength,
    InvalidCharacters,
    InvalidEncoding,
    InvalidDecodedLength,
    NonCanonical,
}

/// What strict parsing of a wire value yields: length (in UTF-8 bytes),
/// alphabet, decoding, decoded length, then canonical re-encoding.
pub open spec fn boot_nonce_parse(s: Seq<char>) -> Result<Seq<u8>, BootNonceError> {
    let bytes = vstd::utf8::encode_utf8(s);
    if bytes.len() != 43 {
        Err(BootNonceError::WireLength)
    } else if !(forall|i: int| 0 <= i < bytes.len() ==> canonical_base64url_byte(#[trigger] bytes[i])) {
        Err(BootNonceError::InvalidCharacters)
    } else {
        match b64url_decode(s) {
            None => Err(BootNonceError::InvalidEncoding),
            Some(decoded) => if decoded.len() != 32 {
                Err(BootNonceError::InvalidDecodedLength)
            } else if b64url_encode(decoded) != s {
                Err(BootNonceError::NonCanonical)
            } else {
                Ok(decoded)
            },
        }
    }
}

impl BootNonce {
    pub broadcast proof fn lemma_len(n: BootNonce)
        ensures
            #[trigger] n@.len() == 32,
    {
    }

    /// A fresh nonce from the operating system's CSPRNG; failure to obtain
    /// secure randomness is reported, never replaced by a weaker source.
    pub fn generate() -> (res: Result<Self, BootNonceError>)
        ensures
            res is Err ==> res matches Err(BootNonceError::Entropy(_)),
    {
        match getrandom_bytes::<32>() {
            Ok(bytes) => Ok(BootNonce(bytes)),
            Err(e) => Err(BootNonceError::Entropy(e)),
        }
    }

    /// Deterministic construction, for fixtures and tests.
    pub fn from_bytes(bytes: [u8; 32]) -> (res: Self)
        ensures
            res@ == bytes@,
    {
        BootNonce(bytes)
    }

    pub fn as_bytes(&self) -> (res: &[u8; 32])
        ensures
            res@ == self@,
    {
        &self.0
    }

    /// Whether both nonces hold the same bytes.
    pub fn same_as(&self, other: &BootNonce) -> (res: bool)
        ensures
            res == (self@ == other@),
    {
        crate::bytes::bytes_equal(&self.0, &other.0)
    }

    /// The canonical 43-character wire value; parsing it gives back this
    /// nonce.
    pub fn to_wire_value(&self) -> (res: String)
        ensures
            res@ == b64url_encode(self@),
            res@.len() == 43,
            boot_nonce_parse(res@) == Ok::<Seq<u8>, BootNonceError>(self@),
    {
        let res = base64url_encode(&self.0);
        proof {
            assert(b64url_encoded_len(32) == 43);
            lemma_b64url_text_bytes(res@);
        }
        res
    }

    /// Strict parsing: exact length, canonical alphabet only, decoding to
    /// exactly 32 bytes, and a re-encode-and-compare against the input.
    pub fn parse_wire_value(value: &str) -> (res: Result<Self, BootNonceError>)
        ensures
            match res {
                Ok(n) => boot_nonce_parse(value@) == Ok::<Seq<u8>, BootNonceError>(n@),
                Err(e) => boot_nonce_parse(value@) == Err::<Seq<u8>, BootNonceError>(e),
            },
    {
        let bytes = value.as_bytes();
        if bytes.len() != BOOT_NONCE_WIRE_LEN {
            return Err(BootNonceError::WireLength);
        }
        if !all_canonical_base64url(bytes) {
            return Err(BootNonceError::InvalidCharacters);
        }
        let decoded = match base64url_decode(value) {
            Ok(d) => d,
            Err(_) => {
                return Err(BootNonceError::InvalidEncoding);
            },
        };
        if decoded.len() != BOOT_NONCE_BYTES {
            return Err(BootNonceError::InvalidDecodedLength);
        }
        let candidate = BootNonce(array_from_slice::<32>(decoded.as_slice()));
        let reencoded = candidate.to_wire_value();
        if !str_equal(reencoded.as_str(), value) {
            return Err(BootNonceError::NonCanonical);
        }
        Ok(candidate)
    }
}

} // verus!
