//! RFC 4648 "base64url" without padding, as implemented by the `base64`
//! crate's `URL_SAFE_NO_PAD` engine.
use base64::engine::general_purpose::URL_SAFE_NO_PAD;
use base64::Engine as _;
use vstd::prelude::*;

verus! {

/// The outside error type that a failed decode returns.
#[verifier::external_type_specification]
#[verifier::external_body]
pub struct ExDecodeError(base64::DecodeError);

/// What `URL_SAFE_NO_PAD.encode` returns for the given bytes.
pub uninterp spec fn b64url_encode(bytes: Seq<u8>) -> Seq<char>;

/// What `URL_SAFE_NO_PAD.decode` returns for the given text: `Some` with the
/// decoded bytes, or `None` when it reports an error.
pub uninterp spec fn b64url_decode(text: Seq<char>) -> Option<Seq<u8>>;

/// The characters of the URL-safe alphabet: `A-Z`, `a-z`, `0-9`, `-`, `_`.
pub open spec fn is_b64url_char(c: char) -> bool {
    ('A' <= c <= 'Z') || ('a' <= c <= 'z') || ('0' <= c <= '9') || c == '-' || c == '_'
}

/// Length of the unpadded encoding of `n` bytes: four characters per
/// complete three-byte group, plus two or three for a trailing partial group.
pub open spec fn b64url_encoded_len(n: nat) -> nat {
    4 * (n / 3) + if n % 3 == 0 {
        0
    } else {
        n % 3 + 1
    }
}

/// Calls `base64::engine::general_purpose::URL_SAFE_NO_PAD.encode`.
///
/// Trusted: the result is the named encoding of `bytes`; it has the
/// documented unpadded length, uses only the URL-safe alphabet, and decodes
/// back to `bytes` under the same engine.
#[verifier::external_body]
pub(crate) fn base64url_encode(bytes: &[u8]) -> (res: String)
    requires
        bytes@.len() <= 3 * (usize::MAX / 4),
    ensures
        res@ == b64url_encode(bytes@),
        res@.len() == b64url_encoded_len(bytes@.len()),
        forall|i: int| 0 <= i < res@.len() ==> is_b64url_char(#[trigger] res@[i]),
        b64url_decode(res@) == Some(bytes@),
{
    URL_SAFE_NO_PAD.encode(bytes)
}

/// Calls `base64::engine::general_purpose::URL_SAFE_NO_PAD.decode`.
///
/// Trusted: `Ok` exactly when the named decoding of `text` is `Some`, and
/// then with those bytes; and then `text` is the encoding of those bytes.
/// The `NO_PAD` configuration rejects padding, and the engine rejects
/// non-canonical trailing bits (`decode_allow_trailing_bits` is `false`),
/// so only the canonical encoding of a value decodes.
#[verifier::external_body]
pub(crate) fn base64url_decode(text: &str) -> (res: Result<Vec<u8>, base64::DecodeError>)
    ensures
        match res {
            Ok(v) => b64url_decode(text@) == Some(v@) && b64url_encode(v@) == text@,
            Err(_) => b64url_decode(text@) is None,
        },
{
    URL_SAFE_NO_PAD.decode(text)
}

} // verus!
