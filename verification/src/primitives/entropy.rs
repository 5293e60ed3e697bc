//! Values that come from the operating system: secure random bytes, random
//! version-4 UUIDs, and the wall clock. Nothing is named of them: two calls
//! may return different values.
use rand::RngCore;
use vstd::prelude::*;

use crate::time::{MAX_INSTANT_SECONDS, NANOS_PER_SECOND};

verus! {

/// The outside error type that `getrandom::getrandom` returns.
#[verifier::external_type_specification]
#[verifier::external_body]
pub struct ExGetrandomError(getrandom::Error);

/// Fills an array through `rand::rngs::OsRng::fill_bytes`.
///
/// Nothing is promised of the bytes. `OsRng::fill_bytes` aborts the thread
/// when the operating system cannot supply entropy; that case is not stated.
#[verifier::external_body]
pub(crate) fn os_random_bytes<const N: usize>() -> (res: [u8; N]) {
    let mut bytes = [0u8; N];
    rand::rngs::OsRng.fill_bytes(&mut bytes);
    bytes
}

/// Fills an array through `getrandom::getrandom`, reporting its error.
///
/// Nothing is promised of the bytes or of when an error comes.
#[verifier::external_body]
pub(crate) fn getrandom_bytes<const N: usize>() -> (res: Result<[u8; N], getrandom::Error>) {
    let mut bytes = [0u8; N];
    getrandom::getrandom(&mut bytes)?;
    Ok(bytes)
}

/// The version field of a UUID given as its 128-bit big-endian value: the
/// high nibble of byte 6.
pub open spec fn uuid_version_field(value: u128) -> u128 {
    (value >> 76u128) & 0xfu128
}

/// Calls `uuid::Uuid::new_v4()` and returns its 128-bit value
/// (`Uuid::as_u128`).
///
/// Trusted: only that the version field is 4, which `new_v4` sets on every
/// value it returns. The other bits are random and nothing is said of them.
#[verifier::external_body]
pub(crate) fn random_uuid_v4() -> (res: u128)
    ensures
        uuid_version_field(res) == 4,
{
    uuid::Uuid::new_v4().as_u128()
}

/// Calls `uuid::Uuid::from_u128(value).get_version_num()`.
///
/// Trusted: the result is the high nibble of byte 6 of the big-endian
/// bytes, which is how `get_version_num` is written.
#[verifier::external_body]
pub(crate) fn uuid_version_num(value: u128) -> (res: usize)
    ensures
        res as u128 == uuid_version_field(value),
{
    uuid::Uuid::from_u128(value).get_version_num()
}

/// Reads the wall clock through `chrono::Utc::now()`, as whole seconds
/// (`timestamp`) and nanoseconds past the second (`timestamp_subsec_nanos`)
/// since the epoch.
///
/// Trusted: only what holds of every reading. `Utc::now` builds its value
/// from the system time elapsed since the epoch, so the seconds are not
/// negative and the subsecond part is below one second, and no
/// `DateTime<Utc>` lies after `DateTime::<Utc>::MAX_UTC`. Nothing is said of
/// the instant itself. `Utc::now` panics when the system clock reads before
/// the epoch; that case is not stated.
#[verifier::external_body]
pub(crate) fn wall_clock() -> (res: (i64, u32))
    ensures
        0 <= res.0 <= MAX_INSTANT_SECONDS,
        res.1 < NANOS_PER_SECOND,
{
    let now = chrono::Utc::now();
    (now.timestamp(), now.timestamp_subsec_nanos())
}

} // verus!
