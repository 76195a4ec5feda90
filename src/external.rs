//! Calls into outside crates, each behind a contract stated from that crate's
//! documented behaviour.

use vstd::prelude::*;
use vstd::arithmetic::power2::pow2;
use vstd::utf8::{decode_utf8, valid_utf8};
use crate::encoding::{be_value, hex_text};
use num_traits::One;
use sha2::Digest;

verus! {

/// What SHA-256 yields for the message `s`.
pub uninterp spec fn sha256_of(s: Seq<u8>) -> Seq<u8>;

/// Relies on sha2::Sha256::digest: the 32-byte SHA-256 digest of `data`.
#[verifier::external_body]
pub(crate) fn sha256_digest(data: &[u8]) -> (r: [u8; 32])
    ensures
        r@ == sha256_of(data@),
{
    let mut out = [0u8; 32];
    out.copy_from_slice(&sha2::Sha256::digest(data));
    out
}

/// Relies on num_bigint: `BigUint::from_bytes_be` reads `bytes` as a big-endian
/// unsigned integer, `One::one() << exp` is two to the power `exp`, and `<`
/// on `BigUint` is the numeric order.
#[verifier::external_body]
pub(crate) fn be_below_pow2(bytes: &[u8], exp: u16) -> (r: bool)
    ensures
        r == (be_value(bytes@) < pow2(exp as nat)),
{
    let one: num_bigint::BigUint = One::one();
    num_bigint::BigUint::from_bytes_be(bytes) < (one << exp)
}

/// Relies on time::OffsetDateTime::now_utc and unix_timestamp: the current
/// wall-clock time in whole seconds since the Unix epoch. Nothing is promised
/// of the value.
#[verifier::external_body]
pub(crate) fn now_unix_timestamp() -> (r: i64) {
    time::OffsetDateTime::now_utc().unix_timestamp()
}

/// Relies on hex::encode: two lowercase hexadecimal digits per byte, in order.
#[verifier::external_body]
pub(crate) fn hex_encode(bytes: &[u8]) -> (r: String)
    ensures
        r@ == hex_text(bytes@),
{
    hex::encode(bytes)
}

/// What `String::from_utf8_lossy` makes of `bytes`.
pub uninterp spec fn utf8_lossy_text_of(bytes: Seq<u8>) -> Seq<char>;

/// Relies on String::from_utf8_lossy: the text of `bytes`, with each invalid
/// sequence replaced; valid UTF-8 is returned as it is.
#[verifier::external_body]
pub(crate) fn utf8_lossy(bytes: &[u8]) -> (r: String)
    ensures
        r@ == utf8_lossy_text_of(bytes@),
        valid_utf8(bytes@) ==> r@ == decode_utf8(bytes@),
{
    String::from_utf8_lossy(bytes).into_owned()
}

/// The first second, from the Unix epoch, of the year -9999.
pub const MIN_DISPLAY_TIMESTAMP: i64 = -377705116800;

/// The last second, from the Unix epoch, of the year 9999.
pub const MAX_DISPLAY_TIMESTAMP: i64 = 253402300799;

/// What `time::OffsetDateTime` displays for the UTC instant `timestamp`.
pub uninterp spec fn utc_time_text_of(timestamp: i64) -> Seq<char>;

/// Relies on time::OffsetDateTime::from_unix_timestamp, which accepts exactly
/// the timestamps from -9999-01-01 00:00:00 to 9999-12-31 23:59:59 UTC, and on
/// the `Display` of `OffsetDateTime` for the text of the instant.
#[verifier::external_body]
pub(crate) fn format_unix_time(timestamp: i64) -> (r: Option<String>)
    ensures
        r is Some <==> MIN_DISPLAY_TIMESTAMP <= timestamp <= MAX_DISPLAY_TIMESTAMP,
        r matches Some(s) ==> s@ == utc_time_text_of(timestamp),
{
    match time::OffsetDateTime::from_unix_timestamp(timestamp) {
        Ok(t) => Some(t.to_string()),
        Err(_) => None,
    }
}

} // verus!
