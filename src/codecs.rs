//! Calls into outside crates that decode values for the library.
use vstd::prelude::*;
use bech32::ToBase32;

verus! {

/// Earliest Unix timestamp that a calendar date can hold (first second of year -9999).
pub const MIN_UNIX_TIMESTAMP: i64 = -377_705_116_800;

/// Latest Unix timestamp that a calendar date can hold (last second of year 9999).
pub const MAX_UNIX_TIMESTAMP: i64 = 253_402_300_799;

/// Whether a memo field decodes to something other than user text.
pub open spec fn memo_not_text(bytes: Seq<u8>) -> bool {
    bytes.len() <= 512 && bytes.len() > 0 && bytes[0] >= 0xF5
}

/// Relies on `zcash_protocol::memo::Memo::from_bytes`: more than 512 bytes are
/// rejected; otherwise the bytes are padded with zeros to 512 and the first byte
/// decides: 0xF4 or below is text (or invalid UTF-8), anything above is an empty,
/// arbitrary or future-format memo.
#[verifier::external_body]
pub(crate) fn memo_is_not_text(bytes: &[u8]) -> (r: bool)
    ensures
        r == memo_not_text(bytes@),
{
    match zcash_protocol::memo::Memo::from_bytes(bytes) {
        Ok(zcash_protocol::memo::Memo::Text(_)) => false,
        Ok(_) => true,
        Err(_) => false,
    }
}

/// Relies on `time::OffsetDateTime::from_unix_timestamp`: it succeeds exactly on
/// the timestamps from year -9999 to year 9999 (without the `large-dates` feature).
#[verifier::external_body]
pub(crate) fn is_valid_unix_timestamp(t: i64) -> (r: bool)
    ensures
        r == (MIN_UNIX_TIMESTAMP <= t <= MAX_UNIX_TIMESTAMP),
{
    time::OffsetDateTime::from_unix_timestamp(t).is_ok()
}

/// The Bech32 text of `data` under the human-readable part `hrp`; `None` when the
/// part is not a valid one.
pub uninterp spec fn bech32_text(hrp: Seq<char>, data: Seq<u8>) -> Option<Seq<char>>;

/// Relies on `bech32::encode` with the original Bech32 checksum (not Bech32m), the
/// encoding of Sapling payment addresses.
#[verifier::external_body]
pub(crate) fn bech32_encode(hrp: &str, data: &[u8]) -> (r: Option<String>)
    ensures
        match r {
            Some(t) => bech32_text(hrp@, data@) == Some(t@),
            None => bech32_text(hrp@, data@) is None,
        },
{
    match bech32::encode(hrp, data.to_base32(), bech32::Variant::Bech32) {
        Ok(t) => Some(t),
        Err(_) => None,
    }
}

} // verus!
