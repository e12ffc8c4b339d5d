//! Calls into outside crates and into std functions that vstd does not
//! specify. Each function here is believed, not proved: its doc comment says
//! what its contract claims of the call it makes.
use vstd::prelude::*;

use std::fmt::Write;

verus! {

/// Calls `getrandom::fill` on a 16-byte buffer: `Some` of the bytes the
/// operating system's random source gave, `None` where it reported an error.
/// The bytes are random: nothing is stated of them.
#[verifier::external_body]
pub(crate) fn random_bytes() -> Option<[u8; 16]> {
    let mut bytes = [0u8; 16];
    match getrandom::fill(&mut bytes) {
        Ok(()) => Some(bytes),
        Err(_) => None,
    }
}

/// The 128-bit big-endian value of a sequence of bytes.
pub open spec fn big_endian(bytes: Seq<u8>) -> nat
    decreases bytes.len(),
{
    if bytes.len() == 0 {
        0
    } else {
        (big_endian(bytes.drop_last()) * 256 + bytes.last()) as nat
    }
}

/// The bits of a UUID that hold its version (4 bits) and its variant (the two
/// high bits of byte 8), in its 128-bit big-endian value.
pub open spec fn uuid_version_variant_mask() -> u128 {
    0x0000_0000_0000_F000_C000_0000_0000_0000u128
}

/// Those bits in a random (version 4, RFC 4122 variant) UUID: version `4`,
/// variant `10`.
pub open spec fn uuid_v4_bits() -> u128 {
    0x0000_0000_0000_4000_8000_0000_0000_0000u128
}

/// The value of the UUID that `uuid::Builder::from_random_bytes` makes of
/// `bytes`: their big-endian value with the version and variant bits set.
pub open spec fn random_uuid_value(bytes: Seq<u8>) -> u128 {
    ((big_endian(bytes) as u128) & !uuid_version_variant_mask()) | uuid_v4_bits()
}

/// Calls `uuid::Builder::from_random_bytes(bytes).into_uuid()` and returns the
/// UUID's value (`Uuid::as_u128`). The contract claims what the source shows:
/// the bytes are read big-endian, the high four bits of byte 6 are set to the
/// version `4` and the two high bits of byte 8 to the variant `10`.
#[verifier::external_body]
pub(crate) fn uuid_from_random_bytes(bytes: [u8; 16]) -> (r: u128)
    ensures
        r == random_uuid_value(bytes@),
{
    uuid::Builder::from_random_bytes(bytes).into_uuid().as_u128()
}

/// `std::time::SystemTime`, a reading of the system clock.
#[verifier::external_type_specification]
#[verifier::external_body]
pub struct ExSystemTime(std::time::SystemTime);

/// Calls `std::time::SystemTime::now`. It reads the clock: nothing is stated
/// of the value.
#[verifier::external_body]
pub(crate) fn system_time_now() -> std::time::SystemTime {
    std::time::SystemTime::now()
}

/// Calls `SystemTime::duration_since(UNIX_EPOCH)` on `t`: `Some((seconds,
/// nanoseconds))` since the Unix epoch, `None` where `t` is before it. The
/// contract claims only that the nanoseconds are below one second, as
/// `Duration::subsec_nanos` documents.
#[verifier::external_body]
pub(crate) fn duration_since_epoch(t: &std::time::SystemTime) -> (r: Option<(u64, u32)>)
    ensures
        r matches Some((_, nanos)) ==> nanos < 1_000_000_000,
{
    match t.duration_since(std::time::UNIX_EPOCH) {
        Ok(d) => Some((d.as_secs(), d.subsec_nanos())),
        Err(_) => None,
    }
}

/// Calls `chrono::DateTime::<Utc>::from_timestamp(secs, nanos)` and returns
/// the instant's seconds and nanoseconds (`DateTime::timestamp`,
/// `DateTime::timestamp_subsec_nanos`), or `None` where chrono has no such
/// instant. The contract claims that an instant it gives back is the one
/// asked for (the source splits `secs` into days and seconds of the day and
/// keeps `nanos`, and `timestamp` adds them up again); on which seconds
/// chrono's range ends is not stated.
#[verifier::external_body]
pub(crate) fn utc_from_timestamp(secs: i64, nanos: u32) -> (r: Option<(i64, u32)>)
    requires
        nanos < 1_000_000_000,
    ensures
        r matches Some((s, n)) ==> s == secs && n == nanos,
{
    chrono::DateTime::<chrono::Utc>::from_timestamp(secs, nanos).map(|t| (t.timestamp(), t.timestamp_subsec_nanos()))
}

/// Calls `whoami::platform` and returns its display name (such as `"Linux"`,
/// `"Windows"` or `"Mac OS"`). It depends on the machine: nothing is stated
/// of the value.
#[verifier::external_body]
pub(crate) fn platform_name() -> String {
    whoami::platform().to_string()
}

/// What chrono renders with the format string `fmt` for the UTC instant
/// `secs` seconds and `nanos` nanoseconds after the Unix epoch; `None` where
/// chrono has no such instant or cannot render the format.
pub uninterp spec fn utc_format(secs: i64, nanos: u32, fmt: Seq<char>) -> Option<Seq<char>>;

/// Calls `chrono::DateTime::<Utc>::from_timestamp(secs, nanos)` and writes
/// the instant with `DateTime::format(fmt)`. The contract claims that the
/// result is `utc_format(secs, nanos, fmt)`: a function of the arguments alone
/// (the instant is in UTC, so no time zone of the machine enters).
#[verifier::external_body]
pub(crate) fn format_utc(secs: i64, nanos: u32, fmt: &str) -> (r: Option<String>)
    ensures
        match r {
            Some(s) => utc_format(secs, nanos, fmt@) == Some(s@),
            None => utc_format(secs, nanos, fmt@) is None,
        },
{
    let t = chrono::DateTime::<chrono::Utc>::from_timestamp(secs, nanos)?;
    let mut s = String::new();
    match write!(s, "{}", t.format(fmt)) {
        Ok(()) => Some(s),
        Err(_) => None,
    }
}

/// The SHA-256 digest of `data`.
pub uninterp spec fn sha256(data: Seq<u8>) -> Seq<u8>;

/// Calls `sha2::Sha256::digest`. The contract claims that the result is
/// `sha256(data)`, a function of the bytes alone, and that it is 32 bytes
/// long (the output size of SHA-256).
#[verifier::external_body]
pub(crate) fn sha256_digest(data: &[u8]) -> (r: Vec<u8>)
    ensures
        r@ == sha256(data@),
        r@.len() == 32,
{
    <sha2::Sha256 as sha2::Digest>::digest(data).to_vec()
}

} // verus!
