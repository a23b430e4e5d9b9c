//! The identifier-generator and clock collaborators the ledger consumes.

use vstd::prelude::*;

verus! {

/// Relies on `uuid::Uuid::new_v4` and `Uuid::as_u128`: a fresh random
/// version-4 UUID as its 128-bit big-endian value. `new_v4` forces the
/// version nibble to `4` and the variant bits to the RFC 4122 pattern
/// `10`; nothing else is promised of a random value.
#[verifier::external_body]
pub(crate) fn fresh_uuid_u128() -> (r: u128)
    ensures
        (r >> 76) & 0xf == 4,
        (r >> 62) & 0x3 == 2,
{
    uuid::Uuid::new_v4().as_u128()
}

/// Relies on `chrono::Utc::now` and `DateTime::timestamp_micros`: the
/// current UTC time as microseconds since the Unix epoch. Nothing is
/// promised of the value: it depends on the wall clock.
#[verifier::external_body]
pub(crate) fn now_utc_micros() -> i64 {
    chrono::Utc::now().timestamp_micros()
}

} // verus!
