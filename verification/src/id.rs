//! Identifiers: UUIDs held as their 128-bit big-endian value.

use vstd::prelude::*;

verus! {

/// Whether `id` carries the version and variant bits of an RFC 9562 version 7
/// UUID: version nibble `7` (the high nibble of octet 6) and variant bits `10`
/// (the top two bits of octet 8).
pub open spec fn is_v7_uuid(id: u128) -> bool {
    &&& (id >> 76u128) & 0xfu128 == 7u128
    &&& (id >> 62u128) & 0x3u128 == 2u128
}

/// Whether `id` is the nil UUID (all zero bits).
pub open spec fn is_nil_uuid(id: u128) -> bool {
    id == 0
}

/// A version 7 UUID is never nil.
pub proof fn lemma_v7_uuid_not_nil(id: u128)
    requires
        is_v7_uuid(id),
    ensures
        !is_nil_uuid(id),
{
    assert((id >> 76u128) & 0xfu128 == 7u128 ==> id != 0u128) by (bit_vector);
}

/// Some identifier with the version 7 and RFC variant bits.
pub(crate) proof fn lemma_some_v7_uuid() -> (id: u128)
    ensures
        is_v7_uuid(id),
{
    let id: u128 = 0x0000_0000_0000_7000_8000_0000_0000_0000u128;
    assert((id >> 76u128) & 0xfu128 == 7u128 && (id >> 62u128) & 0x3u128 == 2u128) by (bit_vector)
        requires
            id == 0x0000_0000_0000_7000_8000_0000_0000_0000u128,
    ;
    id
}

/// A fresh identifier: `uuid::Uuid::now_v7()`, read with `Uuid::as_u128`.
/// Claimed: the value has the version 7 and RFC variant bits, which
/// `uuid`'s `encode_unix_timestamp_millis` always sets.
/// Not claimed: which value it is; it rests on the clock and a random source.
#[verifier::external_body]
pub(crate) fn new_v7_uuid() -> (id: u128)
    ensures
        is_v7_uuid(id),
{
    uuid::Uuid::now_v7().as_u128()
}

} // verus!
