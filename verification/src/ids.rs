//! Fresh identifiers for new rows.
use vstd::prelude::*;

verus! {

/// The version and variant bits of a random (version 4, RFC 4122) UUID,
/// read from its 128-bit value.
pub open spec fn is_random_uuid(id: u128) -> bool {
    id & 0xF000_C000_0000_0000_0000u128 == 0x4000_8000_0000_0000_0000u128
}

/// Calls `Uuid::new_v4` and `Uuid::as_u128` of `uuid`. The bits are random;
/// the crate's source sets the version nibble to 4 and the variant bits to
/// `10`, which is all that is stated.
#[verifier::external_body]
pub fn new_uuid() -> (id: u128)
    ensures
        is_random_uuid(id),
{
    uuid::Uuid::new_v4().as_u128()
}

} // verus!
