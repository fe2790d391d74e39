//! Identifiers of todos: 128-bit values drawn as random UUIDs.

use vstd::prelude::*;

verus! {

/// The bits of an identifier that tell a UUID's version and variant.
pub const LAYOUT_MASK: u128 = 0x0000_0000_0000_f000_c000_0000_0000_0000;

/// The value of those bits in a random (version 4) UUID of the standard variant.
pub const RANDOM_LAYOUT: u128 = 0x0000_0000_0000_4000_8000_0000_0000_0000;

/// Whether `id` carries the version and variant of a random UUID.
pub open spec fn is_random_uuid(id: u128) -> bool {
    id & LAYOUT_MASK == RANDOM_LAYOUT
}

/// Draws an identifier with `uuid::Uuid::new_v4` and returns it as the 128-bit
/// value that `Uuid::as_u128` gives.
///
/// Trusted: `new_v4` fills 128 bits from the system's random source and then
/// forces the version bits to 4 and the variant bits to binary 10, which is
/// all the contract claims. Nothing is claimed about the other 122 bits; in
/// particular two calls may return the same value. Should the system's random
/// source fail, `new_v4` panics.
#[verifier::external_body]
pub(crate) fn fresh_id() -> (id: u128)
    ensures
        is_random_uuid(id),
{
    uuid::Uuid::new_v4().as_u128()
}

} // verus!
