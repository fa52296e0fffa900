//! Where fresh identifiers come from.

use vstd::prelude::*;

verus! {

/// The bits of a UUID's 128-bit value that hold its version and its variant.
pub const VERSION_AND_VARIANT_MASK: u128 = 0x0000_0000_0000_f000_c000_0000_0000_0000;

/// Those bits in a version 4 (random) UUID of the RFC variant.
pub const RANDOM_VERSION_AND_VARIANT: u128 = 0x0000_0000_0000_4000_8000_0000_0000_0000;

/// Whether `bits` is the 128-bit value of a version 4 (random) UUID of the RFC
/// variant: the version digit is 4 and the variant bits are `10`.
pub open spec fn is_random_uuid(bits: u128) -> bool {
    bits & VERSION_AND_VARIANT_MASK == RANDOM_VERSION_AND_VARIANT
}

/// Draws a fresh identifier value: `uuid::Uuid::new_v4`, read as one number by
/// `Uuid::as_u128`.
///
/// Trusted, not proved: `new_v4` takes 128 random bits from the operating
/// system and overwrites the version and variant bits, so whatever value comes
/// back is a version 4 UUID of the RFC variant. Nothing is claimed about the
/// other 122 bits; two draws may or may not differ. `new_v4` panics when the
/// operating system cannot supply random bytes.
#[verifier::external_body]
pub(crate) fn fresh_uuid_bits() -> (bits: u128)
    ensures
        is_random_uuid(bits),
{
    uuid::Uuid::new_v4().as_u128()
}

} // verus!
