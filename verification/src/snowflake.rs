//! Creation timestamps embedded in platform identifiers.
//!
//! Account identifiers on the platform are "snowflakes": the 42 high
//! bits of the 64-bit identifier hold the number of milliseconds between
//! the platform's epoch and the moment the account was created.

use vstd::prelude::*;

verus! {

/// Milliseconds between the Unix epoch and the platform's epoch
/// (the first millisecond of 2015).
pub const PLATFORM_EPOCH_MILLIS: u64 = 1420070400000;

/// The creation instant embedded in an identifier, in milliseconds
/// since the Unix epoch.
pub open spec fn creation_millis_of(id: u64) -> int {
    (id >> 22) + PLATFORM_EPOCH_MILLIS
}

/// Extracts the creation instant from an identifier.
pub fn creation_millis(id: u64) -> (t: u64)
    ensures
        t == creation_millis_of(id),
{
    proof {
        assert(id >> 22 < 0x400_0000_0000u64) by (bit_vector);
    }
    (id >> 22) + PLATFORM_EPOCH_MILLIS
}

} // verus!
