//! The account-state codec: the counter of a custody account is stored as
//! exactly 8 little-endian bytes at the start of its data region.

use vstd::prelude::*;
use vstd::bytes::{spec_u64_from_le_bytes, spec_u64_to_le_bytes, u64_from_le_bytes, u64_to_le_bytes};
use crate::account::COUNTER_SIZE;

verus! {

/// Read the counter out of an initialized data region.
pub fn read_counter(data: &Vec<u8>) -> (r: u64)
    requires
        data@.len() == COUNTER_SIZE,
    ensures
        r == spec_u64_from_le_bytes(data@),
{
    u64_from_le_bytes(data.as_slice())
}

/// Write the counter back into an initialized data region, replacing all
/// 8 bytes with the little-endian encoding of `value`.
pub fn write_counter(data: &mut Vec<u8>, value: u64)
    requires
        old(data)@.len() == COUNTER_SIZE,
    ensures
        final(data)@ == spec_u64_to_le_bytes(value),
{
    *data = u64_to_le_bytes(value);
}

/// Produce the data region of a freshly allocated custody account: 8 bytes,
/// zero-filled, which read back as counter 0.
pub fn zeroed_counter_region() -> (r: Vec<u8>)
    ensures
        r@ == spec_u64_to_le_bytes(0u64),
        r@.len() == COUNTER_SIZE,
{
    u64_to_le_bytes(0u64)
}

} // verus!
