//! The header checksum: a 32-bit xxHash with seed 0, of which the frame
//! stores one byte.

use vstd::prelude::*;

verus! {

/// The 32-bit xxHash, seed 0, of the bytes `data`.
pub uninterp spec fn xxh32(data: Seq<u8>) -> u32;

/// Relies on `twox_hash::XxHash32::with_seed(0)` fed `data` by one
/// `Hasher::write`: `Hasher::finish` then returns the 32-bit xxHash of the
/// bytes, which depends on them alone, widened to `u64` with the upper bits 0.
#[verifier::external_body]
fn xxh32_finish(data: &[u8]) -> (r: u64)
    ensures
        r == xxh32(data@) as u64,
{
    let mut hasher = twox_hash::XxHash32::with_seed(0);
    std::hash::Hasher::write(&mut hasher, data);
    std::hash::Hasher::finish(&hasher)
}

/// The 32-bit header checksum hash of `data`.
pub fn header_hash(data: &[u8]) -> (r: u32)
    ensures
        r == xxh32(data@),
{
    let wide = xxh32_finish(data);
    wide as u32
}

/// The byte of a checksum hash that a frame stores: the second least
/// significant byte of the hash.
pub open spec fn stored_byte_of(hash: u32) -> u8 {
    ((hash / 0x100) % 0x100) as u8
}

/// The byte of `hash` that a frame stores as its header checksum.
pub fn checksum_byte(hash: u32) -> (r: u8)
    ensures
        r == stored_byte_of(hash),
{
    assert((hash >> 8u32) as u8 == ((hash / 0x100) % 0x100) as u8) by (bit_vector);
    (hash >> 8) as u8
}

} // verus!
