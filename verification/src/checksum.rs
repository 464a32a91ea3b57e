//! The 32-bit integrity code appended to every payload and verified on decode.

use vstd::prelude::*;

verus! {

/// The 32-bit integrity code of a byte sequence: a pure function of the
/// bytes alone, so the same sequence yields the same code in every process
/// and on every machine.
pub uninterp spec fn crc32_of(data: Seq<u8>) -> u32;

/// Relies on crc32fast::hash: computes the IEEE CRC-32 of the byte slice,
/// a deterministic pure function of the bytes alone.
#[verifier::external_body]
fn crc32_hash(data: &[u8]) -> (r: u32)
    ensures
        r == crc32_of(data@),
{
    crc32fast::hash(data)
}

/// Computes the checksum used by the frame codec. Total over all inputs,
/// including the empty sequence; two calls on equal byte sequences return
/// equal values.
pub fn compute(data: &[u8]) -> (r: u32)
    ensures
        r == crc32_of(data@),
{
    crc32_hash(data)
}

} // verus!
