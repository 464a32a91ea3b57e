//! Big-endian serialization of the 32-bit checksum trailer.

use vstd::prelude::*;

verus! {

/// The big-endian 4-byte encoding of a 32-bit value: most significant
/// byte first.
pub open spec fn be_bytes_of(x: u32) -> Seq<u8> {
    seq![
        (x >> 24) as u8,
        ((x >> 16) & 0xFF) as u8,
        ((x >> 8) & 0xFF) as u8,
        (x & 0xFF) as u8,
    ]
}

/// The 32-bit value read from four bytes in big-endian order.
pub open spec fn be_u32_of(s: Seq<u8>) -> u32
    recommends
        s.len() == 4,
{
    (((s[0] as u32) << 24) | ((s[1] as u32) << 16) | ((s[2] as u32) << 8) | (s[3] as u32)) as u32
}

/// Reading back the big-endian encoding of a value yields the value.
pub proof fn lemma_be_round_trip(x: u32)
    ensures
        be_u32_of(be_bytes_of(x)) == x,
{
    assert((((((x >> 24) as u8) as u32) << 24) | (((((x >> 16) & 0xFF) as u8) as u32) << 16)
        | (((((x >> 8) & 0xFF) as u8) as u32) << 8) | (((x & 0xFF) as u8) as u32)) as u32 == x)
        by (bit_vector);
}

/// Appends the big-endian 4-byte encoding of `x` to `out`.
pub fn push_be_bytes(out: &mut Vec<u8>, x: u32)
    ensures
        final(out)@ == old(out)@ + be_bytes_of(x),
{
    assert(x >> 24 < 256 && (x >> 16) & 0xFF < 256 && (x >> 8) & 0xFF < 256 && x & 0xFF < 256)
        by (bit_vector);
    out.push((x >> 24) as u8);
    out.push(((x >> 16) & 0xFF) as u8);
    out.push(((x >> 8) & 0xFF) as u8);
    out.push((x & 0xFF) as u8);
    assert(out@ =~= old(out)@ + be_bytes_of(x));
}

/// Reads the four bytes of `s` that begin at `start` as a big-endian
/// 32-bit value.
pub fn read_be_u32(s: &[u8], start: usize) -> (r: u32)
    requires
        start + 4 <= s@.len(),
    ensures
        r == be_u32_of(s@.subrange(start as int, start as int + 4)),
{
    let b0 = s[start];
    let b1 = s[start + 1];
    let b2 = s[start + 2];
    let b3 = s[start + 3];
    let r = ((b0 as u32) << 24) | ((b1 as u32) << 16) | ((b2 as u32) << 8) | (b3 as u32);
    proof {
        let t = s@.subrange(start as int, start as int + 4);
        assert(t[0] == b0 && t[1] == b1 && t[2] == b2 && t[3] == b3);
    }
    r
}

} // verus!
