//! The zero-elimination transform: payloads are byte-stuffed with COBS so
//! that the encoded body holds no zero byte and the frame terminator is
//! unambiguous in a concatenated stream.

use vstd::prelude::*;

verus! {

/// What cobs::encode_vec returns: the COBS-stuffed form of a byte sequence,
/// a pure function of the bytes alone.
pub uninterp spec fn stuffed(data: Seq<u8>) -> Seq<u8>;

/// What cobs::decode_vec returns: the reversal of COBS stuffing, `None`
/// exactly where the bytes are not a structurally valid stuffed body;
/// a pure function of the bytes alone.
pub uninterp spec fn unstuffed(data: Seq<u8>) -> Option<Seq<u8>>;

/// Relies on cobs::encode_vec: COBS-stuffs `data` into a strictly longer
/// sequence that holds no zero byte, and from which cobs::decode_vec
/// recovers `data` exactly.
#[verifier::external_body]
pub(crate) fn cobs_encode(data: &[u8]) -> (r: Vec<u8>)
    ensures
        r@ == stuffed(data@),
        r@.len() > data@.len(),
        forall|i: int| 0 <= i < r@.len() ==> r@[i] != 0,
        unstuffed(r@) == Some(data@),
{
    cobs::encode_vec(data)
}

/// Relies on cobs::decode_vec: reverses COBS stuffing, reporting an error
/// exactly where the body is malformed.
#[verifier::external_body]
pub(crate) fn cobs_decode(data: &[u8]) -> (r: Option<Vec<u8>>)
    ensures
        match r {
            Some(d) => unstuffed(data@) == Some(d@),
            None => unstuffed(data@) == None::<Seq<u8>>,
        },
{
    cobs::decode_vec(data).ok()
}

} // verus!
