//! The frame codec: encode stuffs a checksum-augmented payload into a
//! zero-terminated frame; decode reverses it, validating the checksum and
//! applying a two-tier fallback policy to malformed input.

use vstd::prelude::*;

verus! {

/// The trailer-augmented payload: the payload followed by the big-endian
/// 4-byte encoding of its checksum.
pub open spec fn with_trailer(payload: Seq<u8>) -> Seq<u8> {
    payload + crate::wire::be_bytes_of(crate::checksum::crc32_of(payload))
}

/// The encoded frame of a payload: its trailer-augmented form, byte-stuffed,
/// followed by the single zero terminator.
pub open spec fn spec_encode(payload: Seq<u8>) -> Seq<u8> {
    crate::stuffing::stuffed(with_trailer(payload)).push(0)
}

/// The stuffed body of a received frame: the input with a trailing zero
/// terminator stripped, or the whole input where a transport already
/// stripped it.
pub open spec fn spec_body(input: Seq<u8>) -> Seq<u8> {
    if input.len() > 0 && input.last() == 0 {
        input.drop_last()
    } else {
        input
    }
}

/// A fallback diagnostic sequence: `s` with the byte at index 1 overwritten
/// by the sentinel, or `s` unchanged where it is too short to mark.
pub open spec fn marked(s: Seq<u8>, sentinel: u8) -> Seq<u8> {
    if s.len() > 1 {
        s.update(1, sentinel)
    } else {
        s
    }
}

/// What decode returns for a received frame. Structurally invalid stuffing,
/// or an unstuffed body too short to hold a trailer, yields the input marked
/// with sentinel 0x02; a checksum mismatch yields the unstuffed body marked
/// with sentinel 0x03; otherwise the recovered payload.
pub open spec fn spec_decode(input: Seq<u8>) -> Seq<u8> {
    match crate::stuffing::unstuffed(spec_body(input)) {
        None => marked(input, 0x02),
        Some(d) => if d.len() < 4 {
            marked(input, 0x02)
        } else {
            let payload = d.take(d.len() - 4);
            let trailer = d.skip(d.len() - 4);
            if crate::wire::be_u32_of(trailer) == crate::checksum::crc32_of(payload) {
                payload
            } else {
                marked(d, 0x03)
            }
        },
    }
}

/// Encodes one payload into a delimited frame: the payload and the big-endian
/// encoding of its checksum are byte-stuffed, and a single zero terminator is
/// appended. Total over all payloads; the terminator is the only zero byte of
/// the frame, and decoding the frame — with or without its terminator —
/// yields the payload again.
pub fn encode_packet(input: Vec<u8>) -> (r: Vec<u8>)
    ensures
        r@ == spec_encode(input@),
        r@.len() > 0,
        r@.last() == 0,
        forall|i: int| 0 <= i < r@.len() - 1 ==> r@[i] != 0,
        spec_decode(r@) == input@,
        spec_decode(r@.drop_last()) == input@,
{
    let ghost payload = input@;
    let crc = crate::checksum::compute(input.as_slice());
    let mut data = input;
    crate::wire::push_be_bytes(&mut data, crc);
    let mut encoded = crate::stuffing::cobs_encode(data.as_slice());
    let ghost body = encoded@;
    encoded.push(0x00);
    proof {
        crate::wire::lemma_be_round_trip(crc);
        assert(encoded@.drop_last() =~= body);
        assert(spec_body(encoded@) =~= body);
        assert(data@.take(data@.len() - 4) =~= payload);
        assert(data@.skip(data@.len() - 4) =~= crate::wire::be_bytes_of(
            crate::checksum::crc32_of(payload),
        ));
        assert(spec_decode(encoded@) == payload);
        assert(spec_decode(encoded@.drop_last()) == payload);
    }
    encoded
}

/// Decodes one received frame, with or without its trailing zero terminator.
/// Every path returns a byte sequence: the recovered payload on success, or
/// a sentinel-marked fallback sequence on either failure tier, exactly as
/// `spec_decode` states.
pub fn decode_packet(input: Vec<u8>) -> (r: Vec<u8>)
    ensures
        r@ == spec_decode(input@),
{
    let mut fallback = vstd::slice::slice_to_vec(input.as_slice());
    if fallback.len() > 1 {
        fallback[1] = 0x02;
    }

    let body_len: usize = if input.len() > 0 && input[input.len() - 1] == 0 {
        input.len() - 1
    } else {
        input.len()
    };
    let stuffed_body = vstd::slice::slice_subrange(input.as_slice(), 0, body_len);
    assert(stuffed_body@ =~= spec_body(input@));

    let decoded = match crate::stuffing::cobs_decode(stuffed_body) {
        Some(d) => d,
        None => {
            return fallback;
        },
    };

    if decoded.len() < 4 {
        return fallback;
    }

    let split = decoded.len() - 4;
    let received = crate::wire::read_be_u32(decoded.as_slice(), split);
    let payload_slice = vstd::slice::slice_subrange(decoded.as_slice(), 0, split);
    let calculated = crate::checksum::compute(payload_slice);
    proof {
        assert(decoded@.subrange(split as int, split as int + 4) =~= decoded@.skip(
            decoded@.len() - 4,
        ));
        assert(payload_slice@ =~= decoded@.take(decoded@.len() - 4));
    }

    if received == calculated {
        vstd::slice::slice_to_vec(payload_slice)
    } else {
        let mut diag = decoded;
        if diag.len() > 1 {
            diag[1] = 0x03;
        }
        diag
    }
}

} // verus!
