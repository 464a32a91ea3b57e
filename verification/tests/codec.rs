use framecodec::codec::{decode_packet, encode_packet};

fn round_trips(payload: Vec<u8>) {
    let frame = encode_packet(payload.clone());
    assert_eq!(decode_packet(frame), payload);
}

#[test]
fn round_trip_empty() {
    round_trips(vec![]);
}

#[test]
fn round_trip_simple() {
    round_trips(vec![0xAA, 0xBB]);
}

#[test]
fn round_trip_all_zero() {
    round_trips(vec![0x00; 5]);
}

#[test]
fn round_trip_contains_zero_bytes() {
    round_trips(vec![0x01, 0x00, 0x02, 0x00, 0x03]);
}

#[test]
fn round_trip_long_payload() {
    let payload: Vec<u8> = (0..300u32).map(|i| (i % 255 + 1) as u8).collect();
    round_trips(payload);
}

#[test]
fn round_trip_with_terminator_stripped() {
    let payload = vec![0x10, 0x00, 0x20, 0xFF];
    let mut frame = encode_packet(payload.clone());
    assert_eq!(decode_packet(frame.clone()), payload);
    assert_eq!(frame.pop(), Some(0x00));
    assert_eq!(decode_packet(frame), payload);
}

#[test]
fn terminator_is_the_only_zero_byte() {
    let payloads: Vec<Vec<u8>> = vec![
        vec![],
        vec![0x00],
        vec![0x00; 10],
        vec![0xAA, 0xBB],
        vec![0x01, 0x00, 0x02],
        (0..300u32).map(|i| (i % 256) as u8).collect(),
    ];
    for payload in payloads {
        let frame = encode_packet(payload);
        let zero_count = frame.iter().filter(|&&b| b == 0).count();
        assert_eq!(zero_count, 1);
        assert_eq!(frame.last(), Some(&0x00));
    }
}

#[test]
fn encode_empty_payload_exact_bytes() {
    // The checksum of the empty payload is 0, so the stuffed trailer-augmented
    // payload is the COBS form of four zero bytes.
    let frame = encode_packet(vec![]);
    assert_eq!(frame, vec![0x01, 0x01, 0x01, 0x01, 0x01, 0x00]);
    assert_eq!(decode_packet(frame), Vec::<u8>::new());
}

#[test]
fn encode_simple_payload_exact_bytes() {
    let frame = encode_packet(vec![0xAA, 0xBB]);
    assert_eq!(frame, vec![0x07, 0xAA, 0xBB, 0x49, 0x82, 0x2C, 0x98, 0x00]);
}

#[test]
fn tier1_fallback_on_invalid_escape() {
    // The leading byte claims a longer run than the remaining bytes hold.
    let input = vec![0x05, 0x01];
    assert_eq!(decode_packet(input), vec![0x05, 0x02]);
}

#[test]
fn tier1_fallback_short_input_unchanged() {
    assert_eq!(decode_packet(vec![0x05]), vec![0x05]);
    assert_eq!(decode_packet(vec![]), Vec::<u8>::new());
    assert_eq!(decode_packet(vec![0x00]), vec![0x00]);
}

#[test]
fn tier1_fallback_on_unstuffed_body_too_short_for_trailer() {
    // A valid stuffed body whose unstuffed form has only two bytes.
    let input = vec![0x03, 0x01, 0x02];
    assert_eq!(decode_packet(input), vec![0x03, 0x02, 0x02]);
}

#[test]
fn tier2_fallback_on_flipped_checksum() {
    let mut frame = encode_packet(vec![0xAA, 0xBB]);
    assert_eq!(frame, vec![0x07, 0xAA, 0xBB, 0x49, 0x82, 0x2C, 0x98, 0x00]);
    // Corrupt the last byte of the checksum region of the stuffed body.
    frame[6] = 0x99;
    assert_eq!(
        decode_packet(frame),
        vec![0xAA, 0x03, 0x49, 0x82, 0x2C, 0x99]
    );
}
