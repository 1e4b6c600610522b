use quic_perf::handshake::{
    decode_preference, encode_preference, send_buffer, HandshakeError, PREFERENCE_CAP,
};

fn padded(text: &[u8], len: usize) -> Vec<u8> {
    let mut v = text.to_vec();
    while v.len() < len {
        v.push(0);
    }
    v
}

#[test]
fn encode_writes_plain_decimal_digits() {
    assert_eq!(encode_preference(4096), b"4096".to_vec());
    assert_eq!(encode_preference(1024), b"1024".to_vec());
    assert_eq!(encode_preference(1), b"1".to_vec());
    assert_eq!(encode_preference(0), b"0".to_vec());
    assert_eq!(encode_preference(10), b"10".to_vec());
    assert_eq!(
        encode_preference(usize::MAX),
        format!("{}", usize::MAX).into_bytes()
    );
}

#[test]
fn decode_reads_what_encode_wrote() {
    for n in [1usize, 9, 10, 99, 100, 1024, 4096, 65535, 1_000_000, usize::MAX] {
        assert_eq!(decode_preference(&encode_preference(n)), Ok(n));
    }
}

#[test]
fn decode_ignores_nul_padding_in_a_full_read() {
    let received = padded(b"4096", PREFERENCE_CAP);
    assert_eq!(received.len(), 128);
    assert_eq!(decode_preference(&received), Ok(4096));
}

#[test]
fn decode_ignores_nul_bytes_at_the_end_only() {
    assert_eq!(decode_preference(b"512\0"), Ok(512));
    assert_eq!(decode_preference(b"512\0\0\0"), Ok(512));
    assert_eq!(decode_preference(b"+512\0"), Ok(512));
}

#[test]
fn decode_refuses_nul_bytes_in_front_of_the_text() {
    assert_eq!(decode_preference(b"\x005"), Err(HandshakeError::NotNumeric));
    assert_eq!(decode_preference(b"\0\0512\0"), Err(HandshakeError::NotNumeric));
    assert_eq!(decode_preference(b"\0\0512"), Err(HandshakeError::NotNumeric));
    assert_eq!(decode_preference(b"\0+5"), Err(HandshakeError::NotNumeric));
    let mut received = vec![0u8; 128];
    received[127] = b'7';
    assert_eq!(decode_preference(&received), Err(HandshakeError::NotNumeric));
}

#[test]
fn decode_keeps_nul_bytes_inside_the_text() {
    assert_eq!(decode_preference(b"5\x0012"), Err(HandshakeError::NotNumeric));
}

#[test]
fn decode_accepts_a_plus_sign_and_leading_zeros() {
    assert_eq!(decode_preference(b"+42"), Ok(42));
    assert_eq!(decode_preference(b"0042"), Ok(42));
    assert_eq!(decode_preference(b"+0042"), Ok(42));
}

#[test]
fn decode_refuses_a_size_of_zero() {
    assert_eq!(decode_preference(b"0"), Err(HandshakeError::Zero));
    assert_eq!(decode_preference(b"+0"), Err(HandshakeError::Zero));
    assert_eq!(decode_preference(b"0000"), Err(HandshakeError::Zero));
    assert_eq!(decode_preference(&encode_preference(0)), Err(HandshakeError::Zero));
}

#[test]
fn decode_refuses_text_that_is_no_number() {
    assert_eq!(decode_preference(b"abc"), Err(HandshakeError::NotNumeric));
    assert_eq!(decode_preference(b"12a"), Err(HandshakeError::NotNumeric));
    assert_eq!(decode_preference(b"-5"), Err(HandshakeError::NotNumeric));
    assert_eq!(decode_preference(b" 5"), Err(HandshakeError::NotNumeric));
    assert_eq!(decode_preference(b"5 "), Err(HandshakeError::NotNumeric));
    assert_eq!(decode_preference(b"+"), Err(HandshakeError::NotNumeric));
    assert_eq!(decode_preference(b"++5"), Err(HandshakeError::NotNumeric));
    assert_eq!(decode_preference(b"1.5"), Err(HandshakeError::NotNumeric));
}

#[test]
fn decode_refuses_an_empty_preference() {
    assert_eq!(decode_preference(b""), Err(HandshakeError::Empty));
    assert_eq!(decode_preference(&[0u8; 128]), Err(HandshakeError::Empty));
    assert_eq!(decode_preference(b"\0"), Err(HandshakeError::Empty));
}

#[test]
fn decode_refuses_bytes_that_are_not_utf8() {
    assert_eq!(decode_preference(&[0xff, 0x31]), Err(HandshakeError::NotUtf8));
    assert_eq!(decode_preference(&[0x31, 0x80]), Err(HandshakeError::NotUtf8));
    assert_eq!(decode_preference(&[0xc3]), Err(HandshakeError::NotUtf8));
}

#[test]
fn decode_tells_well_formed_text_from_malformed_bytes() {
    // U+00E9 in UTF-8: well formed, but no digit.
    assert_eq!(decode_preference(&[0xc3, 0xa9]), Err(HandshakeError::NotNumeric));
}

#[test]
fn decode_refuses_a_number_beyond_the_size_type() {
    let mut text = format!("{}", usize::MAX).into_bytes();
    assert_eq!(decode_preference(&text), Ok(usize::MAX));
    text.push(b'0');
    assert_eq!(decode_preference(&text), Err(HandshakeError::TooLarge));
    assert_eq!(
        decode_preference(b"99999999999999999999999999999999999999999999"),
        Err(HandshakeError::TooLarge)
    );
    let one_more = format!("{}", usize::MAX as u128 + 1).into_bytes();
    assert_eq!(decode_preference(&one_more), Err(HandshakeError::TooLarge));
}

#[test]
fn decode_prefers_not_numeric_over_too_large() {
    assert_eq!(
        decode_preference(b"99999999999999999999999999999999999999999999x"),
        Err(HandshakeError::NotNumeric)
    );
}

#[test]
fn decode_looks_at_the_first_128_bytes_only() {
    let mut received = padded(b"77", PREFERENCE_CAP);
    received.extend_from_slice(b"garbage");
    assert_eq!(decode_preference(&received), Ok(77));
    // Digits that run past the cap are cut off there.
    let mut long = vec![b'0'; 127];
    long.push(b'7');
    long.push(b'9');
    assert_eq!(decode_preference(&long), Ok(7));
}

#[test]
fn send_buffer_is_zero_filled_and_of_the_size_asked_for() {
    let buffer = send_buffer(4096);
    assert_eq!(buffer.len(), 4096);
    assert!(buffer.iter().all(|b| *b == 0));
    assert_eq!(send_buffer(1), vec![0u8]);
    assert_eq!(send_buffer(0), Vec::<u8>::new());
}

#[test]
fn negotiated_size_round_trip() {
    // The client sends "4096"; the server allocates a 4096-byte buffer.
    let sent = encode_preference(4096);
    assert_eq!(sent, b"4096".to_vec());
    let size = decode_preference(&padded(&sent, 128)).unwrap();
    assert_eq!(send_buffer(size).len(), 4096);
}
