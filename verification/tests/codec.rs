use pi6eon::codec::{construct_encoded_msg, decode_frame, encode_frame, parse_bytes_to_read, Frame};
use pi6eon::errors::FramingError;

#[test]
fn parse_length_field() {
    assert_eq!(parse_bytes_to_read(&[0x12, 0x34]), 0x1234);
    assert_eq!(parse_bytes_to_read(&[0x00, 0x00]), 0);
    assert_eq!(parse_bytes_to_read(&[0xff, 0xff]), 0xffff);
}

#[test]
fn encoded_msg_layout() {
    let nonce = [7u8; 12];
    let encoded = construct_encoded_msg(nonce, 3, &[1, 2, 3]);
    let mut expected = vec![7u8; 12];
    expected.extend([0u8, 3u8]);
    expected.extend([1u8, 2u8, 3u8]);
    assert_eq!(encoded, expected);
}

#[test]
fn frame_round_trip() {
    let nonce = [9u8, 8, 7, 6, 5, 4, 3, 2, 1, 0, 11, 12];
    let ciphertext: Vec<u8> = (0..300).map(|i| (i % 251) as u8).collect();
    let frame = Frame { nonce, ciphertext: ciphertext.clone() };
    let encoded = encode_frame(&frame);
    assert_eq!(encoded.len(), 14 + 300);
    assert_eq!(encoded[12], 1);
    assert_eq!(encoded[13], 44);
    let (decoded, used) = decode_frame(&encoded).unwrap();
    assert_eq!(used, encoded.len());
    assert_eq!(decoded.nonce, nonce);
    assert_eq!(decoded.ciphertext, ciphertext);
}

#[test]
fn empty_ciphertext_is_valid() {
    let nonce = [0u8; 12];
    let frame = Frame { nonce, ciphertext: Vec::new() };
    let encoded = encode_frame(&frame);
    assert_eq!(encoded.len(), 14);
    let (decoded, used) = decode_frame(&encoded).unwrap();
    assert_eq!(used, 14);
    assert_eq!(decoded.ciphertext.len(), 0);
}

#[test]
fn trailing_bytes_left_for_next_frame() {
    let frame = Frame { nonce: [1u8; 12], ciphertext: vec![5, 6] };
    let mut encoded = encode_frame(&frame);
    encoded.extend([99u8, 98u8, 97u8]);
    let (decoded, used) = decode_frame(&encoded).unwrap();
    assert_eq!(used, 16);
    assert_eq!(decoded.ciphertext, vec![5, 6]);
}

#[test]
fn truncated_segments_are_rejected() {
    let short_nonce = decode_frame(&[0u8; 5]);
    assert!(matches!(short_nonce, Err(FramingError::TruncatedNonce)));
    let short_length = decode_frame(&[0u8; 13]);
    assert!(matches!(short_length, Err(FramingError::TruncatedLength)));
    let mut header = vec![0u8; 12];
    header.extend([0u8, 10u8]);
    header.extend([1u8, 2u8, 3u8]);
    let short_ciphertext = decode_frame(&header);
    assert!(matches!(short_ciphertext, Err(FramingError::TruncatedCiphertext)));
}
