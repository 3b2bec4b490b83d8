use harbor_bridge::codec::{decode_frame, decode_header, encode_frame, FrameError, MAX_FRAME_LEN};

#[test]
fn encode_prefixes_length_little_endian() {
    let payload = b"{\"type\":\"ping\"}".to_vec();
    let frame = encode_frame(&payload);
    assert_eq!(frame.len(), 4 + payload.len());
    assert_eq!(&frame[0..4], &(payload.len() as u32).to_le_bytes());
    assert_eq!(&frame[4..], &payload[..]);
}

#[test]
fn round_trip_encode_then_decode() {
    let payload = b"{\"x\":1}".to_vec();
    let frame = encode_frame(&payload);
    let (decoded, consumed) = decode_frame(&frame).unwrap();
    assert_eq!(decoded, payload);
    assert_eq!(consumed, frame.len());
}

#[test]
fn round_trip_decode_then_encode() {
    let mut frame = 5u32.to_le_bytes().to_vec();
    frame.extend_from_slice(b"hello");
    let (payload, consumed) = decode_frame(&frame).unwrap();
    assert_eq!(consumed, frame.len());
    assert_eq!(encode_frame(&payload), frame);
}

#[test]
fn empty_payload_frames() {
    let payload: Vec<u8> = Vec::new();
    let frame = encode_frame(&payload);
    assert_eq!(frame, vec![0, 0, 0, 0]);
    let (decoded, consumed) = decode_frame(&frame).unwrap();
    assert!(decoded.is_empty());
    assert_eq!(consumed, 4);
}

#[test]
fn oversized_declared_length_rejected_before_reading() {
    // A header declaring 11000000 bytes (over the 10 MiB ceiling) with no
    // payload behind it: rejected from the four header bytes alone.
    let header = 11_000_000u32.to_le_bytes();
    assert_eq!(decode_header(&header), Err(FrameError::Oversized));

    let buf = header.to_vec();
    assert_eq!(decode_frame(&buf), Err(FrameError::Oversized));
}

#[test]
fn ceiling_is_ten_mib() {
    assert_eq!(MAX_FRAME_LEN, 10 * 1024 * 1024);
    let header = MAX_FRAME_LEN.to_le_bytes();
    assert_eq!(decode_header(&header), Ok(MAX_FRAME_LEN));
    let header = (MAX_FRAME_LEN + 1).to_le_bytes();
    assert_eq!(decode_header(&header), Err(FrameError::Oversized));
}

#[test]
fn truncated_header_and_payload_rejected() {
    let buf = vec![1u8, 0];
    assert_eq!(decode_frame(&buf), Err(FrameError::Truncated));

    let mut buf = 10u32.to_le_bytes().to_vec();
    buf.extend_from_slice(b"short");
    assert_eq!(decode_frame(&buf), Err(FrameError::Truncated));
}
