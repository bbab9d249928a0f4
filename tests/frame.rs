use smolvm::frame::{check_header, decode_frame, encode_frame, header_len, FrameDecode, FrameError, MAX_FRAME_LEN};

#[test]
fn ping_frame_layout() {
    let payload = br#"{"type":"Ping"}"#;
    let framed = encode_frame(payload, MAX_FRAME_LEN).unwrap();
    assert_eq!(&framed[..4], &[0x00, 0x00, 0x00, 0x0F]);
    assert_eq!(&framed[4..], payload);
}

#[test]
fn decode_round_trip_and_partial() {
    let framed = encode_frame(b"hello", MAX_FRAME_LEN).unwrap();
    let mut stream = framed.clone();
    stream.extend_from_slice(b"\x00\x00");
    assert_eq!(
        decode_frame(&stream, MAX_FRAME_LEN),
        FrameDecode::Complete { payload: b"hello".to_vec(), consumed: 9 }
    );
    assert_eq!(decode_frame(&framed[..6], MAX_FRAME_LEN), FrameDecode::NeedMore);
    assert_eq!(decode_frame(&framed[..3], MAX_FRAME_LEN), FrameDecode::NeedMore);
    assert_eq!(
        decode_frame(&[0, 0, 0, 0], MAX_FRAME_LEN),
        FrameDecode::Complete { payload: vec![], consumed: 4 }
    );
}

#[test]
fn oversize_rejected_from_header() {
    let header = [0x04, 0x00, 0x00, 0x01];
    assert_eq!(header_len(header), 64 * 1024 * 1024 + 1);
    assert_eq!(
        check_header(header, MAX_FRAME_LEN),
        Err(FrameError::FrameTooLarge { len: 64 * 1024 * 1024 + 1, max: MAX_FRAME_LEN })
    );
    assert_eq!(check_header([0x04, 0, 0, 0], MAX_FRAME_LEN), Ok(64 * 1024 * 1024));
    assert_eq!(
        decode_frame(&[0xFF, 0xFF, 0xFF, 0xFF], MAX_FRAME_LEN),
        FrameDecode::TooLarge { declared: u32::MAX }
    );
    assert_eq!(
        encode_frame(&[1, 2, 3], 2),
        Err(FrameError::FrameTooLarge { len: 3, max: 2 })
    );
}
