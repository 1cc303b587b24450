use crowdllama_app_lib::codec::{encode, frame_len, read_frame, FrameError, DEFAULT_MAX_PAYLOAD};

#[test]
fn test_encode_prepends_big_endian_length() {
    let payload = vec![1u8, 2, 3];
    assert_eq!(encode(&payload), vec![0, 0, 0, 3, 1, 2, 3]);
    let empty: Vec<u8> = Vec::new();
    assert_eq!(encode(&empty), vec![0, 0, 0, 0]);
}

#[test]
fn test_encode_length_is_big_endian() {
    let payload = vec![0u8; 256];
    let frame = encode(&payload);
    assert_eq!(&frame[0..4], &[0, 0, 1, 0]);
    assert_eq!(frame.len(), 260);
}

#[test]
fn test_frame_round_trip() {
    let payloads: Vec<Vec<u8>> = vec![
        Vec::new(),
        vec![42],
        vec![0, 1, 2, 3, 4, 5, 6, 7, 8, 9],
        vec![0xFF; 300],
    ];
    for payload in payloads {
        let frame = encode(&payload);
        assert_eq!(read_frame(&frame, DEFAULT_MAX_PAYLOAD), Ok(payload));
    }
}

#[test]
fn test_read_frame_incomplete_prefix() {
    assert_eq!(
        read_frame(&vec![0, 0, 0], DEFAULT_MAX_PAYLOAD),
        Err(FrameError::IncompleteFrame)
    );
    let empty: Vec<u8> = Vec::new();
    assert_eq!(
        read_frame(&empty, DEFAULT_MAX_PAYLOAD),
        Err(FrameError::IncompleteFrame)
    );
}

#[test]
fn test_read_frame_incomplete_payload() {
    assert_eq!(
        read_frame(&vec![0, 0, 0, 5, 1, 2], DEFAULT_MAX_PAYLOAD),
        Err(FrameError::IncompleteFrame)
    );
}

#[test]
fn test_read_frame_huge_prefix_is_too_large() {
    // A complete prefix declaring about 4 GiB: refused before any payload is
    // read, whatever follows.
    assert_eq!(
        read_frame(&vec![0xFF, 0xFE, 0xFD, 0xFC], DEFAULT_MAX_PAYLOAD),
        Err(FrameError::FrameTooLarge)
    );
}

#[test]
fn test_read_frame_respects_custom_cap() {
    let frame = encode(&vec![1u8, 2, 3, 4, 5]);
    assert_eq!(read_frame(&frame, 4), Err(FrameError::FrameTooLarge));
    assert_eq!(read_frame(&frame, 5), Ok(vec![1, 2, 3, 4, 5]));
}

#[test]
fn test_frame_len_reads_big_endian() {
    assert_eq!(frame_len(&vec![0, 0, 1, 0]), 256);
    assert_eq!(frame_len(&vec![0xFF, 0xFE, 0xFD, 0xFC]), 0xFFFE_FDFC);
}
