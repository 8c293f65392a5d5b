use tunnelize::common::transport::{
    encode_length, frame_message, is_connection_end, read_failure, read_frame_length, read_result,
    MessageError, StreamErrorKind, MAX_MESSAGE_LENGTH,
};

#[test]
fn frame_starts_with_big_endian_length() {
    let frame = frame_message(b"hello").ok().unwrap();
    assert_eq!(frame, vec![0, 0, 0, 5, b'h', b'e', b'l', b'l', b'o']);
}

#[test]
fn empty_body_is_framed_with_zero_length() {
    assert_eq!(frame_message(&[]).ok().unwrap(), vec![0, 0, 0, 0]);
}

#[test]
fn length_bytes_are_most_significant_first() {
    assert_eq!(encode_length(0x0102_0304), vec![1, 2, 3, 4]);
    assert_eq!(encode_length(MAX_MESSAGE_LENGTH), vec![0x00, 0x98, 0x96, 0x80]);
    assert_eq!(encode_length(u32::MAX), vec![0xff, 0xff, 0xff, 0xff]);
}

#[test]
fn header_reads_back_the_length_it_was_made_from() {
    for n in [0u32, 1, 255, 256, 65_535, 65_536, 9_999_999, MAX_MESSAGE_LENGTH] {
        let bytes = encode_length(n);
        let header = [bytes[0], bytes[1], bytes[2], bytes[3]];
        assert!(matches!(read_frame_length(header), Ok(m) if m == n));
    }
}

#[test]
fn header_over_the_limit_is_an_invalid_length() {
    let bytes = encode_length(MAX_MESSAGE_LENGTH + 1);
    let header = [bytes[0], bytes[1], bytes[2], bytes[3]];
    assert!(matches!(
        read_frame_length(header),
        Err(MessageError::InvalidLength(n)) if n == MAX_MESSAGE_LENGTH + 1
    ));
    assert!(matches!(
        read_frame_length([0xff, 0xff, 0xff, 0xff]),
        Err(MessageError::InvalidLength(u32::MAX))
    ));
}

#[test]
fn body_over_the_limit_is_refused_with_its_length() {
    let body = vec![7u8; (MAX_MESSAGE_LENGTH + 1) as usize];
    assert!(matches!(
        frame_message(&body),
        Err(MessageError::InvalidLength(n)) if n == MAX_MESSAGE_LENGTH + 1
    ));
}

#[test]
fn serialized_message_frames_and_reads_back() {
    let message = "Hello, world!".to_string();
    let serialized = rmp_serde::to_vec(&message).unwrap();
    let frame = frame_message(&serialized).ok().unwrap();
    let header = [frame[0], frame[1], frame[2], frame[3]];
    let length = read_frame_length(header).ok().unwrap();
    assert_eq!(length as usize, serialized.len());
    let body = &frame[4..4 + length as usize];
    let decoded: String = rmp_serde::from_slice(body).unwrap();
    assert_eq!(decoded, message);
}

#[test]
fn reading_nothing_means_the_connection_closed() {
    assert!(matches!(read_result(4, 0), Err(MessageError::ConnectionClosed)));
    assert!(matches!(read_result(4, 4), Ok(4)));
}

#[test]
fn connection_ending_failures_close_the_connection() {
    for kind in [
        StreamErrorKind::UnexpectedEof,
        StreamErrorKind::ConnectionAborted,
        StreamErrorKind::ConnectionReset,
        StreamErrorKind::BrokenPipe,
    ] {
        assert!(is_connection_end(kind));
        let error = std::io::Error::new(std::io::ErrorKind::Other, "x");
        assert!(matches!(read_failure(kind, error), MessageError::ConnectionClosed));
    }
}

#[test]
fn other_failures_stay_io_errors() {
    for kind in [
        StreamErrorKind::WouldBlock,
        StreamErrorKind::ConnectionRefused,
        StreamErrorKind::Other,
    ] {
        assert!(!is_connection_end(kind));
        let error = std::io::Error::new(std::io::ErrorKind::Other, "boom");
        match read_failure(kind, error) {
            MessageError::IoError(e) => assert_eq!(e.to_string(), "boom"),
            _ => panic!("expected an I/O error"),
        }
    }
}

#[test]
fn errors_describe_themselves() {
    assert_eq!(
        MessageError::InvalidLength(12_345_678).describe(),
        "Message longer than 10MB. Length: 12345678 bytes."
    );
    assert_eq!(MessageError::ConnectionClosed.describe(), "Connection closed.");
    let io = std::io::Error::new(std::io::ErrorKind::Other, "disk on fire");
    assert_eq!(MessageError::IoError(io).describe(), "IO error: disk on fire");
}

#[test]
fn outside_errors_are_described_by_their_kind() {
    let decode = rmp_serde::from_slice::<u32>(&[0xc1]).unwrap_err();
    assert!(MessageError::DecodeError(decode).describe().starts_with("Decoding error: "));
    let encode = rmp_serde::encode::Error::Syntax("bad".to_string());
    assert_eq!(MessageError::EncodeError(encode).describe(), "Encoding error: bad");
}
