use ak_platform::agent_tunnel::{add_grpc_frame, strip_grpc_frame, StripError};
use ak_platform::grpc_frame::{grpc_frame, grpc_unframe, FrameError};

#[test]
fn grpc_unframe_valid() {
    let data = [0x00u8, 0x00, 0x00, 0x00, 0x05, 1, 2, 3, 4, 5];
    let result = grpc_unframe(&data).unwrap();
    assert_eq!(result, &[1u8, 2, 3, 4, 5]);
}

#[test]
fn grpc_unframe_empty_payload() {
    let data = [0x00u8, 0x00, 0x00, 0x00, 0x00];
    let result = grpc_unframe(&data).unwrap();
    assert_eq!(result, &[] as &[u8]);
}

#[test]
fn grpc_unframe_too_short() {
    let err = grpc_unframe(&[0x00u8, 0x01, 0x02]).unwrap_err();
    assert!(err.to_string().contains("too short"), "error was: {}", err.to_string());
}

#[test]
fn grpc_unframe_length_exceeds_buffer() {
    // Header claims 100 bytes, only 3 bytes of payload follow.
    let mut data = vec![0x00u8, 0x00, 0x00, 0x00, 100];
    data.extend_from_slice(&[1u8, 2, 3]);
    let err = grpc_unframe(&data).unwrap_err();
    assert!(err.to_string().contains("truncated"), "error was: {}", err.to_string());
}

#[test]
fn grpc_frame_header_bytes() {
    assert_eq!(
        grpc_frame(b"hello"),
        [0x00, 0x00, 0x00, 0x00, 0x05, b'h', b'e', b'l', b'l', b'o']
    );
}

#[test]
fn grpc_frame_empty() {
    assert_eq!(grpc_frame(b""), [0x00, 0x00, 0x00, 0x00, 0x00]);
}

#[test]
fn roundtrip_add_then_strip() {
    let original = b"some proto bytes";
    let framed = grpc_frame(original);
    let stripped = grpc_unframe(&framed).unwrap();
    assert_eq!(stripped, original);
}

#[test]
fn unframe_ignores_bytes_after_the_message() {
    let data = [0u8, 0, 0, 0, 2, 7, 8, 9, 9];
    assert_eq!(grpc_unframe(&data).unwrap(), vec![7u8, 8]);
}

#[test]
fn unframe_errors_are_distinguished() {
    assert!(matches!(grpc_unframe(&[0u8; 4]), Err(FrameError::TooShort)));
    assert!(matches!(grpc_unframe(&[0u8, 0, 0, 1, 0]), Err(FrameError::Truncated)));
}

#[test]
fn frame_length_is_big_endian() {
    let data = vec![0xabu8; 300];
    let framed = grpc_frame(&data);
    assert_eq!(&framed[..5], &[0u8, 0, 0, 1, 44]);
    assert_eq!(framed.len(), 305);
}

#[test]
fn tunnel_add_then_strip() {
    let framed = add_grpc_frame(b"abc");
    assert_eq!(framed, vec![0u8, 0, 0, 0, 3, b'a', b'b', b'c']);
    assert_eq!(strip_grpc_frame(&framed).unwrap(), b"abc".to_vec());
}

#[test]
fn tunnel_strip_errors() {
    assert!(matches!(strip_grpc_frame(&[0u8, 0, 0]), Err(StripError::TooShort)));
    assert!(matches!(strip_grpc_frame(&[0u8, 0, 0, 0, 9, 1]), Err(StripError::LengthExceedsBuffer)));
}

#[test]
fn strip_undoes_add() {
    for len in [0usize, 1, 5, 255, 256, 70_000] {
        let proto: Vec<u8> = (0..len).map(|i| (i % 251) as u8).collect();
        assert_eq!(strip_grpc_frame(&add_grpc_frame(&proto)).unwrap(), proto);
        assert_eq!(grpc_unframe(&grpc_frame(&proto)).unwrap(), proto);
    }
}
