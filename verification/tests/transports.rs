use std::cell::Cell;
use ak_platform::grpc_support::{
    assert_response_valid, client_transport, decode_pb_bytes, encode_pb_bytes, DialOutcome, GrpcError,
    ResponseHeader, TraceLayer, Transport,
};
use ak_platform::hardware_key::{hardware_error, open_or_generate_step, EnclaveFailure, HardwareKeyError, KeyAction};
use ak_platform::local_transport::{
    creation_umask, relay_pipe_name, relay_plist_name, socket_mode, MessageReader, RegistrationMemo, SocketPermMode,
};

#[test]
fn response_header_check() {
    assert!(assert_response_valid(None).is_ok());
    assert!(assert_response_valid(Some(ResponseHeader { successful: true })).is_ok());
    let err = assert_response_valid(Some(ResponseHeader { successful: false })).unwrap_err();
    assert_eq!(err.to_string(), "unsuccessful request");
}

#[test]
fn pb_tokens_round_trip() {
    assert_eq!(encode_pb_bytes(b"hello"), "aGVsbG8=");
    assert_eq!(encode_pb_bytes(&[0, 1, 2, 250]), "AAEC+g==");
    assert_eq!(decode_pb_bytes("AAEC+g==").unwrap(), vec![0u8, 1, 2, 250]);
    let raw = vec![8u8, 150, 1];
    assert_eq!(decode_pb_bytes(&encode_pb_bytes(&raw)).unwrap(), raw);
    assert!(decode_pb_bytes("not base64!").is_err());
    assert!(decode_pb_bytes("aGVsbG8").is_err());
}

#[test]
fn explicit_path_does_not_fall_back_to_ssh() {
    assert_eq!(client_transport(true, DialOutcome::SocketNotFound, true), Transport::Fail);
}

#[test]
fn missing_default_socket_falls_back_to_ssh() {
    assert_eq!(client_transport(false, DialOutcome::SocketNotFound, true), Transport::SshTunnel);
    assert_eq!(client_transport(false, DialOutcome::SocketNotFound, false), Transport::Fail);
    assert_eq!(client_transport(false, DialOutcome::OtherError, true), Transport::Fail);
    assert_eq!(client_transport(true, DialOutcome::Connected, false), Transport::Socket);
}

#[test]
fn grpc_error_messages() {
    assert_eq!(GrpcError::SocketNotFound().to_string(), "socket not found");
    assert_eq!(GrpcError::Other("x".to_string()).to_string(), "x");
    let status = GrpcError::Status(tonic::Status::not_found("no such user"));
    assert!(status.to_string().contains("no such user"));
    let _layer = TraceLayer::new();
}

#[test]
fn socket_modes_and_umask() {
    assert_eq!(socket_mode(SocketPermMode::Owner), 0o600);
    assert_eq!(socket_mode(SocketPermMode::Everyone), 0o666);
    assert_eq!(socket_mode(SocketPermMode::Admin), 0o660);
    assert_eq!(creation_umask(0o600), 0o177);
    assert_eq!(creation_umask(0o666), 0o111);
    assert_eq!(creation_umask(0o660), 0o117);
}

#[test]
fn relay_names() {
    assert_eq!(relay_plist_name(), "io.goauthentik.platform.sysd-ctrl-relay.plist");
    assert_eq!(relay_pipe_name("abc"), r"\\.\pipe\ak-sysd-ctrl-relay-abc");
}

#[test]
fn registration_is_memoized() {
    let mut memo = RegistrationMemo::new();
    assert!(memo.needs_registration());
    memo.record(Err("denied".to_string()));
    memo.record(Ok(()));
    assert!(!memo.needs_registration());
    assert_eq!(memo.outcome(), Some(Err("denied".to_string())));
}

#[test]
fn messages_read_as_a_stream() {
    let mut reader = MessageReader::new();
    assert!(reader.is_drained());
    reader.receive(vec![1, 2, 3, 4, 5]);
    assert_eq!(reader.read(2), vec![1, 2]);
    assert_eq!(reader.read(10), vec![3, 4, 5]);
    assert!(reader.is_drained());
    reader.receive(vec![6]);
    assert_eq!(reader.read(0), Vec::<u8>::new());
    assert_eq!(reader.read(1), vec![6]);
}

#[test]
fn hardware_key_steps() {
    assert!(matches!(open_or_generate_step(Ok(())), KeyAction::Open));
    assert!(matches!(open_or_generate_step(Err(EnclaveFailure::KeyNotFound("no key".to_string()))), KeyAction::Generate));
    assert!(matches!(
        open_or_generate_step(Err(EnclaveFailure::NotAvailable)),
        KeyAction::Fail(HardwareKeyError::NotAvailable)
    ));
    assert_eq!(hardware_error(EnclaveFailure::NotAvailable).to_string(), "hardware key storage not available");
    assert_eq!(hardware_error(EnclaveFailure::Other("tpm".to_string())).to_string(), "tpm");
}

#[test]
fn registration_runs_once() {
    let calls = Cell::new(0);
    let mut memo = RegistrationMemo::new();
    let first = ak_platform::local_transport::ensure_registered(&mut memo, || {
        calls.set(calls.get() + 1);
        Err("needs approval".to_string())
    });
    let second = ak_platform::local_transport::ensure_registered(&mut memo, || {
        calls.set(calls.get() + 1);
        Ok(())
    });
    assert_eq!(first, Err("needs approval".to_string()));
    assert_eq!(second, Err("needs approval".to_string()));
    assert_eq!(calls.get(), 1);
}
