use ak_platform::decimal::{i32_to_decimal, parse_i32};
use ak_platform::grpc_frame::FrameError;
use ak_platform::tunnel_dispatch::call_reply_of;
use ak_platform::grpc_frame::grpc_frame;
use ak_platform::method_caller::{
    call_outcome, grpc_code_from_status, grpc_status, parse_service_name, resolve_call, split_grpc_path,
    CallError, ServiceTable,
};
use ak_platform::tunnel_dispatch::{
    tunnel_reply, tunnel_request_from_raw, tunnel_request_payload, tunnel_response_for, CallReply,
    TunnelReplyError, STATUS_INTERNAL,
};
use ak_platform::tunnel_ext::{ExtAuthentikAgentTunnelData, ExtAuthentikAgentTunnelResponse};

fn make_table() -> ServiceTable {
    let mut table = ServiceTable::new();
    table.add("ping.Ping".to_string());
    table
}

#[test]
fn service_names_contains_registered_service() {
    let table = make_table();
    let names = table.service_names();
    assert!(names.contains(&"ping.Ping".to_string()), "got: {:?}", names);
}

#[test]
fn unknown_service_returns_error() {
    let table = make_table();
    let err = resolve_call(&table, "/unknown.Service/Method").unwrap_err();
    assert!(err.to_string().contains("unknown service"), "got: {}", err.to_string());
}

#[test]
fn invalid_method_path_returns_error() {
    let table = make_table();
    let err = resolve_call(&table, "badpath").unwrap_err();
    assert!(err.to_string().contains("invalid method path"), "got: {}", err.to_string());
}

#[test]
fn known_methods_resolve_to_their_service() {
    let table = make_table();
    assert_eq!(resolve_call(&table, "/ping.Ping/Ping").ok(), Some(0));
    assert_eq!(resolve_call(&table, "/ping.Ping/Capabilities").ok(), Some(0));
}

#[test]
fn adding_a_service_twice_keeps_one_slot() {
    let mut table = make_table();
    let second = table.add("agent_auth.AgentAuth".to_string());
    let again = table.add("ping.Ping".to_string());
    assert_eq!(second, 1);
    assert_eq!(again, 0);
    assert_eq!(table.service_names(), vec!["ping.Ping".to_string(), "agent_auth.AgentAuth".to_string()]);
    assert_eq!(table.find("agent_auth.AgentAuth"), Some(1));
    assert_eq!(table.find("nope"), None);
}

#[test]
fn service_name_is_before_the_last_slash() {
    assert_eq!(parse_service_name("/ping.Ping/Ping").ok(), Some("ping.Ping".to_string()));
    assert_eq!(parse_service_name("//a/b/c").ok(), Some("a/b".to_string()));
    assert!(matches!(parse_service_name("noslash"), Err(CallError::InvalidMethodPath(_))));
}

#[test]
fn split_path_into_service_and_method() {
    assert_eq!(split_grpc_path("/ping.Ping/Ping"), ("ping.Ping".to_string(), "Ping".to_string()));
    assert_eq!(split_grpc_path("/only"), ("only".to_string(), String::new()));
    assert_eq!(split_grpc_path("a/b/c"), ("a".to_string(), "b/c".to_string()));
}

#[test]
fn status_header_parsing() {
    assert_eq!(grpc_status(&None), 0);
    assert_eq!(grpc_status(&Some("5".to_string())), 5);
    assert_eq!(grpc_status(&Some("-3".to_string())), -3);
    assert_eq!(grpc_status(&Some("x".to_string())), 0);
    assert_eq!(grpc_code_from_status(&Some("16".to_string())), 16);
    assert_eq!(grpc_code_from_status(&Some("17".to_string())), 2);
    assert_eq!(grpc_code_from_status(&Some("-1".to_string())), 2);
    assert_eq!(grpc_code_from_status(&None), 0);
}

#[test]
fn call_outcome_reports_status_or_unframes() {
    let body = grpc_frame(&[1u8, 2]);
    assert_eq!(call_outcome(&None, &None, &body).ok(), Some(vec![1u8, 2]));
    match call_outcome(&Some("5".to_string()), &Some("no such user".to_string()), &body) {
        Err(CallError::Status(code, msg)) => {
            assert_eq!(code, 5);
            assert_eq!(msg, "no such user");
        }
        _ => panic!("expected a status error"),
    }
    match call_outcome(&Some("13".to_string()), &None, &body) {
        Err(e) => assert_eq!(e.to_string(), "gRPC status 13: gRPC call failed"),
        Ok(_) => panic!("expected a status error"),
    }
    assert!(matches!(call_outcome(&None, &None, &[0u8]), Err(CallError::Frame(_))));
}

#[test]
fn dispatch_decodes_requests_or_answers_internal() {
    let raw = ExtAuthentikAgentTunnelData { method: "/ping.Ping/Ping".to_string(), data: vec![1u8] }.serialize();
    let req = tunnel_request_from_raw(&raw).ok().unwrap();
    assert_eq!(req.method, "/ping.Ping/Ping");
    let err = tunnel_request_from_raw(&[1u8]).err().unwrap();
    assert_eq!(err.status, STATUS_INTERNAL);
    assert_eq!(err.message, "failed to decode tunnel request");
    assert_eq!(err.method, "");
}

#[test]
fn dispatch_response_carries_call_outcome() {
    let ok = tunnel_response_for(
        "/m".to_string(),
        Ok(CallReply { data: vec![3u8], status: 0, message: String::new() }),
    );
    assert_eq!(ok.data, vec![3u8]);
    assert_eq!(ok.status, 0);
    let failed = tunnel_response_for("/m".to_string(), Err("boom".to_string()));
    assert_eq!(failed.status, 13);
    assert_eq!(failed.message, "boom");
    assert!(failed.data.is_empty());
}

#[test]
fn client_side_payload_and_reply() {
    let payload = tunnel_request_payload("/ping.Ping/Ping".to_string(), &grpc_frame(&[7u8])).ok().unwrap();
    let parsed = ExtAuthentikAgentTunnelData::deserialize(&payload).unwrap();
    assert_eq!(parsed.method, "/ping.Ping/Ping");
    assert_eq!(parsed.data, vec![7u8]);

    assert!(matches!(tunnel_reply(&[]), Err(TunnelReplyError::EmptyResponse)));
    assert!(matches!(tunnel_reply(&[1u8, 2]), Err(TunnelReplyError::Unparseable)));
    let ok = ExtAuthentikAgentTunnelResponse::ok("/m".to_string(), vec![5u8]).serialize();
    let reply = tunnel_reply(&ok).ok().unwrap();
    assert_eq!(reply.status, 0);
    assert_eq!(reply.body, grpc_frame(&[5u8]));
    let err = ExtAuthentikAgentTunnelResponse::error("/m".to_string(), 5, "nope".to_string()).serialize();
    let reply = tunnel_reply(&err).ok().unwrap();
    assert_eq!(reply.status, 5);
    assert_eq!(reply.message, "nope");
    assert!(reply.body.is_empty());
    assert_eq!(TunnelReplyError::EmptyResponse.to_string(), "empty tunnel response");
}

#[test]
fn call_outcomes_become_tunnel_replies() {
    let ok = call_reply_of(Ok(vec![1u8])).unwrap();
    assert_eq!((ok.data, ok.status, ok.message), (vec![1u8], 0, String::new()));
    let status = call_reply_of(Err(CallError::Status(5, "no such user".to_string()))).unwrap();
    assert_eq!((status.data, status.status, status.message), (Vec::new(), 5, "no such user".to_string()));
    let failed = call_reply_of(Err(CallError::UnknownService("x.Y".to_string()))).unwrap_err();
    assert_eq!(failed, "unknown service: x.Y");
    let frame = call_reply_of(Err(CallError::Frame(FrameError::TooShort))).unwrap_err();
    assert!(frame.contains("too short"));
}

#[test]
fn status_text_round_trips() {
    for n in [0, 1, -1, 16, 2_000_000, i32::MAX, i32::MIN] {
        assert_eq!(parse_i32(&i32_to_decimal(n)), Some(n));
        assert_eq!(grpc_status(&Some(i32_to_decimal(n))), n);
    }
}
