use ak_platform::tunnel_ext::{
    push_field, ExtAuthentikAgentTunnelData, ExtAuthentikAgentTunnelResponse, SSH_AGENT_EXT_RESPONSE_TYPE,
};

/// The protobuf encoding of a `WhoAmIRequest` whose header names the profile "default".
const WHO_AM_I_DEFAULT: [u8; 11] = [10, 9, 10, 7, 100, 101, 102, 97, 117, 108, 116];

#[test]
fn ext_serialize() {
    let ext = ExtAuthentikAgentTunnelData {
        method: "ping.Ping/Ping".to_string(),
        data: WHO_AM_I_DEFAULT.to_vec(),
    };
    assert_eq!(
        ext.serialize(),
        [
            0, 0, 0, 14, 112, 105, 110, 103, 46, 80, 105, 110, 103, 47, 80, 105, 110, 103, 0, 0, 0, 11, 10, 9,
            10, 7, 100, 101, 102, 97, 117, 108, 116
        ]
    );
}

#[test]
fn ext_deserialize() {
    let encoded: Vec<u8> = vec![
        0, 0, 0, 14, 112, 105, 110, 103, 46, 80, 105, 110, 103, 47, 80, 105, 110, 103, 0, 0, 0, 11, 10, 9, 10,
        7, 100, 101, 102, 97, 117, 108, 116,
    ];
    let parsed = ExtAuthentikAgentTunnelData::deserialize(&encoded).unwrap();
    assert_eq!(parsed.method, "ping.Ping/Ping");
    // The data is the WhoAmIRequest for the profile "default".
    assert_eq!(parsed.data, WHO_AM_I_DEFAULT.to_vec());
    assert_eq!(&parsed.data[4..], b"default");
}

#[test]
fn deserialize_truncated_returns_none() {
    assert!(ExtAuthentikAgentTunnelData::deserialize(&[0, 0, 0, 14, 112]).is_none());
    assert!(ExtAuthentikAgentTunnelData::deserialize(&[0, 0, 0, 1]).is_none());
    assert!(ExtAuthentikAgentTunnelData::deserialize(&[]).is_none());
}

#[test]
fn deserialize_empty_data_field() {
    let ext = ExtAuthentikAgentTunnelData {
        method: "/ping.Ping/Ping".to_string(),
        data: Vec::new(),
    };
    let parsed = ExtAuthentikAgentTunnelData::deserialize(&ext.serialize()).unwrap();
    assert_eq!(parsed.method, "/ping.Ping/Ping");
    assert!(parsed.data.is_empty());
}

#[test]
fn response_roundtrip_ok() {
    let res = ExtAuthentikAgentTunnelResponse::ok("/ping.Ping/Ping".to_string(), vec![1, 2, 3, 4, 5]);
    let parsed = ExtAuthentikAgentTunnelResponse::deserialize(&res.serialize()).expect("must parse");
    assert_eq!(parsed.method, "/ping.Ping/Ping");
    assert_eq!(parsed.data, vec![1, 2, 3, 4, 5]);
    assert_eq!(parsed.status, 0);
    assert_eq!(parsed.message, "");
}

#[test]
fn response_roundtrip_error() {
    let res = ExtAuthentikAgentTunnelResponse::error("/ping.Ping/Ping".to_string(), 5, "no such user".to_string());
    let parsed = ExtAuthentikAgentTunnelResponse::deserialize(&res.serialize()).expect("must parse");
    assert!(parsed.data.is_empty());
    assert_eq!(parsed.status, 5);
    assert_eq!(parsed.message, "no such user");
}

#[test]
fn response_without_status_fields_parses_as_ok() {
    let mut legacy = vec![SSH_AGENT_EXT_RESPONSE_TYPE];
    push_field(&mut legacy, b"/ping.Ping/Ping");
    push_field(&mut legacy, &[9, 9]);

    let parsed = ExtAuthentikAgentTunnelResponse::deserialize(&legacy).expect("must parse");
    assert_eq!(parsed.method, "/ping.Ping/Ping");
    assert_eq!(parsed.data, vec![9, 9]);
    assert_eq!(parsed.status, 0);
    assert_eq!(parsed.message, "");
}

#[test]
fn response_rejects_empty_mistagged_and_truncated_payloads() {
    assert!(ExtAuthentikAgentTunnelResponse::deserialize(&[]).is_none());

    let res = ExtAuthentikAgentTunnelResponse::error("/a.B/C".to_string(), 5, "nope".to_string());

    let mut mistagged = res.serialize();
    mistagged[0] = SSH_AGENT_EXT_RESPONSE_TYPE + 1;
    assert!(ExtAuthentikAgentTunnelResponse::deserialize(&mistagged).is_none());

    let full = res.serialize();
    assert!(ExtAuthentikAgentTunnelResponse::deserialize(&full[..full.len() - 3]).is_none());
}

#[test]
fn push_field_prefixes_the_length() {
    let mut buf = vec![7u8];
    push_field(&mut buf, b"ab");
    assert_eq!(buf, vec![7u8, 0, 0, 0, 2, b'a', b'b']);
}

#[test]
fn response_wire_layout() {
    let res = ExtAuthentikAgentTunnelResponse::error("/a".to_string(), -1, "x".to_string());
    assert_eq!(
        res.serialize(),
        vec![29u8, 0, 0, 0, 2, b'/', b'a', 0, 0, 0, 0, 0xff, 0xff, 0xff, 0xff, 0, 0, 0, 1, b'x']
    );
    let parsed = ExtAuthentikAgentTunnelResponse::deserialize(&res.serialize()).unwrap();
    assert_eq!(parsed.status, -1);
}

#[test]
fn request_with_invalid_utf8_method_is_rejected() {
    let buf = vec![0u8, 0, 0, 1, 0xff, 0, 0, 0, 0];
    assert!(ExtAuthentikAgentTunnelData::deserialize(&buf).is_none());
}

#[test]
fn every_truncation_but_the_head_is_rejected() {
    let res = ExtAuthentikAgentTunnelResponse::error("/a.B/C".to_string(), 7, "message".to_string());
    let full = res.serialize();
    // Tag, method field (4 + 6 bytes) and empty data field (4 bytes).
    let head = 1 + 4 + 6 + 4;
    for n in 0..full.len() {
        let parsed = ExtAuthentikAgentTunnelResponse::deserialize(&full[..n]);
        if n == head {
            let p = parsed.expect("the head reads as an OK response");
            assert_eq!(p.status, 0);
            assert_eq!(p.method, "/a.B/C");
        } else {
            assert!(parsed.is_none(), "prefix of {} bytes was accepted", n);
        }
    }
}

#[test]
fn bytes_after_the_data_field_are_ignored() {
    let x = ExtAuthentikAgentTunnelData { method: "/ping.Ping/Ping".to_string(), data: vec![] };
    let mut b = x.serialize();
    b.extend([9u8, 9, 9, 9, 9]);
    let d = ExtAuthentikAgentTunnelData::deserialize(&b).unwrap();
    assert_eq!(d.method, "/ping.Ping/Ping");
    assert!(d.data.is_empty());
}
