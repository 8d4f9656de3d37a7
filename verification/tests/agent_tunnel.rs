use ak_platform::agent_tunnel::{tunnel_reply_body, tunnel_request_payload, ExtAuthentikAgentTunnelData};

/// The protobuf encoding of a `WhoAmIRequest` whose header names the profile "default".
const WHO_AM_I_DEFAULT: [u8; 11] = [10, 9, 10, 7, 100, 101, 102, 97, 117, 108, 116];

#[test]
fn ssh_serialize() {
    let ext = ExtAuthentikAgentTunnelData {
        method: "ping.Ping/Ping".to_string(),
        data: WHO_AM_I_DEFAULT.to_vec(),
    };
    assert_eq!(
        ext.serialize(),
        [
            0, 0, 0, 14, 112, 105, 110, 103, 46, 80, 105, 110, 103, 47, 80, 105, 110, 103, 0, 0, 0, 11, 10, 9,
            10, 7, 100, 101, 102, 97, 117, 108, 116
        ]
    );
}

#[test]
fn ssh_deserialize() {
    let encoded: Vec<u8> = vec![
        0, 0, 0, 27, 97, 103, 101, 110, 116, 95, 97, 117, 116, 104, 46, 65, 103, 101, 110, 116, 65, 117, 116,
        104, 47, 87, 104, 111, 65, 109, 73, 0, 0, 0, 0,
    ];
    let parsed = ExtAuthentikAgentTunnelData::deserialize(&encoded).unwrap();
    assert_eq!(parsed.method, "agent_auth.AgentAuth/WhoAmI");
    // The payload carries an empty request message.
    assert!(parsed.data.is_empty());
}

#[test]
fn ssh_deserialize_rejects_short_payloads() {
    assert!(ExtAuthentikAgentTunnelData::deserialize(&[0, 0, 0]).is_none());
    assert!(ExtAuthentikAgentTunnelData::deserialize(&[0, 0, 0, 2, b'a', b'b', 0, 0]).is_none());
    assert!(ExtAuthentikAgentTunnelData::deserialize(&[0, 0, 0, 1, b'a', 0, 0, 0, 2, 1]).is_none());
}

#[test]
fn request_payload_strips_frame_and_slashes() {
    let body = vec![0u8, 0, 0, 0, 2, 8, 9];
    let payload = tunnel_request_payload("/ping.Ping/Ping", &body).unwrap();
    let parsed = ExtAuthentikAgentTunnelData::deserialize(&payload).unwrap();
    assert_eq!(parsed.method, "ping.Ping/Ping");
    assert_eq!(parsed.data, vec![8u8, 9]);
    assert!(tunnel_request_payload("/ping.Ping/Ping", &[0u8, 0]).is_err());
}

#[test]
fn reply_body_is_framed() {
    let raw = ExtAuthentikAgentTunnelData { method: "m".to_string(), data: vec![4u8, 2] }.serialize();
    assert_eq!(tunnel_reply_body(&raw), Some(vec![0u8, 0, 0, 0, 2, 4, 2]));
    assert_eq!(tunnel_reply_body(&[1u8]), None);
}
