use esp_wroom_32_slave::master::messages::service_state::{
    encode_ntp_error, encode_ntp_synced, encode_tcp_connected, encode_tcp_disconnected,
    TcpDisconnectReason,
};
use esp_wroom_32_slave::master::protocol::{decode_packet, PacketError};

fn check(frame: Result<Vec<u8>, PacketError>, parameter: u8, json: &str) {
    let frame = frame.unwrap();
    let packet = decode_packet(&frame).unwrap();
    assert_eq!(packet.cmd, 5);
    assert_eq!(packet.parameter, parameter);
    let got: serde_json::Value = rmp_serde::from_slice(packet.payload).unwrap();
    let expected: serde_json::Value = serde_json::from_str(json).unwrap();
    assert_eq!(got, expected);
}

#[test]
fn tcp_states_carry_their_records() {
    check(
        encode_tcp_connected(0, "192.168.1.123".to_string(), 12345),
        2,
        r#"{ "connected": true, "index": 0, "remoteIp": "192.168.1.123", "remotePort": 12345 }"#,
    );
    check(
        encode_tcp_disconnected(0, TcpDisconnectReason::ClientClosedConnection),
        2,
        r#"{ "connected": false, "index": 0, "reason": 1 }"#,
    );
}

#[test]
fn ntp_states_carry_their_records() {
    check(
        encode_ntp_synced(2, 1713700000, "1.pool.ntp.org".to_string()),
        3,
        r#"{ "stratum": 2, "timet": 1713700000, "server": "1.pool.ntp.org" }"#,
    );
    check(
        encode_ntp_synced(1, -43200, "s".to_string()),
        3,
        r#"{ "stratum": 1, "timet": -43200, "server": "s" }"#,
    );
    check(
        encode_ntp_synced(1, 5_000_000_000, "s".to_string()),
        3,
        r#"{ "stratum": 1, "timet": 5000000000, "server": "s" }"#,
    );
    check(
        encode_ntp_error(1, "1.pool.ntp.org".to_string()),
        3,
        r#"{ "error": 1, "server": "1.pool.ntp.org" }"#,
    );
}

#[test]
fn disconnect_reasons_have_their_numbers() {
    assert_eq!(TcpDisconnectReason::Undefined.as_u8(), 0);
    assert_eq!(TcpDisconnectReason::ClientClosedConnection.as_u8(), 1);
    assert_eq!(TcpDisconnectReason::ServerClosedConnection.as_u8(), 2);
    assert_eq!(TcpDisconnectReason::InactivityTimeout.as_u8(), 3);
    assert_eq!(TcpDisconnectReason::NotConnected.as_u8(), 4);
}
