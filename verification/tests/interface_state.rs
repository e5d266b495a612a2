use esp_wroom_32_slave::master::messages::interface_settings::InterfaceType;
use esp_wroom_32_slave::master::messages::interface_state::{
    encode_ap_client_connected, encode_ap_client_disconnected, encode_ap_start_error,
    encode_ap_started, encode_connect_error, encode_connected, encode_disconnected, encode_got_ip,
    encode_rssi,
};
use esp_wroom_32_slave::master::protocol::{decode_packet, PacketError};

fn check(frame: Result<Vec<u8>, PacketError>, parameter: u8, json: &str) {
    let frame = frame.unwrap();
    let packet = decode_packet(&frame).unwrap();
    assert_eq!(packet.cmd, 3);
    assert_eq!(packet.parameter, parameter);
    let got: serde_json::Value = rmp_serde::from_slice(packet.payload).unwrap();
    let expected: serde_json::Value = serde_json::from_str(json).unwrap();
    assert_eq!(got, expected);
}

#[test]
fn station_states_carry_their_records() {
    check(
        encode_connected(InterfaceType::WiFiStation, "94:B9:7E:C2:EC:C4".to_string()),
        1,
        r#"{ "connected": true, "mac": "94:B9:7E:C2:EC:C4" }"#,
    );
    check(
        encode_got_ip(
            InterfaceType::WiFiStation,
            [
                "192.168.1.100".to_string(),
                "255.255.255.0".to_string(),
                "192.168.1.1".to_string(),
            ],
        ),
        1,
        r#"{ "ip": ["192.168.1.100", "255.255.255.0", "192.168.1.1"] }"#,
    );
    check(
        encode_connect_error(InterfaceType::WiFiStation, 12345),
        1,
        r#"{ "error": 12345 }"#,
    );
    check(
        encode_disconnected(InterfaceType::WiFiStation, 8),
        1,
        r#"{ "connected": false, "reason": 8 }"#,
    );
    check(encode_rssi(InterfaceType::WiFiStation, -67), 1, r#"{ "rssi": -67 }"#);
}

#[test]
fn access_point_states_carry_their_records() {
    check(encode_ap_started(InterfaceType::WiFiAccessPoint), 2, r#"{ "started": true }"#);
    check(
        encode_ap_start_error(InterfaceType::WiFiAccessPoint, 12345),
        2,
        r#"{ "started": false, "error": 12345 }"#,
    );
    check(
        encode_ap_client_connected(
            InterfaceType::WiFiAccessPoint,
            "11:22:33:44:55:66".to_string(),
            "192.168.4.100".to_string(),
        ),
        2,
        r#"{ "clientConnected": true, "mac": "11:22:33:44:55:66", "ip": "192.168.4.100" }"#,
    );
    check(
        encode_ap_client_disconnected(
            InterfaceType::WiFiAccessPoint,
            "11:22:33:44:55:66".to_string(),
        ),
        2,
        r#"{ "clientConnected": false, "mac": "11:22:33:44:55:66" }"#,
    );
}

#[test]
fn payload_bytes_are_messagepack() {
    let payload = |frame: Result<Vec<u8>, PacketError>| {
        let frame = frame.unwrap();
        frame[5..frame.len() - 2].to_vec()
    };
    assert_eq!(
        payload(encode_ap_started(InterfaceType::WiFiAccessPoint)),
        b"\x81\xa7started\xc3"
    );
    assert_eq!(
        payload(encode_disconnected(InterfaceType::Ethernet, 0)),
        b"\x82\xa9connected\xc2\xa6reason\x00"
    );
    let int = |n: i32| payload(encode_rssi(InterfaceType::WiFiStation, n));
    assert_eq!(int(0), b"\x81\xa4rssi\x00");
    assert_eq!(int(127), b"\x81\xa4rssi\x7f");
    assert_eq!(int(128), b"\x81\xa4rssi\xcc\x80");
    assert_eq!(int(255), b"\x81\xa4rssi\xcc\xff");
    assert_eq!(int(256), b"\x81\xa4rssi\xcd\x01\x00");
    assert_eq!(int(65535), b"\x81\xa4rssi\xcd\xff\xff");
    assert_eq!(int(65536), b"\x81\xa4rssi\xce\x00\x01\x00\x00");
    assert_eq!(int(-1), b"\x81\xa4rssi\xff");
    assert_eq!(int(-32), b"\x81\xa4rssi\xe0");
    assert_eq!(int(-33), b"\x81\xa4rssi\xd0\xdf");
    assert_eq!(int(-128), b"\x81\xa4rssi\xd0\x80");
    assert_eq!(int(-129), b"\x81\xa4rssi\xd1\xff\x7f");
    assert_eq!(int(-32768), b"\x81\xa4rssi\xd1\x80\x00");
    assert_eq!(int(-32769), b"\x81\xa4rssi\xd2\xff\xff\x7f\xff");
    assert_eq!(int(i32::MIN), b"\x81\xa4rssi\xd2\x80\x00\x00\x00");
}

#[test]
fn texts_of_every_length_read_back() {
    for len in [0usize, 1, 31, 32, 255, 256, 1400] {
        let text = "ж".repeat(len / 2) + &"x".repeat(len % 2);
        let json = format!("{{ \"clientConnected\": false, \"mac\": \"{}\" }}", text);
        check(encode_ap_client_disconnected(InterfaceType::WiFiAccessPoint, text), 2, &json);
    }
    let long = "x".repeat(1500);
    assert!(matches!(
        encode_ap_client_disconnected(InterfaceType::WiFiAccessPoint, long),
        Err(PacketError::PayloadTooLarge { len: 1525 })
    ));
}
