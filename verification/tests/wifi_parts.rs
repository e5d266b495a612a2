use esp_wroom_32_slave::master::messages::interface_settings::{
    InterfaceType, WiFiAccessPointSettings,
};
use esp_wroom_32_slave::master::messages::interface_state::encode_rssi;
use esp_wroom_32_slave::master::protocol::{decode_packet, PacketError};
use esp_wroom_32_slave::network::addressing::IpInfo;
use esp_wroom_32_slave::network::report::{encode_report, Report};
use esp_wroom_32_slave::network::tasks::{send_effects, Effect};
use esp_wroom_32_slave::network::wifi::clients::ApClients;
use esp_wroom_32_slave::network::wifi::config::{
    build_ap_configuration, build_client_configuration, compose_wifi_mode_configuration,
    default_ap_settings, default_sta_settings, Configuration,
};
use esp_wroom_32_slave::network::wifi::ip::{apply_ap_ip_settings, apply_sta_ip_settings};
use esp_wroom_32_slave::network::wifi::scan::AuthMethod;
use esp_wroom_32_slave::network::wifi::state::{
    disconnect_reason_text, recv_next_or_stop, report_rssi_once, resolve_connect_error_code,
    send_interface_state, WifiDisconnectReason,
};

#[test]
fn disconnect_reasons_are_found_by_code() {
    assert_eq!(
        WifiDisconnectReason::from_code(15),
        Some(WifiDisconnectReason::FourWayHandshakeTimeout)
    );
    assert_eq!(WifiDisconnectReason::from_code(9), None);
    assert_eq!(WifiDisconnectReason::from_code(-1), None);
    assert_eq!(WifiDisconnectReason::Timeout.as_text(), "TIMEOUT");
    let known = (0..400).filter(|code| WifiDisconnectReason::from_code(*code).is_some()).count();
    assert_eq!(known, 27);
}

#[test]
fn disconnect_reasons_have_names() {
    assert_eq!(disconnect_reason_text(0), "UNKNOWN_OR_NOT_SET");
    assert_eq!(disconnect_reason_text(15), "4WAY_HANDSHAKE_TIMEOUT");
    assert_eq!(disconnect_reason_text(23), "802_1X_AUTH_FAILED");
    assert_eq!(disconnect_reason_text(201), "NO_AP_FOUND");
    assert_eq!(disconnect_reason_text(212), "NO_AP_FOUND_RSSI_THRESHOLD");
    assert_eq!(disconnect_reason_text(213), "OTHER");
}

#[test]
fn settings_or_the_end_of_the_task() {
    assert!(recv_next_or_stop(Some(default_sta_settings())).is_ok());
    assert!(recv_next_or_stop(None).is_err());
}

#[test]
fn disconnect_reason_is_used_up() {
    let mut reason = 15;
    assert_eq!(resolve_connect_error_code(0x3007, &mut reason), 15);
    assert_eq!(reason, 0);
    assert_eq!(resolve_connect_error_code(0x3007, &mut reason), 0x3007);
    assert_eq!(reason, 0);
}

#[test]
fn frames_that_could_be_built_are_queued() {
    let mut outbox = Vec::new();
    send_interface_state(&mut outbox, encode_rssi(InterfaceType::WiFiStation, -50));
    send_interface_state(&mut outbox, Err(PacketError::PayloadTooLarge { len: 1501 }));
    assert_eq!(outbox, vec![encode_rssi(InterfaceType::WiFiStation, -50).unwrap()]);
    report_rssi_once(&mut outbox, None);
    assert_eq!(outbox.len(), 1);
    report_rssi_once(&mut outbox, Some(-50));
    assert_eq!(outbox[1], outbox[0]);
}

#[test]
fn default_settings() {
    let s = default_sta_settings();
    assert!(!s.enabled && s.dhcp && s.static_config.is_none());
    assert_eq!((s.ssid.as_str(), s.password.as_str(), s.reconnect_period), ("disabled", "", 15));
    let s = default_ap_settings();
    assert!(!s.enabled);
    assert_eq!((s.ssid.as_str(), s.password.as_str()), ("ESP32-AP", "12345678"));
    assert_eq!((s.channel, s.max_clients), (1, 4));
    assert_eq!(s.static_config, vec!["192.168.4.1".to_string(), "255.255.255.0".to_string()]);
}

#[test]
fn station_configuration() {
    let mut s = default_sta_settings();
    s.ssid = "MyWiFi".to_string();
    let cfg = build_client_configuration(&s).unwrap();
    assert_eq!((cfg.ssid.as_str(), cfg.password.as_str()), ("MyWiFi", ""));
    assert_eq!(cfg.auth_method, AuthMethod::Open);
    s.password = "12345678".to_string();
    assert_eq!(build_client_configuration(&s).unwrap().auth_method, AuthMethod::Wpa2Personal);
    s.ssid = "x".repeat(33);
    assert!(build_client_configuration(&s).is_err());
    s.ssid = "x".repeat(32);
    s.password = "y".repeat(65);
    assert!(build_client_configuration(&s).is_err());
}

#[test]
fn access_point_configuration() {
    let cfg = build_ap_configuration(&default_ap_settings()).unwrap();
    assert_eq!((cfg.ssid.as_str(), cfg.password.as_str()), ("ap-disabled", "disabled-ap-profile"));
    assert!(cfg.ssid_hidden);
    assert_eq!((cfg.channel, cfg.max_connections), (1, 1));
    assert_eq!(cfg.auth_method, AuthMethod::Wpa2Personal);

    let mut s = WiFiAccessPointSettings { enabled: true, channel: 7, ..default_ap_settings() };
    let cfg = build_ap_configuration(&s).unwrap();
    assert_eq!((cfg.ssid.as_str(), cfg.password.as_str()), ("ESP32-AP", "12345678"));
    assert!(!cfg.ssid_hidden && cfg.secondary_channel.is_none());
    assert_eq!((cfg.channel, cfg.max_connections), (7, 4));
    s.password = String::new();
    assert_eq!(build_ap_configuration(&s).unwrap().auth_method, AuthMethod::Open);
    s.ssid = "x".repeat(33);
    assert!(build_ap_configuration(&s).is_err());
    s.enabled = false;
    assert!(build_ap_configuration(&s).is_ok());
}

#[test]
fn radio_serves_the_station_only_if_it_is_enabled() {
    let mut s = default_sta_settings();
    let ap = build_ap_configuration(&default_ap_settings()).unwrap();
    let client = build_client_configuration(&s).unwrap();
    assert!(matches!(
        compose_wifi_mode_configuration(&s, client.clone(), ap.clone()),
        Configuration::AccessPoint(_)
    ));
    s.enabled = true;
    assert!(matches!(
        compose_wifi_mode_configuration(&s, client, ap),
        Configuration::Mixed(_, _)
    ));
}

#[test]
fn address_plans_of_the_radio() {
    assert_eq!(apply_sta_ip_settings(&default_sta_settings()).unwrap().len(), 1);
    assert!(apply_ap_ip_settings(&default_ap_settings()).unwrap().is_empty());
    let s = WiFiAccessPointSettings { enabled: true, ..default_ap_settings() };
    assert_eq!(apply_ap_ip_settings(&s).unwrap().len(), 3);
}

#[test]
fn clients_of_the_access_point_come_and_go() {
    let mut clients = ApClients::new();
    let a = [1u8, 2, 3, 4, 5, 6];
    let b = [1u8, 2, 3, 4, 5, 7];
    assert!(matches!(
        clients.connected(a, [192, 168, 4, 2]),
        Report::ApClientConnected { mac: [1, 2, 3, 4, 5, 6], ip: [192, 168, 4, 2] }
    ));
    clients.connected(b, [192, 168, 4, 3]);
    clients.connected(a, [192, 168, 4, 4]);
    assert!(matches!(
        clients.disconnected(b),
        Report::ApClientDisconnected { mac: [1, 2, 3, 4, 5, 7] }
    ));
    clients.disconnected(b);
}

#[test]
fn reports_carry_their_records() {
    let json = |report: Report| {
        let frame = encode_report(report).unwrap();
        let packet = decode_packet(&frame).unwrap();
        let value: serde_json::Value = rmp_serde::from_slice(packet.payload).unwrap();
        (packet.cmd, packet.parameter, value.to_string())
    };
    let station = InterfaceType::WiFiStation;
    let mac = [0x11, 0x22, 0x33, 0x44, 0x55, 0x66];
    assert_eq!(
        json(Report::Connected { interface: station, mac }),
        (3, 1, r#"{"connected":true,"mac":"11:22:33:44:55:66"}"#.to_string())
    );
    assert_eq!(
        json(Report::ConnectError { interface: InterfaceType::Ethernet, code: 263 }),
        (3, 3, r#"{"error":263}"#.to_string())
    );
    let info = IpInfo { ip: [10, 0, 0, 2], netmask: [255, 0, 0, 0], gateway: [10, 0, 0, 1] };
    assert_eq!(
        json(Report::GotIp { interface: station, info }),
        (3, 1, r#"{"ip":["10.0.0.2","255.0.0.0","10.0.0.1"]}"#.to_string())
    );
    assert_eq!(json(Report::Rssi(-61)), (3, 1, r#"{"rssi":-61}"#.to_string()));
    assert_eq!(
        json(Report::Disconnected { interface: station, reason: 8 }),
        (3, 1, r#"{"connected":false,"reason":8}"#.to_string())
    );
    assert_eq!(json(Report::ApStarted), (3, 2, r#"{"started":true}"#.to_string()));
    assert_eq!(json(Report::ApStartError(1)).1, 2);
    assert_eq!(json(Report::ApClientConnected { mac, ip: [192, 168, 4, 100] }).1, 2);
    assert_eq!(json(Report::ApClientDisconnected { mac }).1, 2);
}

#[test]
fn effects_send_their_reports_in_order() {
    let mut outbox = Vec::new();
    let effects = vec![
        Effect::LinkUp,
        Effect::Report(Report::Rssi(-1)),
        Effect::ResetTcp,
        Effect::Report(Report::ApStarted),
        Effect::DriverStarted,
        Effect::LinkDown,
    ];
    send_effects(&effects, &mut outbox);
    assert_eq!(
        outbox,
        vec![
            encode_report(Report::Rssi(-1)).unwrap(),
            encode_report(Report::ApStarted).unwrap()
        ]
    );
}
