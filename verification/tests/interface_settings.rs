use esp_wroom_32_slave::master::messages::interface_settings::{
    decode, default_reconnect_period, payload_interface, validate_ethernet, validate_wifi_ap,
    validate_wifi_station, EthernetSettings, InterfaceSettings, InterfaceType, SettingsError,
    WiFiAccessPointSettings, WiFiStationSettings,
};
use esp_wroom_32_slave::master::protocol::Packet;

fn texts(list: &[&str]) -> Vec<String> {
    list.iter().map(|s| s.to_string()).collect()
}

fn station() -> WiFiStationSettings {
    WiFiStationSettings {
        enabled: true,
        ssid: "MyWiFi".to_string(),
        password: "12345678".to_string(),
        reconnect_period: 15,
        dhcp: false,
        static_config: Some(texts(&[
            "192.168.1.100",
            "255.255.255.0",
            "192.168.1.1",
            "8.8.8.8",
            "8.8.4.4",
        ])),
    }
}

fn access_point() -> WiFiAccessPointSettings {
    WiFiAccessPointSettings {
        enabled: true,
        ssid: "ESP32-AP".to_string(),
        password: "12345678".to_string(),
        channel: 7,
        max_clients: 4,
        static_config: texts(&["192.168.4.1", "255.255.255.0"]),
    }
}

fn ethernet() -> EthernetSettings {
    EthernetSettings { enabled: true, dhcp: true, static_config: None }
}

fn packet(cmd: u8, parameter: u8) -> Packet<'static> {
    Packet { cmd, parameter, payload: &[] }
}

#[test]
fn interfaces_have_their_numbers() {
    let all = [
        InterfaceType::Undefined,
        InterfaceType::WiFiStation,
        InterfaceType::WiFiAccessPoint,
        InterfaceType::Ethernet,
    ];
    for (code, interface) in all.iter().enumerate() {
        assert_eq!(interface.as_u8() as usize, code);
        assert_eq!(InterfaceType::try_from(code as u8), Ok(*interface));
    }
    assert_eq!(InterfaceType::try_from(4), Err(SettingsError::UnknownInterface(4)));
}

#[test]
fn reconnect_period_defaults_to_a_quarter_minute() {
    assert_eq!(default_reconnect_period(), 15);
}

#[test]
fn station_settings_are_checked() {
    assert_eq!(validate_wifi_station(&station()), Ok(()));

    let mut s = station();
    s.ssid = "x".repeat(32);
    s.password = "y".repeat(64);
    s.reconnect_period = 600;
    assert_eq!(validate_wifi_station(&s), Ok(()));
    s.ssid = String::new();
    assert_eq!(validate_wifi_station(&s), Err(SettingsError::SsidLength { len: 0 }));
    s.ssid = "x".repeat(33);
    assert_eq!(validate_wifi_station(&s), Err(SettingsError::SsidLength { len: 33 }));
    // Seventeen letters of two bytes each.
    s.ssid = "я".repeat(17);
    assert_eq!(validate_wifi_station(&s), Err(SettingsError::SsidLength { len: 34 }));

    let mut s = station();
    s.password = String::new();
    assert_eq!(validate_wifi_station(&s), Ok(()));
    s.password = "y".repeat(65);
    assert_eq!(validate_wifi_station(&s), Err(SettingsError::PasswordLength { len: 65 }));

    let mut s = station();
    s.reconnect_period = 0;
    assert_eq!(validate_wifi_station(&s), Err(SettingsError::ReconnectPeriod(0)));
    s.reconnect_period = 601;
    assert_eq!(validate_wifi_station(&s), Err(SettingsError::ReconnectPeriod(601)));

    let mut s = station();
    s.static_config = None;
    assert_eq!(validate_wifi_station(&s), Err(SettingsError::StaticRequired));
    s.static_config = Some(texts(&["10.0.0.2"]));
    assert_eq!(validate_wifi_station(&s), Err(SettingsError::StaticCount { got: 1 }));
    s.dhcp = true;
    assert_eq!(validate_wifi_station(&s), Ok(()));
}

#[test]
fn access_point_settings_are_checked() {
    assert_eq!(validate_wifi_ap(&access_point()), Ok(()));

    let mut s = access_point();
    s.password = String::new();
    assert_eq!(validate_wifi_ap(&s), Ok(()));
    s.password = "1234567".to_string();
    assert_eq!(validate_wifi_ap(&s), Err(SettingsError::PasswordLength { len: 7 }));
    s.password = "y".repeat(64);
    assert_eq!(validate_wifi_ap(&s), Ok(()));
    s.password = "y".repeat(65);
    assert_eq!(validate_wifi_ap(&s), Err(SettingsError::PasswordLength { len: 65 }));

    let mut s = access_point();
    s.ssid = String::new();
    assert_eq!(validate_wifi_ap(&s), Err(SettingsError::SsidLength { len: 0 }));

    let mut s = access_point();
    s.channel = 0;
    assert_eq!(validate_wifi_ap(&s), Err(SettingsError::Channel(0)));
    s.channel = 14;
    assert_eq!(validate_wifi_ap(&s), Ok(()));
    s.channel = 15;
    assert_eq!(validate_wifi_ap(&s), Err(SettingsError::Channel(15)));

    let mut s = access_point();
    s.max_clients = 0;
    assert_eq!(validate_wifi_ap(&s), Err(SettingsError::MaxClients(0)));
    s.max_clients = 11;
    assert_eq!(validate_wifi_ap(&s), Err(SettingsError::MaxClients(11)));

    let mut s = access_point();
    s.static_config = texts(&["192.168.4.1"]);
    assert_eq!(validate_wifi_ap(&s), Err(SettingsError::StaticCount { got: 1 }));
}

#[test]
fn ethernet_settings_are_checked() {
    assert_eq!(validate_ethernet(&ethernet()), Ok(()));
    let mut s = ethernet();
    s.dhcp = false;
    assert_eq!(validate_ethernet(&s), Err(SettingsError::StaticRequired));
    s.static_config = Some(texts(&["1", "2", "3", "4"]));
    assert_eq!(validate_ethernet(&s), Err(SettingsError::StaticCount { got: 4 }));
    s.static_config = Some(texts(&["1", "2", "3", "4", "5"]));
    assert_eq!(validate_ethernet(&s), Ok(()));
}

#[test]
fn parameter_names_the_record() {
    assert_eq!(payload_interface(&packet(2, 1)), Ok(InterfaceType::WiFiStation));
    assert_eq!(payload_interface(&packet(2, 2)), Ok(InterfaceType::WiFiAccessPoint));
    assert_eq!(payload_interface(&packet(2, 3)), Ok(InterfaceType::Ethernet));
    assert_eq!(payload_interface(&packet(2, 0)), Err(SettingsError::UndefinedInterface));
    assert_eq!(payload_interface(&packet(2, 4)), Err(SettingsError::UnknownInterface(4)));
    assert_eq!(
        payload_interface(&packet(4, 1)),
        Err(SettingsError::NotInterfaceSettings { cmd: 4 })
    );
}

#[test]
fn valid_settings_are_accepted_for_their_interface() {
    let message = decode(&packet(2, 1), Some(InterfaceSettings::WiFiStation(station()))).unwrap();
    assert_eq!(message.interface, InterfaceType::WiFiStation);
    match message.settings {
        InterfaceSettings::WiFiStation(s) => assert_eq!(s.ssid, "MyWiFi"),
        _ => panic!("wrong settings"),
    }
    let message =
        decode(&packet(2, 2), Some(InterfaceSettings::WiFiAccessPoint(access_point()))).unwrap();
    assert_eq!(message.interface, InterfaceType::WiFiAccessPoint);
    let message = decode(&packet(2, 3), Some(InterfaceSettings::Ethernet(ethernet()))).unwrap();
    assert_eq!(message.interface, InterfaceType::Ethernet);
}

#[test]
fn other_settings_are_refused() {
    let err = |p: Packet<'static>, r| decode(&p, r).err().unwrap();
    assert_eq!(err(packet(2, 1), None), SettingsError::Malformed);
    assert_eq!(
        err(packet(2, 3), Some(InterfaceSettings::WiFiStation(station()))),
        SettingsError::Malformed
    );
    assert_eq!(
        err(packet(5, 1), Some(InterfaceSettings::WiFiStation(station()))),
        SettingsError::NotInterfaceSettings { cmd: 5 }
    );
    let mut s = access_point();
    s.channel = 99;
    assert_eq!(
        err(packet(2, 2), Some(InterfaceSettings::WiFiAccessPoint(s))),
        SettingsError::Channel(99)
    );
}
