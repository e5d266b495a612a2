use esp_wroom_32_slave::network::addressing::{
    ap_ip_plan, client_ip_plan, ipv4_to_esp, parse_ap_static_settings, parse_optional_ipv4,
    parse_static_client_settings, IpInfo, IpSetup, IpStep, NetifOp, ESP_ERR_INVALID_ARG,
};
use esp_wroom_32_slave::network::ipv4::{format_ipv4, parse_ipv4, InvalidArgument};
use esp_wroom_32_slave::text::format_mac;

fn texts(list: &[&str]) -> Vec<String> {
    list.iter().map(|s| s.to_string()).collect()
}

#[test]
fn addresses_read_back() {
    for octets in [[0, 0, 0, 0], [1, 10, 100, 255], [192, 168, 4, 1], [255, 255, 255, 255]] {
        let text = format_ipv4(octets);
        assert_eq!(parse_ipv4(&text), Ok(octets));
    }
    assert_eq!(format_ipv4([192, 168, 1, 100]), "192.168.1.100");
    for n in 0..=255u8 {
        assert_eq!(parse_ipv4(&format_ipv4([n, 0, n, 9])), Ok([n, 0, n, 9]));
    }
}

#[test]
fn other_texts_are_no_addresses() {
    for text in [
        "",
        "1.2.3",
        "1.2.3.4.5",
        "256.1.1.1",
        "01.2.3.4",
        "1.2.3.04",
        "1..2.3",
        ".1.2.3",
        "1.2.3.",
        " 1.2.3.4",
        "1.2.3.4 ",
        "1.2.3.a",
        "-1.2.3.4",
        "1234.1.1.1",
        "1.2.3.999",
        "١.2.3.4",
        "192.168.100.1000",
    ] {
        assert_eq!(parse_ipv4(text), Err(InvalidArgument), "{}", text);
        assert!(text.parse::<embedded_svc::ipv4::Ipv4Addr>().is_err());
    }
}

#[test]
fn missing_name_server_is_allowed() {
    assert_eq!(parse_optional_ipv4(""), Ok(None));
    assert_eq!(parse_optional_ipv4("8.8.4.4"), Ok(Some([8, 8, 4, 4])));
    assert_eq!(parse_optional_ipv4("x"), Err(InvalidArgument));
}

#[test]
fn static_configurations_are_parsed() {
    let s = parse_static_client_settings(&texts(&[
        "192.168.0.123",
        "255.255.255.0",
        "192.168.0.1",
        "8.8.8.8",
        "",
    ]))
    .unwrap();
    assert_eq!(s.ip, [192, 168, 0, 123]);
    assert_eq!(s.netmask, [255, 255, 255, 0]);
    assert_eq!(s.gateway, [192, 168, 0, 1]);
    assert_eq!(s.dns, Some([8, 8, 8, 8]));
    assert_eq!(s.secondary_dns, None);
    for bad in [
        texts(&["192.168.0.123", "255.255.255.0", "192.168.0.1", "8.8.8.8"]),
        texts(&["", "255.255.255.0", "192.168.0.1", "", ""]),
        texts(&["192.168.0.123", "255.255.255.0", "192.168.0.1", "", "dns"]),
    ] {
        assert!(parse_static_client_settings(&bad).is_err());
    }

    let s = parse_ap_static_settings(&texts(&["192.168.4.1", "255.255.255.0"])).unwrap();
    assert_eq!((s.ip, s.netmask, s.gateway), ([192, 168, 4, 1], [255, 255, 255, 0], [192, 168, 4, 1]));
    assert_eq!((s.dns, s.secondary_dns), (None, None));
    assert!(parse_ap_static_settings(&texts(&["192.168.4.1"])).is_err());
}

#[test]
fn first_octet_is_the_lowest_byte() {
    assert_eq!(ipv4_to_esp([1, 2, 3, 4]), 0x04030201);
    assert_eq!(ipv4_to_esp([192, 168, 4, 1]), 0x0104A8C0);
}

#[test]
fn client_plan_follows_the_settings() {
    assert_eq!(client_ip_plan(true, &None), Ok(vec![NetifOp::DhcpClientStart]));
    assert_eq!(client_ip_plan(false, &None), Err(InvalidArgument));
    let values = Some(texts(&["10.0.0.2", "255.0.0.0", "10.0.0.1", "1.1.1.1", ""]));
    assert_eq!(
        client_ip_plan(false, &values),
        Ok(vec![
            NetifOp::DhcpClientStop,
            NetifOp::SetIpInfo { ip: 0x0200000A, netmask: 0x000000FF, gateway: 0x0100000A },
            NetifOp::SetMainDns { addr: 0x01010101 },
            NetifOp::SetBackupDns { addr: 0 },
        ])
    );
}

#[test]
fn access_point_plan_follows_the_settings() {
    let values = texts(&["192.168.4.1", "255.255.255.0"]);
    assert_eq!(ap_ip_plan(false, &values), Ok(vec![]));
    assert_eq!(
        ap_ip_plan(true, &values),
        Ok(vec![
            NetifOp::DhcpServerStop,
            NetifOp::SetIpInfo { ip: 0x0104A8C0, netmask: 0x00FFFFFF, gateway: 0x0104A8C0 },
            NetifOp::DhcpServerStart,
        ])
    );
    assert_eq!(ap_ip_plan(true, &texts(&["x", "y"])), Err(InvalidArgument));
}

#[test]
fn setup_stops_at_the_first_failure() {
    let (mut setup, step) =
        IpSetup::start(Ok(vec![NetifOp::DhcpServerStop, NetifOp::DhcpServerStart]));
    assert_eq!(step, IpStep::Call(NetifOp::DhcpServerStop));
    assert_eq!(setup.next(Ok(())), IpStep::Call(NetifOp::DhcpServerStart));
    assert_eq!(setup.next(Ok(())), IpStep::Over(Ok(())));

    let (mut setup, _) =
        IpSetup::start(Ok(vec![NetifOp::DhcpServerStop, NetifOp::DhcpServerStart]));
    assert_eq!(setup.next(Err(-1)), IpStep::Over(Err(-1)));

    let (mut setup, step) = IpSetup::start(client_ip_plan(true, &None));
    assert_eq!(step, IpStep::Call(NetifOp::DhcpClientStart));
    assert_eq!(setup.next(Err(0x5001)), IpStep::Over(Ok(())));

    let (_, step) = IpSetup::start(client_ip_plan(false, &None));
    assert_eq!(step, IpStep::Over(Err(ESP_ERR_INVALID_ARG)));
    let (_, step) = IpSetup::start(Ok(vec![]));
    assert_eq!(step, IpStep::Over(Ok(())));
}

#[test]
fn prefix_gives_the_subnet_mask() {
    let mask = |prefix: u8| IpInfo::new([1, 2, 3, 4], prefix, [5, 6, 7, 8]).netmask;
    assert_eq!(mask(24), [255, 255, 255, 0]);
    assert_eq!(mask(32), [255, 255, 255, 255]);
    assert_eq!(mask(1), [128, 0, 0, 0]);
    assert_eq!(mask(20), [255, 255, 240, 0]);
    let info = IpInfo::new([1, 2, 3, 4], 8, [5, 6, 7, 8]);
    assert_eq!((info.ip, info.gateway), ([1, 2, 3, 4], [5, 6, 7, 8]));
}

#[test]
fn mac_addresses_are_upper_case_hexadecimal() {
    assert_eq!(format_mac([0x94, 0xB9, 0x7E, 0xC2, 0xEC, 0xC4]), "94:B9:7E:C2:EC:C4");
    assert_eq!(format_mac([0, 1, 10, 15, 16, 255]), "00:01:0A:0F:10:FF");
}
