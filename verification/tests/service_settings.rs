use esp_wroom_32_slave::master::messages::service_settings::{
    decode, default_ntp_resync_period, payload_service, validate_ntp_client, validate_tcp_server,
    validate_udp_listener, NtpClientSettings, ServiceError, ServiceSettings, ServiceType,
    TcpServerSettings, UdpListenerSettings,
};
use esp_wroom_32_slave::master::protocol::Packet;

fn udp() -> UdpListenerSettings {
    UdpListenerSettings {
        request_ports: vec![47701, 23629],
        response_ports: vec![23569, 21913],
        request_type: "XXX".to_string(),
        service_id: "YYY".to_string(),
        device_type: 0,
        port: 8000,
    }
}

fn ntp() -> NtpClientSettings {
    NtpClientSettings {
        enabled: true,
        timezone: 180,
        resync_period: 15,
        servers: vec!["0.pool.ntp.org".to_string(), "1.pool.ntp.org".to_string()],
    }
}

fn packet(cmd: u8, parameter: u8) -> Packet<'static> {
    Packet { cmd, parameter, payload: &[] }
}

#[test]
fn services_have_their_numbers() {
    let all = [
        ServiceType::Undefined,
        ServiceType::UdpListener,
        ServiceType::TcpServer,
        ServiceType::NtpClient,
    ];
    for (code, service) in all.iter().enumerate() {
        assert_eq!(service.as_u8() as usize, code);
        assert_eq!(ServiceType::try_from(code as u8), Ok(*service));
    }
    assert_eq!(ServiceType::try_from(4), Err(ServiceError::UnknownService(4)));
}

#[test]
fn resync_period_defaults_to_a_quarter_hour() {
    assert_eq!(default_ntp_resync_period(), 15);
}

#[test]
fn udp_settings_are_checked() {
    assert_eq!(validate_udp_listener(&udp()), Ok(()));

    let mut s = udp();
    s.request_ports = vec![];
    assert_eq!(validate_udp_listener(&s), Err(ServiceError::RequestPortCount { got: 0 }));
    s.request_ports = vec![1, 2, 3];
    assert_eq!(validate_udp_listener(&s), Err(ServiceError::RequestPortCount { got: 3 }));
    s.request_ports = vec![1, 0];
    assert_eq!(validate_udp_listener(&s), Err(ServiceError::RequestPortZero));
    s.request_ports = vec![65535];
    assert_eq!(validate_udp_listener(&s), Ok(()));

    let mut s = udp();
    s.response_ports = vec![];
    assert_eq!(validate_udp_listener(&s), Err(ServiceError::ResponsePortCount { got: 0 }));
    s.response_ports = vec![0];
    assert_eq!(validate_udp_listener(&s), Err(ServiceError::ResponsePortZero));

    let mut s = udp();
    s.request_type = String::new();
    assert_eq!(validate_udp_listener(&s), Err(ServiceError::RequestTypeEmpty));

    let mut s = udp();
    s.service_id = String::new();
    assert_eq!(validate_udp_listener(&s), Err(ServiceError::ServiceIdLength { len: 0 }));
    s.service_id = "i".repeat(32);
    assert_eq!(validate_udp_listener(&s), Ok(()));
    s.service_id = "i".repeat(33);
    assert_eq!(validate_udp_listener(&s), Err(ServiceError::ServiceIdLength { len: 33 }));

    let mut s = udp();
    s.port = 0;
    assert_eq!(validate_udp_listener(&s), Err(ServiceError::PortZero));
}

#[test]
fn tcp_settings_are_checked() {
    let check = |port: u16, client_timeout: u16| {
        validate_tcp_server(&TcpServerSettings { port, client_timeout })
    };
    assert_eq!(check(8000, 0), Ok(()));
    assert_eq!(check(1, 600), Ok(()));
    assert_eq!(check(0, 0), Err(ServiceError::PortZero));
    assert_eq!(check(8000, 601), Err(ServiceError::ClientTimeout(601)));
}

#[test]
fn ntp_settings_are_checked() {
    assert_eq!(validate_ntp_client(&ntp()), Ok(()));

    let mut s = ntp();
    s.timezone = -720;
    assert_eq!(validate_ntp_client(&s), Ok(()));
    s.timezone = -721;
    assert_eq!(validate_ntp_client(&s), Err(ServiceError::Timezone(-721)));
    s.timezone = 840;
    assert_eq!(validate_ntp_client(&s), Ok(()));
    s.timezone = 841;
    assert_eq!(validate_ntp_client(&s), Err(ServiceError::Timezone(841)));

    let mut s = ntp();
    s.servers = vec![];
    assert_eq!(validate_ntp_client(&s), Err(ServiceError::ServerCount { got: 0 }));
    s.enabled = false;
    assert_eq!(validate_ntp_client(&s), Err(ServiceError::ServerCount { got: 0 }));
    s.servers = vec!["a".to_string(); 4];
    assert_eq!(validate_ntp_client(&s), Err(ServiceError::ServerCount { got: 4 }));

    let mut s = ntp();
    s.resync_period = 0;
    assert_eq!(validate_ntp_client(&s), Err(ServiceError::ResyncPeriod(0)));
    s.resync_period = 1440;
    assert_eq!(validate_ntp_client(&s), Ok(()));
    s.resync_period = 1441;
    assert_eq!(validate_ntp_client(&s), Err(ServiceError::ResyncPeriod(1441)));

    for blank in ["", " ", "\t\n", "\u{a0}\u{2003}\u{3000}"] {
        let mut s = ntp();
        s.servers[1] = blank.to_string();
        assert_eq!(validate_ntp_client(&s), Err(ServiceError::ServerBlank));
        s.servers[1] = format!("{}x{}", blank, blank);
        assert_eq!(validate_ntp_client(&s), Ok(()));
    }
}

#[test]
fn parameter_names_the_service_record() {
    assert_eq!(payload_service(&packet(4, 1)), Ok(ServiceType::UdpListener));
    assert_eq!(payload_service(&packet(4, 2)), Ok(ServiceType::TcpServer));
    assert_eq!(payload_service(&packet(4, 3)), Ok(ServiceType::NtpClient));
    assert_eq!(payload_service(&packet(4, 0)), Err(ServiceError::UndefinedService));
    assert_eq!(payload_service(&packet(4, 9)), Err(ServiceError::UnknownService(9)));
    assert_eq!(payload_service(&packet(2, 1)), Err(ServiceError::NotServiceSettings { cmd: 2 }));
}

#[test]
fn service_settings_are_accepted_or_refused() {
    let message = decode(&packet(4, 1), Some(ServiceSettings::UdpListener(udp()))).unwrap();
    assert_eq!(message.service, ServiceType::UdpListener);
    let message = decode(&packet(4, 3), Some(ServiceSettings::NtpClient(ntp()))).unwrap();
    match message.settings {
        ServiceSettings::NtpClient(s) => assert_eq!(s.servers.len(), 2),
        _ => panic!("wrong settings"),
    }
    let tcp = TcpServerSettings { port: 0, client_timeout: 0 };
    let err = |p: Packet<'static>, r| decode(&p, r).err().unwrap();
    assert_eq!(err(packet(4, 2), Some(ServiceSettings::TcpServer(tcp))), ServiceError::PortZero);
    assert_eq!(err(packet(4, 2), None), ServiceError::Malformed);
    assert_eq!(
        err(packet(4, 2), Some(ServiceSettings::NtpClient(ntp()))),
        ServiceError::Malformed
    );
}
