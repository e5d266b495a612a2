use esp_wroom_32_slave::master::controller::{
    payload_record, route, Controller, Record, RecordKind, Route, RouteError,
};
use esp_wroom_32_slave::master::messages::interface_settings::{
    EthernetSettings, InterfaceSettings, SettingsError,
};
use esp_wroom_32_slave::master::messages::service_settings::{
    NtpClientSettings, ServiceError, ServiceSettings, TcpServerSettings, UdpListenerSettings,
};
use esp_wroom_32_slave::master::messages::tcp_command::{TcpCommandError, TcpCommandPayload};
use esp_wroom_32_slave::master::messages::tcp_data::TcpDataError;
use esp_wroom_32_slave::master::messages::wifi_scan::{WifiScanError, WifiScanRequestPayload};
use esp_wroom_32_slave::master::protocol::Packet;
use esp_wroom_32_slave::network::ethernet;
use esp_wroom_32_slave::network::wifi::config::{default_ap_settings, default_sta_settings};
use esp_wroom_32_slave::network::wifi::task as wifi;
use esp_wroom_32_slave::services::latch::{LatchStep, LatchWait};
use esp_wroom_32_slave::services::{ntp_client, tcp_server, udp_listener};
use esp_wroom_32_slave::system::wdt::{
    configuration, InitStep, TaskWatchdog, Watch, WatchStep, ESP_ERR_INVALID_STATE,
    TASK_WDT_TIMEOUT_SECS,
};

fn packet(cmd: u8, parameter: u8) -> Packet<'static> {
    Packet { cmd, parameter, payload: &[1, 2, 3] }
}

#[test]
fn payloads_hold_their_records() {
    assert_eq!(payload_record(&packet(2, 1)), Some(RecordKind::WiFiStation));
    assert_eq!(payload_record(&packet(2, 2)), Some(RecordKind::WiFiAccessPoint));
    assert_eq!(payload_record(&packet(2, 3)), Some(RecordKind::Ethernet));
    assert_eq!(payload_record(&packet(4, 1)), Some(RecordKind::UdpListener));
    assert_eq!(payload_record(&packet(4, 2)), Some(RecordKind::TcpServer));
    assert_eq!(payload_record(&packet(4, 3)), Some(RecordKind::NtpClient));
    assert_eq!(payload_record(&packet(6, 3)), Some(RecordKind::TcpCommand));
    assert_eq!(payload_record(&packet(8, 0)), Some(RecordKind::WifiScanRequest));
    for (cmd, parameter) in [(2, 0), (2, 4), (4, 0), (4, 4), (6, 4), (8, 1), (7, 0), (1, 1), (9, 0)] {
        assert_eq!(payload_record(&packet(cmd, parameter)), None);
    }
}

#[test]
fn messages_go_to_their_tasks() {
    let ethernet = EthernetSettings { enabled: true, dhcp: true, static_config: None };
    let udp = UdpListenerSettings {
        request_ports: vec![1],
        response_ports: vec![2],
        request_type: "t".to_string(),
        service_id: "i".to_string(),
        device_type: 1,
        port: 3,
    };
    let tcp = TcpServerSettings { port: 1, client_timeout: 0 };
    let ntp = NtpClientSettings {
        enabled: true,
        timezone: 0,
        resync_period: 1,
        servers: vec!["s".to_string()],
    };
    let interface = |s| Some(Record::Interface(s));
    let service = |s| Some(Record::Service(s));
    assert!(matches!(
        route(&packet(2, 1), interface(InterfaceSettings::WiFiStation(default_sta_settings()))),
        Ok(Route::WiFiStation(_))
    ));
    assert!(matches!(
        route(&packet(2, 2), interface(InterfaceSettings::WiFiAccessPoint(default_ap_settings()))),
        Ok(Route::WiFiAccessPoint(_))
    ));
    assert!(matches!(
        route(&packet(2, 3), interface(InterfaceSettings::Ethernet(ethernet))),
        Ok(Route::Ethernet(_))
    ));
    assert!(matches!(
        route(&packet(4, 1), service(ServiceSettings::UdpListener(udp))),
        Ok(Route::UdpListener(_))
    ));
    assert!(matches!(
        route(&packet(4, 2), service(ServiceSettings::TcpServer(tcp))),
        Ok(Route::TcpServer(_))
    ));
    assert!(matches!(
        route(&packet(4, 3), service(ServiceSettings::NtpClient(ntp))),
        Ok(Route::NtpClient(_))
    ));
    let command = Some(Record::TcpCommand(TcpCommandPayload { close: true }));
    match route(&packet(6, 2), command) {
        Ok(Route::TcpCommand(message)) => assert_eq!(message.index, 2),
        other => panic!("unexpected {:?}", other),
    }
    match route(&packet(7, 3), None) {
        Ok(Route::TcpData(message)) => {
            assert_eq!((message.index, message.payload), (3, vec![1, 2, 3]))
        }
        other => panic!("unexpected {:?}", other),
    }
    let request = Some(Record::WifiScanRequest(WifiScanRequestPayload { limit: 7 }));
    match route(&packet(8, 0), request) {
        Ok(Route::WifiScan(message)) => assert_eq!(message.limit, 7),
        other => panic!("unexpected {:?}", other),
    }
    for cmd in [0, 1, 3, 5, 9, 255] {
        assert!(matches!(route(&packet(cmd, 1), None), Ok(Route::Ignored)));
    }
}

#[test]
fn faulty_messages_are_refused() {
    let err = |p: Packet<'static>, r| route(&p, r).err().unwrap();
    assert_eq!(err(packet(2, 1), None), RouteError::Interface(SettingsError::Malformed));
    assert_eq!(err(packet(2, 9), None), RouteError::Interface(SettingsError::UnknownInterface(9)));
    assert_eq!(err(packet(4, 0), None), RouteError::Service(ServiceError::UndefinedService));
    assert_eq!(err(packet(6, 4), None), RouteError::TcpCommand(TcpCommandError::IndexOutOfRange(4)));
    assert_eq!(err(packet(7, 4), None), RouteError::TcpData(TcpDataError::IndexOutOfRange(4)));
    assert_eq!(err(packet(8, 2), None), RouteError::WifiScan(WifiScanError::ParameterNotZero(2)));
    let command = Some(Record::TcpCommand(TcpCommandPayload { close: true }));
    assert_eq!(err(packet(8, 0), command), RouteError::WifiScan(WifiScanError::Malformed));
}

#[test]
fn start_is_announced_every_fifth_round_until_heard() {
    let mut controller = Controller::new();
    let announced: Vec<bool> = (0..12).map(|_| controller.tick()).collect();
    let expected: Vec<bool> = (0..12).map(|i| i % 5 == 0).collect();
    assert_eq!(announced, expected);
    controller.frame_received();
    assert!((0..20).all(|_| !controller.tick()));
}

#[test]
fn latch_is_waited_for_two_minutes() {
    let mut wait = LatchWait::new();
    let mut looks = 0;
    while let LatchStep::Wait { millis } = wait.look(1, 2) {
        assert_eq!(millis, 50);
        looks += 1;
    }
    assert_eq!(looks, 2400);
    assert_eq!(wait.look(1, 2), LatchStep::GiveUp);
    assert_eq!(wait.look(2, 2), LatchStep::Open);
    assert_eq!(LatchWait::new().look(3, 2), LatchStep::Open);
}

#[test]
fn watchdog_is_configured_in_milliseconds() {
    let config = configuration(TASK_WDT_TIMEOUT_SECS);
    assert_eq!((config.timeout_ms, config.idle_core_mask, config.trigger_panic), (10_000, 0, true));
    assert_eq!(configuration(u32::MAX).timeout_ms, u32::MAX);
    assert_eq!(configuration(4_294_967).timeout_ms, 4_294_967_000);
    assert_eq!(configuration(4_294_968).timeout_ms, u32::MAX);
}

#[test]
fn watchdog_that_was_set_up_before_is_reconfigured() {
    let mut watchdog = TaskWatchdog::new();
    assert!(!watchdog.enabled);
    assert_eq!(watchdog.initialized(Err(-1)), InitStep::Done);
    assert!(!watchdog.enabled);
    assert_eq!(watchdog.initialized(Err(ESP_ERR_INVALID_STATE)), InitStep::Reconfigure);
    assert!(!watchdog.enabled);
    watchdog.reconfigured();
    assert!(watchdog.enabled);
    let mut watchdog = TaskWatchdog::new();
    assert_eq!(watchdog.initialized(Ok(())), InitStep::Done);
    assert!(watchdog.enabled);
}

#[test]
fn task_is_under_the_watchdog_during_watched_calls() {
    let mut watch = Watch::new();
    assert_eq!(watch.before(false), WatchStep::Nothing);
    assert_eq!(watch.before(true), WatchStep::Subscribe);
    assert_eq!(watch.before(true), WatchStep::Feed);
    assert_eq!(watch.before(false), WatchStep::Unsubscribe);
    assert!(!watch.subscribed);
    assert_eq!(watch.before(true), WatchStep::Subscribe);
}

#[test]
fn long_calls_and_the_end_are_not_watched() {
    assert!(!wifi::Action::Connect.watched() && !wifi::Action::Stop.watched());
    assert!(wifi::Action::StartRadio.watched() && wifi::Action::InitDriver.watched());
    assert!(!ethernet::Action::Stop.watched() && ethernet::Action::StartDriver.watched());
    assert!(!ntp_client::Action::Ask { index: 0 }.watched() && !ntp_client::Action::Stop.watched());
    assert!(ntp_client::Action::CountLinks.watched());
    assert!(!tcp_server::Action::Stop.watched() && tcp_server::Action::Accept.watched());
    assert!(!udp_listener::Action::Stop.watched() && udp_listener::Action::WaitLatch.watched());
}
