use esp_wroom_32_slave::master::messages::interface_settings::{
    InterfaceType, WiFiAccessPointSettings, WiFiStationSettings,
};
use esp_wroom_32_slave::network::addressing::{IpInfo, ESP_ERR_INVALID_ARG};
use esp_wroom_32_slave::network::report::Report;
use esp_wroom_32_slave::network::tasks::{Effect, Received};
use esp_wroom_32_slave::network::wifi::config::{
    default_ap_settings, default_sta_settings, Configuration,
};
use esp_wroom_32_slave::network::wifi::task::{Action, Event, Phase, WifiTask};

fn station() -> WiFiStationSettings {
    WiFiStationSettings {
        enabled: true,
        ssid: "MyWiFi".to_string(),
        password: "12345678".to_string(),
        ..default_sta_settings()
    }
}

fn access_point() -> WiFiAccessPointSettings {
    WiFiAccessPointSettings { enabled: true, ..default_ap_settings() }
}

fn show(effects: &[Effect]) -> Vec<String> {
    effects
        .iter()
        .map(|e| match e {
            Effect::DriverStarted => "driver".to_string(),
            Effect::LinkUp => "up".to_string(),
            Effect::LinkDown => "down".to_string(),
            Effect::ResetTcp => "reset".to_string(),
            Effect::Report(r) => match r {
                Report::Connected { interface: InterfaceType::WiFiStation, .. } => {
                    "connected".to_string()
                }
                Report::ConnectError { interface: InterfaceType::WiFiStation, code } => {
                    format!("error {}", code)
                }
                Report::GotIp { interface: InterfaceType::WiFiStation, .. } => "ip".to_string(),
                Report::Rssi(v) => format!("rssi {}", v),
                Report::Disconnected { interface: InterfaceType::WiFiStation, reason } => {
                    format!("disconnected {}", reason)
                }
                Report::ApStarted => "ap".to_string(),
                Report::ApStartError(code) => format!("ap error {}", code),
                other => format!("{:?}", other),
            },
        })
        .collect()
}

/// A step whose effects are compared.
fn step(task: &mut WifiTask, event: Event, now: u64, expected: &[&str]) {
    let effects = task.step(event, now);
    assert_eq!(show(&effects), expected.to_vec());
}

fn info() -> IpInfo {
    IpInfo { ip: [10, 0, 0, 2], netmask: [255, 0, 0, 0], gateway: [10, 0, 0, 1] }
}

/// A task that has taken both settings and is about to configure the radio.
fn configured(s: WiFiStationSettings, ap: Option<WiFiAccessPointSettings>) -> WifiTask {
    let mut task = WifiTask::new();
    assert_eq!(task.action(), Action::InitDriver);
    step(&mut task, Event::Driver(true), 0, &["driver"]);
    assert_eq!(task.action(), Action::WaitStation { millis: 250 });
    step(&mut task, Event::Station(Received::Nothing), 0, &[]);
    assert_eq!(task.action(), Action::ServeScans);
    step(&mut task, Event::Scanned, 0, &[]);
    step(&mut task, Event::Station(Received::Got(s)), 0, &[]);
    assert_eq!(task.action(), Action::PollAp);
    if let Some(ap) = ap {
        step(&mut task, Event::Ap(Received::Got(ap)), 0, &[]);
        assert_eq!(task.action(), Action::PollAp);
    }
    task
}

/// A station task that has just started to connect.
fn connecting(ap: Option<WiFiAccessPointSettings>) -> WifiTask {
    let with_ap = ap.is_some();
    let mut task = configured(station(), ap);
    step(&mut task, Event::Ap(Received::Nothing), 0, &[]);
    assert_eq!(task.action(), Action::IsStarted);
    step(&mut task, Event::Flag(Some(true)), 0, &["reset"]);
    assert_eq!(task.action(), Action::StopRadio);
    step(&mut task, Event::Done(Err(-1)), 0, &[]);
    assert_eq!(task.action(), Action::Configure);
    assert!(matches!(task.configuration(), Ok(Configuration::Mixed(_, _))));
    step(&mut task, Event::Done(Ok(())), 0, &[]);
    assert_eq!(task.action(), Action::ApplyStationIp);
    step(&mut task, Event::Done(Ok(())), 0, &[]);
    assert_eq!(task.action(), Action::ApplyApIp);
    step(&mut task, Event::Done(Ok(())), 0, &[]);
    assert_eq!(task.action(), Action::StartRadio);
    step(&mut task, Event::Done(Ok(())), 0, if with_ap { &["ap"] } else { &[] });
    assert_eq!(task.action(), Action::Connect);
    task
}

/// A station task whose interface is awaited from 1000 on.
fn awaiting_netif() -> WifiTask {
    let mut task = connecting(None);
    step(&mut task, Event::Done(Ok(())), 900, &[]);
    assert_eq!(task.action(), Action::ReadMac);
    step(&mut task, Event::Mac(Some([1, 2, 3, 4, 5, 6])), 1000, &["connected"]);
    assert_eq!(task.action(), Action::IsUp);
    task
}

/// A station task that watches its link; the signal was read at 2000.
fn monitoring() -> WifiTask {
    let mut task = awaiting_netif();
    step(&mut task, Event::Flag(Some(true)), 2000, &["up"]);
    assert_eq!(task.action(), Action::ReadIpInfo);
    step(&mut task, Event::Ip(Some(info())), 2000, &["ip"]);
    assert_eq!(task.action(), Action::ReadRssi);
    step(&mut task, Event::Rssi(Some(-60)), 2000, &["rssi -60"]);
    assert_eq!(task.action(), Action::ServeScans);
    task
}

fn monitor_round(task: &mut WifiTask, now: u64) {
    step(task, Event::Scanned, now, &[]);
    assert_eq!(task.action(), Action::PollAp);
    step(task, Event::Ap(Received::Nothing), now, &[]);
    assert_eq!(task.action(), Action::PollStation);
    step(task, Event::Station(Received::Nothing), now, &[]);
    assert_eq!(task.action(), Action::IsConnected);
    step(task, Event::Flag(Some(true)), now, &[]);
    assert_eq!(task.action(), Action::IsUp);
    step(task, Event::Flag(Some(true)), now, &[]);
}

#[test]
fn driver_that_does_not_start_ends_the_task() {
    let mut task = WifiTask::new();
    step(&mut task, Event::Driver(false), 0, &["driver"]);
    assert_eq!(task.action(), Action::Stop);
    step(&mut task, Event::Driver(true), 0, &[]);
    step(&mut task, Event::Station(Received::Got(station())), 0, &[]);
    assert_eq!(task.action(), Action::Stop);
}

#[test]
fn closed_queue_ends_the_task() {
    let mut task = WifiTask::new();
    step(&mut task, Event::Driver(true), 0, &["driver"]);
    step(&mut task, Event::Station(Received::Closed), 0, &[]);
    assert_eq!(task.action(), Action::Stop);
}

#[test]
fn foreign_outcome_changes_nothing() {
    let mut task = connecting(None);
    step(&mut task, Event::Slept, 0, &[]);
    step(&mut task, Event::Reason(3), 0, &[]);
    assert_eq!(task.action(), Action::Connect);
}

#[test]
fn station_comes_up_and_is_watched() {
    let mut task = monitoring();
    monitor_round(&mut task, 3000);
    assert_eq!(task.action(), Action::Sleep { millis: 1000 });
    step(&mut task, Event::Slept, 4000, &[]);
    monitor_round(&mut task, 21_999);
    assert_eq!(task.action(), Action::Sleep { millis: 1000 });
    step(&mut task, Event::Slept, 22_000, &[]);
    monitor_round(&mut task, 22_000);
    assert_eq!(task.action(), Action::ReadRssi);
    step(&mut task, Event::Rssi(None), 22_001, &[]);
    assert_eq!(task.action(), Action::Sleep { millis: 1000 });
    assert_eq!(task.phase, Phase::MonitorSleep { rssi_at: 22_001 });
    assert!(task.link_registered);
}

#[test]
fn lost_link_is_reported_and_tried_again() {
    let mut task = monitoring();
    step(&mut task, Event::Scanned, 3000, &[]);
    step(&mut task, Event::Ap(Received::Nothing), 3000, &[]);
    step(&mut task, Event::Station(Received::Nothing), 3000, &[]);
    step(&mut task, Event::Flag(None), 3000, &[]);
    step(&mut task, Event::Flag(Some(true)), 3000, &[]);
    assert_eq!(task.action(), Action::TakeReason);
    step(&mut task, Event::Reason(8), 3000, &["disconnected 8", "down"]);
    assert!(!task.link_registered);

    // The reconnect period of 15 seconds.
    step(&mut task, Event::Scanned, 3000, &[]);
    step(&mut task, Event::Station(Received::Nothing), 3000, &[]);
    step(&mut task, Event::Ap(Received::Nothing), 17_999, &[]);
    assert_eq!(task.action(), Action::Sleep { millis: 250 });
    step(&mut task, Event::Slept, 18_000, &[]);
    step(&mut task, Event::Scanned, 18_000, &[]);
    step(&mut task, Event::Station(Received::Nothing), 18_000, &[]);
    step(&mut task, Event::Ap(Received::Nothing), 18_000, &[]);
    assert_eq!(task.phase, Phase::DrainAp);
}

#[test]
fn settings_interrupt_a_link() {
    let mut task = monitoring();
    step(&mut task, Event::Scanned, 3000, &[]);
    step(&mut task, Event::Ap(Received::Got(access_point())), 3000, &["down"]);
    assert_eq!(task.phase, Phase::DrainAp);
    assert!(task.ap.enabled && task.station.enabled);

    let mut task = monitoring();
    step(&mut task, Event::Scanned, 3000, &[]);
    step(&mut task, Event::Ap(Received::Nothing), 3000, &[]);
    step(&mut task, Event::Station(Received::Got(default_sta_settings())), 3000, &["down"]);
    assert_eq!(task.phase, Phase::DrainAp);
    assert!(!task.station.enabled);

    let mut task = monitoring();
    step(&mut task, Event::Scanned, 3000, &[]);
    step(&mut task, Event::Ap(Received::Closed), 3000, &["down"]);
    assert_eq!(task.action(), Action::Stop);
}

#[test]
fn refused_station_reports_error_and_disconnect() {
    let mut task = awaiting_netif();
    step(&mut task, Event::Flag(Some(false)), 1250, &[]);
    assert_eq!(task.action(), Action::IsConnected);
    step(&mut task, Event::Flag(Some(false)), 1250, &[]);
    assert_eq!(task.action(), Action::TakeReason);
    step(&mut task, Event::Reason(15), 1250, &["error 15", "disconnected 15"]);
    assert_eq!(task.phase, Phase::RetryScans { since: 1250 });

    let mut task = awaiting_netif();
    step(&mut task, Event::Flag(None), 1250, &[]);
    step(&mut task, Event::Flag(None), 1250, &[]);
    step(&mut task, Event::Reason(0), 1250, &["error 39", "disconnected 0"]);
}

#[test]
fn wait_for_the_interface_is_bounded() {
    let mut task = awaiting_netif();
    step(&mut task, Event::Flag(Some(false)), 15_999, &[]);
    step(&mut task, Event::Flag(Some(true)), 15_999, &[]);
    assert_eq!(task.action(), Action::Sleep { millis: 250 });
    step(&mut task, Event::Slept, 16_000, &[]);
    step(&mut task, Event::Flag(Some(false)), 16_000, &[]);
    step(&mut task, Event::Flag(Some(true)), 16_000, &["error 39"]);
    assert_eq!(task.phase, Phase::RetryScans { since: 16_000 });
}

#[test]
fn failed_connection_is_reported_with_its_reason() {
    let mut task = connecting(None);
    step(&mut task, Event::Done(Err(0x3007)), 500, &[]);
    step(&mut task, Event::Reason(201), 500, &["error 201", "disconnected 201"]);
    assert_eq!(task.phase, Phase::RetryScans { since: 500 });
    let mut task = connecting(None);
    step(&mut task, Event::Done(Err(263)), 500, &[]);
    step(&mut task, Event::Reason(15), 500, &["error 15", "disconnected 15"]);
    let mut task = connecting(None);
    step(&mut task, Event::Done(Err(0x3007)), 500, &[]);
    step(&mut task, Event::Reason(0), 500, &["error 12295"]);
    assert_eq!(task.phase, Phase::RetryScans { since: 500 });
}

#[test]
fn radio_that_does_not_start_is_reported() {
    for (ap, expected) in [
        (None, vec!["error 257"]),
        (Some(access_point()), vec!["error 257", "ap error 257"]),
    ] {
        let mut task = configured(station(), ap);
        step(&mut task, Event::Ap(Received::Nothing), 0, &[]);
        step(&mut task, Event::Flag(None), 0, &[]);
        step(&mut task, Event::Done(Ok(())), 0, &[]);
        step(&mut task, Event::Done(Ok(())), 0, &[]);
        step(&mut task, Event::Done(Ok(())), 0, &[]);
        step(&mut task, Event::Done(Err(257)), 0, &[]);
        assert_eq!(task.action(), Action::TakeReason);
        step(&mut task, Event::Reason(0), 0, &expected);
    }
}

#[test]
fn access_point_runs_alone() {
    let mut s = default_sta_settings();
    s.enabled = false;
    let mut task = configured(s, Some(access_point()));
    step(&mut task, Event::Ap(Received::Nothing), 0, &[]);
    step(&mut task, Event::Flag(Some(false)), 0, &[]);
    assert!(matches!(task.configuration(), Ok(Configuration::AccessPoint(_))));
    step(&mut task, Event::Done(Ok(())), 0, &[]);
    step(&mut task, Event::Done(Ok(())), 0, &[]);
    step(&mut task, Event::Done(Ok(())), 0, &[]);
    step(&mut task, Event::Done(Ok(())), 0, &["ap"]);
    assert_eq!(task.action(), Action::ServeScans);
    step(&mut task, Event::Scanned, 0, &[]);
    step(&mut task, Event::Station(Received::Closed), 0, &[]);
    step(&mut task, Event::Ap(Received::Closed), 0, &[]);
    assert_eq!(task.action(), Action::Sleep { millis: 250 });
    step(&mut task, Event::Slept, 0, &[]);
    step(&mut task, Event::Scanned, 0, &[]);
    step(&mut task, Event::Station(Received::Got(station())), 0, &[]);
    assert_eq!(task.phase, Phase::DrainAp);
}

#[test]
fn both_disabled_stops_the_radio() {
    let mut task = configured(default_sta_settings(), None);
    step(&mut task, Event::Ap(Received::Closed), 0, &[]);
    assert_eq!(task.action(), Action::ServeScans);
    step(&mut task, Event::Scanned, 0, &["reset"]);
    assert_eq!(task.action(), Action::StopRadio);
    step(&mut task, Event::Done(Ok(())), 0, &[]);
    step(&mut task, Event::Reason(3), 0, &["disconnected 3"]);
    assert_eq!(task.action(), Action::WaitStation { millis: 250 });

    let mut task = configured(default_sta_settings(), None);
    step(&mut task, Event::Ap(Received::Nothing), 0, &[]);
    step(&mut task, Event::Scanned, 0, &["reset"]);
    step(&mut task, Event::Done(Err(1)), 0, &[]);
    assert_eq!(task.action(), Action::WaitStation { millis: 250 });
}

#[test]
fn settings_that_cannot_be_used_wait_for_others() {
    let mut s = station();
    s.ssid = "x".repeat(40);
    let mut task = configured(s, None);
    step(&mut task, Event::Ap(Received::Nothing), 0, &[]);
    assert_eq!(task.phase, Phase::AwaitReplacement);
    assert!(task.configuration().is_err());
    step(&mut task, Event::Station(Received::Nothing), 0, &[]);
    assert_eq!(task.phase, Phase::AwaitReplacement);
    step(&mut task, Event::Station(Received::Got(station())), 0, &[]);
    assert_eq!(task.phase, Phase::DrainAp);

    let mut ap = access_point();
    ap.password = "y".repeat(65);
    let mut task = configured(station(), Some(ap));
    step(&mut task, Event::Ap(Received::Nothing), 0, &["ap error 258"]);
    assert_eq!(ESP_ERR_INVALID_ARG, 258);
    step(&mut task, Event::Station(Received::Closed), 0, &[]);
    assert_eq!(task.action(), Action::Stop);
}

#[test]
fn addresses_that_cannot_be_set_are_reported() {
    let start = || {
        let mut task = configured(station(), Some(access_point()));
        step(&mut task, Event::Ap(Received::Nothing), 0, &[]);
        step(&mut task, Event::Flag(Some(false)), 0, &[]);
        task
    };
    let mut task = start();
    step(&mut task, Event::Done(Err(5)), 0, &[]);
    assert_eq!(task.phase, Phase::AwaitReplacement);
    let mut task = start();
    step(&mut task, Event::Done(Ok(())), 0, &[]);
    step(&mut task, Event::Done(Err(5)), 0, &["error 5"]);
    assert_eq!(task.phase, Phase::AwaitReplacement);
    let mut task = start();
    step(&mut task, Event::Done(Ok(())), 0, &[]);
    step(&mut task, Event::Done(Ok(())), 0, &[]);
    step(&mut task, Event::Done(Err(5)), 0, &["ap error 5"]);
    assert_eq!(task.phase, Phase::AwaitReplacement);
}
