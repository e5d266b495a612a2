use esp_wroom_32_slave::master::messages::interface_settings::WiFiStationSettings;
use esp_wroom_32_slave::network::report::Report;
use esp_wroom_32_slave::network::tasks::{Effect, Received};
use esp_wroom_32_slave::network::wifi::config::default_sta_settings;
use esp_wroom_32_slave::network::wifi_station::{Action, Event, Phase, StationTask};

fn station() -> WiFiStationSettings {
    WiFiStationSettings {
        enabled: true,
        ssid: "MyWiFi".to_string(),
        reconnect_period: 30,
        ..default_sta_settings()
    }
}

fn quiet(task: &mut StationTask, event: Event, now: u64) {
    assert!(task.step(event, now).is_empty());
}

fn connecting() -> StationTask {
    let mut task = StationTask::new();
    assert_eq!(task.action(), Action::InitDriver);
    assert!(matches!(task.step(Event::Driver(true), 0)[..], [Effect::DriverStarted]));
    assert_eq!(task.action(), Action::WaitSettings);
    quiet(&mut task, Event::Settings(Received::Got(station())), 0);
    assert_eq!(task.action(), Action::Configure);
    assert_eq!(task.configuration().unwrap().ssid, "MyWiFi");
    quiet(&mut task, Event::Done(Ok(())), 0);
    assert_eq!(task.action(), Action::StartRadio);
    quiet(&mut task, Event::Done(Ok(())), 0);
    assert_eq!(task.action(), Action::Connect);
    task
}

#[test]
fn station_alone_comes_up_and_is_watched() {
    let mut task = connecting();
    quiet(&mut task, Event::Done(Ok(())), 0);
    let effects = task.step(Event::Mac(Some([1; 6])), 0);
    assert!(matches!(effects[..], [Effect::Report(Report::Connected { .. })]));
    assert_eq!(task.action(), Action::WaitNetifUp);
    quiet(&mut task, Event::Done(Ok(())), 0);
    quiet(&mut task, Event::Ip(None), 0);
    let effects = task.step(Event::Rssi(Some(-40)), 100);
    assert!(matches!(effects[..], [Effect::Report(Report::Rssi(-40))]));
    assert_eq!(task.action(), Action::PollSettings);
    quiet(&mut task, Event::Settings(Received::Nothing), 200);
    quiet(&mut task, Event::Flag(Some(true)), 200);
    quiet(&mut task, Event::Flag(Some(true)), 20_100);
    assert_eq!(task.action(), Action::ReadRssi);
    quiet(&mut task, Event::Rssi(None), 20_100);
    assert_eq!(task.action(), Action::Sleep { millis: 1000 });
    quiet(&mut task, Event::Slept, 21_100);
    quiet(&mut task, Event::Settings(Received::Nothing), 21_100);
    quiet(&mut task, Event::Flag(Some(true)), 21_100);
    quiet(&mut task, Event::Flag(Some(false)), 21_100);
    let effects = task.step(Event::Reason(200), 21_100);
    assert!(matches!(effects[..], [Effect::Report(Report::Disconnected { reason: 200, .. })]));
    assert_eq!(task.action(), Action::WaitSettingsFor { millis: 30_000 });
    quiet(&mut task, Event::Settings(Received::Nothing), 51_100);
    assert_eq!(task.action(), Action::Configure);
}

#[test]
fn every_failed_attempt_is_reported() {
    for fail_at in 0..3 {
        let mut task = connecting();
        task.phase = [Phase::Start, Phase::Connect, Phase::NetifWait][fail_at];
        quiet(&mut task, Event::Done(Err(77)), 0);
        assert_eq!(task.action(), Action::TakeReason);
        let effects = task.step(Event::Reason(0), 0);
        assert!(matches!(effects[..], [Effect::Report(Report::ConnectError { code: 77, .. })]));
        assert_eq!(task.action(), Action::WaitSettingsFor { millis: 30_000 });
        quiet(&mut task, Event::Settings(Received::Closed), 0);
        assert_eq!(task.action(), Action::Stop);
    }
}

#[test]
fn refused_station_alone_is_disconnected() {
    for phase in [Phase::Connect, Phase::NetifWait] {
        let mut task = connecting();
        task.phase = phase;
        quiet(&mut task, Event::Done(Err(77)), 0);
        let effects = task.step(Event::Reason(15), 0);
        assert!(matches!(
            effects[..],
            [
                Effect::Report(Report::ConnectError { code: 15, .. }),
                Effect::Report(Report::Disconnected { reason: 15, .. })
            ]
        ));
        assert_eq!(task.action(), Action::WaitSettingsFor { millis: 30_000 });
    }
    let mut task = connecting();
    task.phase = Phase::Start;
    quiet(&mut task, Event::Done(Err(77)), 0);
    let effects = task.step(Event::Reason(15), 0);
    assert!(matches!(effects[..], [Effect::Report(Report::ConnectError { code: 15, .. })]));
}

#[test]
fn disabled_station_is_stopped() {
    let mut task = connecting();
    task.phase = Phase::MonitorSettings { rssi_at: 0 };
    quiet(&mut task, Event::Settings(Received::Got(default_sta_settings())), 0);
    assert_eq!(task.action(), Action::StopRadio);
    quiet(&mut task, Event::Done(Ok(())), 0);
    let effects = task.step(Event::Reason(0), 0);
    assert!(matches!(effects[..], [Effect::Report(Report::Disconnected { reason: 0, .. })]));
    assert_eq!(task.action(), Action::WaitSettings);
    quiet(&mut task, Event::Slept, 0);
    assert_eq!(task.action(), Action::WaitSettings);
}

#[test]
fn names_that_are_too_long_are_not_used() {
    let mut task = connecting();
    task.phase = Phase::AwaitSettings;
    let mut s = station();
    s.ssid = "x".repeat(33);
    quiet(&mut task, Event::Settings(Received::Got(s)), 0);
    assert_eq!(task.action(), Action::WaitSettings);
    assert!(task.configuration().is_err());
}
