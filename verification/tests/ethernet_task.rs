use esp_wroom_32_slave::master::messages::interface_settings::{EthernetSettings, InterfaceType};
use esp_wroom_32_slave::network::addressing::{IpInfo, NetifOp};
use esp_wroom_32_slave::network::ethernet::{
    apply_eth_ip_settings, Action, EthernetTask, Event, Phase,
};
use esp_wroom_32_slave::network::report::Report;
use esp_wroom_32_slave::network::tasks::{Effect, Received};

fn dhcp(enabled: bool) -> EthernetSettings {
    EthernetSettings { enabled, dhcp: true, static_config: None }
}

fn show(effects: &[Effect]) -> Vec<String> {
    effects
        .iter()
        .map(|e| match e {
            Effect::DriverStarted => "driver".to_string(),
            Effect::LinkUp => "up".to_string(),
            Effect::LinkDown => "down".to_string(),
            Effect::Report(Report::Connected { interface: InterfaceType::Ethernet, mac }) => {
                format!("connected {}", mac[5])
            }
            Effect::Report(Report::ConnectError { interface: InterfaceType::Ethernet, code }) => {
                format!("error {}", code)
            }
            Effect::Report(Report::GotIp { interface: InterfaceType::Ethernet, .. }) => {
                "ip".to_string()
            }
            Effect::Report(Report::Disconnected {
                interface: InterfaceType::Ethernet,
                reason,
            }) => format!("disconnected {}", reason),
            other => format!("{:?}", other),
        })
        .collect()
}

fn step(task: &mut EthernetTask, event: Event, now: u64, expected: &[&str]) {
    let effects = task.step(event, now);
    assert_eq!(show(&effects), expected.to_vec());
}

/// A task that waits for the link from 1000 on.
fn awaiting_link() -> EthernetTask {
    let mut task = EthernetTask::new(false);
    assert_eq!(task.action(), Action::InitDriver);
    assert!(!task.announced && !task.link_registered);
    step(&mut task, Event::Driver(true), 0, &["driver"]);
    assert_eq!(task.action(), Action::WaitSettings { millis: 1000 });
    step(&mut task, Event::Settings(Received::Nothing), 0, &[]);
    step(&mut task, Event::Settings(Received::Got(dhcp(true))), 0, &[]);
    assert_eq!(task.action(), Action::ApplyIp);
    step(&mut task, Event::Done(Ok(())), 0, &[]);
    assert_eq!(task.action(), Action::StartDriver);
    step(&mut task, Event::Done(Ok(())), 1000, &[]);
    assert_eq!(task.action(), Action::IsConnected);
    task
}

/// A task that watches its link.
fn monitoring() -> EthernetTask {
    let mut task = awaiting_link();
    step(&mut task, Event::Check(Ok(true)), 1000, &[]);
    step(&mut task, Event::Mac(Some([0, 0, 0, 0, 0, 9])), 2000, &["connected 9"]);
    assert_eq!(task.action(), Action::IsUp);
    step(&mut task, Event::Check(Ok(false)), 2100, &[]);
    assert_eq!(task.action(), Action::IsConnected);
    step(&mut task, Event::Check(Ok(true)), 2100, &[]);
    assert_eq!(task.action(), Action::Sleep { millis: 250 });
    step(&mut task, Event::Slept, 2350, &[]);
    step(&mut task, Event::Check(Ok(true)), 2350, &["up"]);
    let info = IpInfo { ip: [1; 4], netmask: [2; 4], gateway: [3; 4] };
    step(&mut task, Event::Ip(Some(info)), 2350, &["ip"]);
    assert_eq!(task.action(), Action::PollSettings);
    task
}

#[test]
fn port_comes_up_and_is_watched() {
    let mut task = monitoring();
    step(&mut task, Event::Settings(Received::Nothing), 3000, &[]);
    step(&mut task, Event::Check(Ok(true)), 3000, &[]);
    step(&mut task, Event::Check(Ok(true)), 3000, &[]);
    assert_eq!(task.action(), Action::Sleep { millis: 1000 });
    step(&mut task, Event::Slept, 4000, &[]);
    assert_eq!(task.phase, Phase::MonitorSettings);
    assert!(task.link_registered);
}

#[test]
fn unreadable_address_is_reported_as_zero() {
    let mut task = awaiting_link();
    step(&mut task, Event::Check(Ok(true)), 1000, &[]);
    step(&mut task, Event::Mac(None), 1000, &["connected 0"]);
}

#[test]
fn unplugged_cable_is_reported_once() {
    let mut task = monitoring();
    step(&mut task, Event::Settings(Received::Nothing), 3000, &[]);
    step(&mut task, Event::Check(Ok(false)), 3000, &[]);
    step(&mut task, Event::Check(Ok(true)), 3000, &["disconnected 0", "down"]);
    for round in 0..100 {
        let now = 4000 + 1000 * round;
        step(&mut task, Event::Settings(Received::Nothing), now, &[]);
        let answer = if round % 2 == 0 { Ok(false) } else { Err(-1) };
        step(&mut task, Event::Check(answer), now, &[]);
        assert_eq!(task.action(), Action::Sleep { millis: 1000 });
        step(&mut task, Event::Slept, now, &[]);
    }
    step(&mut task, Event::Settings(Received::Nothing), 200_000, &[]);
    step(&mut task, Event::Check(Ok(true)), 200_000, &[]);
    assert_eq!(task.action(), Action::ReadMac);
    step(&mut task, Event::Mac(Some([7; 6])), 200_000, &["connected 7"]);
    step(&mut task, Event::Check(Ok(true)), 200_000, &["up"]);
}

#[test]
fn waits_for_link_and_interface_are_bounded() {
    let mut task = awaiting_link();
    step(&mut task, Event::Check(Ok(false)), 15_999, &[]);
    step(&mut task, Event::Slept, 16_000, &[]);
    step(&mut task, Event::Check(Ok(false)), 16_000, &["error 263"]);
    assert_eq!(task.action(), Action::WaitSettings { millis: 5000 });
    step(&mut task, Event::Settings(Received::Nothing), 21_000, &[]);
    assert_eq!(task.action(), Action::ApplyIp);

    let mut task = awaiting_link();
    step(&mut task, Event::Check(Err(5)), 1000, &["error 5"]);
    assert_eq!(task.phase, Phase::Retry);

    let mut task = awaiting_link();
    step(&mut task, Event::Check(Ok(true)), 1000, &[]);
    step(&mut task, Event::Mac(None), 1000, &["connected 0"]);
    step(&mut task, Event::Check(Ok(false)), 16_000, &[]);
    step(&mut task, Event::Check(Ok(true)), 16_000, &["error 263"]);
    assert_eq!(task.phase, Phase::Retry);
}

#[test]
fn cable_pulled_before_there_is_an_address_is_reported_once() {
    for answer in [Ok(false), Err(5)] {
        let mut task = awaiting_link();
        step(&mut task, Event::Check(Ok(true)), 1000, &[]);
        step(&mut task, Event::Mac(None), 1000, &["connected 0"]);
        step(&mut task, Event::Check(Ok(false)), 1250, &[]);
        step(&mut task, Event::Check(answer), 1250, &["disconnected 0"]);
        for round in 0..50 {
            let now = 2000 + 1000 * round;
            step(&mut task, Event::Settings(Received::Nothing), now, &[]);
            step(&mut task, Event::Check(Ok(false)), now, &[]);
            step(&mut task, Event::Slept, now, &[]);
        }
        step(&mut task, Event::Settings(Received::Nothing), 90_000, &[]);
        step(&mut task, Event::Check(Ok(true)), 90_000, &[]);
        step(&mut task, Event::Mac(None), 90_000, &["connected 0"]);
        step(&mut task, Event::Check(Ok(true)), 90_000, &["up"]);
    }
}

#[test]
fn cable_pulled_between_two_attempts_is_reported_once() {
    let mut task = awaiting_link();
    step(&mut task, Event::Check(Ok(true)), 1000, &[]);
    step(&mut task, Event::Mac(None), 1000, &["connected 0"]);
    step(&mut task, Event::Check(Err(5)), 1000, &["error 5"]);
    assert!(task.announced);
    step(&mut task, Event::Settings(Received::Nothing), 6000, &[]);
    step(&mut task, Event::Done(Ok(())), 6000, &[]);
    step(&mut task, Event::Done(Ok(())), 6000, &[]);
    step(&mut task, Event::Check(Ok(false)), 20_999, &[]);
    step(&mut task, Event::Slept, 21_000, &[]);
    step(&mut task, Event::Check(Ok(false)), 21_000, &["disconnected 0"]);
    assert_eq!(task.phase, Phase::RecoverSettings);
    assert!(!task.announced);
}

#[test]
fn failures_on_the_way_up_are_reported() {
    let mut task = EthernetTask::new(false);
    step(&mut task, Event::Driver(true), 0, &["driver"]);
    step(&mut task, Event::Settings(Received::Got(dhcp(true))), 0, &[]);
    step(&mut task, Event::Done(Err(258)), 0, &["error 258"]);
    assert_eq!(task.phase, Phase::AwaitSettings);
    step(&mut task, Event::Settings(Received::Got(dhcp(true))), 0, &[]);
    step(&mut task, Event::Done(Ok(())), 0, &[]);
    step(&mut task, Event::Done(Err(259)), 0, &["error 259"]);
    assert_eq!(task.phase, Phase::Retry);
    step(&mut task, Event::Settings(Received::Closed), 0, &[]);
    assert_eq!(task.action(), Action::Stop);
}

#[test]
fn disabled_port_is_stopped() {
    let mut task = monitoring();
    step(&mut task, Event::Settings(Received::Got(dhcp(false))), 3000, &["down"]);
    assert_eq!(task.action(), Action::StopDriver);
    step(&mut task, Event::Done(Ok(())), 3000, &["disconnected 0"]);
    assert_eq!(task.action(), Action::WaitSettings { millis: 1000 });
    step(&mut task, Event::Settings(Received::Got(dhcp(false))), 3000, &[]);
    step(&mut task, Event::Done(Err(1)), 3000, &[]);
    assert_eq!(task.phase, Phase::AwaitSettings);
}

#[test]
fn port_can_come_up_without_the_master() {
    let mut task = EthernetTask::new(true);
    step(&mut task, Event::Driver(true), 0, &["driver"]);
    assert_eq!(task.action(), Action::ApplyIp);
    assert_eq!(apply_eth_ip_settings(&task.settings), Ok(vec![NetifOp::DhcpClientStart]));

    let mut task = EthernetTask::new(true);
    step(&mut task, Event::Driver(false), 0, &["driver"]);
    assert_eq!(task.action(), Action::Stop);
    step(&mut task, Event::Slept, 0, &[]);
    assert_eq!(task.action(), Action::Stop);
}

#[test]
fn settings_interrupt_every_wait_of_the_port() {
    let mut task = monitoring();
    step(&mut task, Event::Settings(Received::Closed), 0, &["down"]);
    assert_eq!(task.action(), Action::Stop);

    let mut task = monitoring();
    task.phase = Phase::RecoverSettings;
    task.link_registered = false;
    task.announced = false;
    step(&mut task, Event::Settings(Received::Got(dhcp(true))), 0, &[]);
    assert_eq!(task.action(), Action::ApplyIp);
}
