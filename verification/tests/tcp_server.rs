use esp_wroom_32_slave::master::messages::service_settings::TcpServerSettings;
use esp_wroom_32_slave::master::messages::service_state::{
    encode_tcp_connected, encode_tcp_disconnected, TcpDisconnectReason,
};
use esp_wroom_32_slave::master::messages::tcp_command::{TcpCommandMessage, TcpCommandPayload};
use esp_wroom_32_slave::master::messages::tcp_data;
use esp_wroom_32_slave::network::tasks::Received;
use esp_wroom_32_slave::services::tcp_server::{Action, Event, Incoming, Phase, TcpServerTask};
use esp_wroom_32_slave::services::tcp_slots::{
    send_service_state, send_tcp_data_upstream, ReadOutcome,
};

fn settings(client_timeout: u16) -> TcpServerSettings {
    TcpServerSettings { port: 8000, client_timeout }
}

fn gone(index: u8, reason: TcpDisconnectReason) -> Vec<u8> {
    encode_tcp_disconnected(index, reason).unwrap()
}

fn step(task: &mut TcpServerTask, event: Event, now: u64) -> Vec<Vec<u8>> {
    let mut outbox = Vec::new();
    task.step(event, now, &mut outbox);
    outbox
}

fn quiet(task: &mut TcpServerTask, event: Event) {
    assert!(step(task, event, 0).is_empty());
}

/// A task that listens and begins a round.
fn listening(client_timeout: u16) -> TcpServerTask {
    let mut task = TcpServerTask::new();
    assert_eq!(task.action(), Action::WaitSettings { millis: 1000 });
    quiet(&mut task, Event::Settings(Received::Nothing));
    quiet(&mut task, Event::Settings(Received::Got(settings(client_timeout))));
    assert_eq!(task.action(), Action::WaitLatch);
    quiet(&mut task, Event::LatchOpen);
    assert_eq!(task.action(), Action::OpenListener { port: 8000 });
    quiet(&mut task, Event::Opened(true));
    assert_eq!(task.action(), Action::PollSettings);
    task
}

/// Goes through the queues, in which there is nothing.
fn to_accept(task: &mut TcpServerTask) {
    quiet(task, Event::Settings(Received::Nothing));
    assert_eq!(task.action(), Action::PollReset);
    quiet(task, Event::Reset(false));
    assert_eq!(task.action(), Action::PollCommand);
    quiet(task, Event::Command(None));
    assert_eq!(task.action(), Action::PollData);
    quiet(task, Event::Data(None));
    assert_eq!(task.action(), Action::Accept);
}

fn client(port: u16, ready: bool) -> Event {
    Event::Incoming(Some(Incoming {
        remote_ip: "192.168.1.123".to_string(),
        remote_port: port,
        ready,
    }))
}

/// A task with `count` clients that were last active at 0, about to look for clients.
fn with_clients(client_timeout: u16, count: u8) -> TcpServerTask {
    let mut task = listening(client_timeout);
    to_accept(&mut task);
    for index in 0..count {
        let sent = step(&mut task, client(1000 + index as u16, true), 0);
        let expected =
            encode_tcp_connected(index, "192.168.1.123".to_string(), 1000 + index as u16);
        assert_eq!(sent, vec![expected.unwrap()]);
    }
    task
}

fn close(index: u8) -> Event {
    Event::Command(Some(TcpCommandMessage { index, command: TcpCommandPayload { close: true } }))
}

#[test]
fn four_clients_and_no_more() {
    let mut task = with_clients(0, 4);
    assert_eq!(task.slots.first_free_slot(), None);
    quiet(&mut task, client(9, true));
    assert!(task.slots.is_connected(3));
    assert!(!task.slots.is_connected(4));
}

#[test]
fn client_that_is_not_ready_takes_no_slot() {
    let mut task = with_clients(0, 1);
    quiet(&mut task, client(9, false));
    assert_eq!(task.slots.first_free_slot(), Some(1));
}

#[test]
fn bytes_are_passed_on_until_there_are_none() {
    let mut task = with_clients(0, 2);
    quiet(&mut task, Event::Incoming(None));
    assert_eq!(task.action(), Action::Read { slot: 0 });
    let sent = step(&mut task, Event::Read(ReadOutcome::Data(vec![1, 2])), 50);
    assert_eq!(sent, vec![tcp_data::encode(0, &[1, 2]).unwrap()]);
    assert_eq!(task.action(), Action::Read { slot: 0 });
    quiet(&mut task, Event::Read(ReadOutcome::Nothing));
    assert_eq!(task.action(), Action::Read { slot: 1 });
    let sent = step(&mut task, Event::Read(ReadOutcome::Closed), 60);
    assert_eq!(sent, vec![gone(1, TcpDisconnectReason::ClientClosedConnection)]);
    assert_eq!(task.action(), Action::Sleep { millis: 5 });
    quiet(&mut task, Event::Slept);
    assert_eq!(task.phase, Phase::DrainSettings);
    assert_eq!(task.slots.first_free_slot(), Some(1));
}

#[test]
fn client_that_cannot_be_read_is_dropped() {
    let mut task = with_clients(0, 1);
    quiet(&mut task, Event::Incoming(None));
    let sent = step(&mut task, Event::Read(ReadOutcome::Failed), 60);
    assert_eq!(sent, vec![gone(0, TcpDisconnectReason::Undefined)]);
    assert_eq!(task.slots.first_free_slot(), Some(0));
}

#[test]
fn silent_client_is_dropped_after_its_timeout() {
    let mut task = with_clients(10, 1);
    quiet(&mut task, Event::Incoming(None));
    assert!(step(&mut task, Event::Read(ReadOutcome::Nothing), 10_000).is_empty());
    assert!(task.slots.is_connected(0));

    let mut task = with_clients(10, 1);
    quiet(&mut task, Event::Incoming(None));
    let sent = step(&mut task, Event::Read(ReadOutcome::Nothing), 10_001);
    assert_eq!(sent, vec![gone(0, TcpDisconnectReason::InactivityTimeout)]);

    let mut task = with_clients(0, 1);
    quiet(&mut task, Event::Incoming(None));
    assert!(step(&mut task, Event::Read(ReadOutcome::Nothing), u64::MAX).is_empty());
    assert!(task.slots.is_connected(0));
}

#[test]
fn data_of_the_master_counts_as_activity() {
    let mut task = with_clients(10, 1);
    task.phase = Phase::DrainData;
    quiet(&mut task, Event::Data(Some(0)));
    assert_eq!(task.action(), Action::Write { index: 0 });
    assert!(step(&mut task, Event::Written(true), 9000).is_empty());
    assert_eq!(task.action(), Action::PollData);
    quiet(&mut task, Event::Data(Some(0)));
    assert!(step(&mut task, Event::Written(false), 99_000).is_empty());
    quiet(&mut task, Event::Data(None));
    quiet(&mut task, Event::Incoming(None));
    assert!(step(&mut task, Event::Read(ReadOutcome::Nothing), 19_000).is_empty());
    assert!(task.slots.is_connected(0));
}

#[test]
fn data_for_a_free_slot_is_answered() {
    let mut task = with_clients(0, 1);
    task.phase = Phase::DrainData;
    let sent = step(&mut task, Event::Data(Some(2)), 0);
    assert_eq!(sent, vec![gone(2, TcpDisconnectReason::NotConnected)]);
    quiet(&mut task, Event::Data(Some(4)));
    quiet(&mut task, Event::Data(Some(255)));
    assert_eq!(task.action(), Action::PollData);
}

#[test]
fn command_closes_its_slot() {
    let mut task = with_clients(0, 3);
    task.phase = Phase::DrainCommands;
    let sent = step(&mut task, close(1), 0);
    assert_eq!(sent, vec![gone(1, TcpDisconnectReason::ServerClosedConnection)]);
    let sent = step(&mut task, close(1), 0);
    assert_eq!(sent, vec![gone(1, TcpDisconnectReason::NotConnected)]);
    let sent = step(&mut task, close(3), 0);
    assert_eq!(sent, vec![gone(3, TcpDisconnectReason::NotConnected)]);
    quiet(&mut task, close(4));
    quiet(&mut task, close(9));
    let keep = TcpCommandMessage { index: 0, command: TcpCommandPayload { close: false } };
    quiet(&mut task, Event::Command(Some(keep)));
    let keep = TcpCommandMessage { index: 1, command: TcpCommandPayload { close: false } };
    quiet(&mut task, Event::Command(Some(keep)));
    assert!(task.slots.is_connected(0) && !task.slots.is_connected(1) && task.slots.is_connected(2));
}

#[test]
fn reset_drops_every_client() {
    let mut task = with_clients(0, 2);
    task.phase = Phase::DrainResets { got: false };
    quiet(&mut task, Event::Reset(true));
    quiet(&mut task, Event::Reset(true));
    let sent = step(&mut task, Event::Reset(false), 0);
    assert_eq!(
        sent,
        vec![
            gone(0, TcpDisconnectReason::ServerClosedConnection),
            gone(1, TcpDisconnectReason::ServerClosedConnection)
        ]
    );
    assert_eq!(task.slots.first_free_slot(), Some(0));
    assert!(task.listening);
}

#[test]
fn new_settings_open_a_new_listener() {
    let mut task = with_clients(0, 1);
    task.phase = Phase::DrainSettings;
    let next = TcpServerSettings { port: 9000, client_timeout: 1 };
    let sent = step(&mut task, Event::Settings(Received::Got(next)), 0);
    assert_eq!(sent, vec![gone(0, TcpDisconnectReason::ServerClosedConnection)]);
    assert!(!task.listening);
    quiet(&mut task, Event::Settings(Received::Nothing));
    quiet(&mut task, Event::Reset(false));
    quiet(&mut task, Event::Command(None));
    quiet(&mut task, Event::Data(None));
    assert_eq!(task.action(), Action::Sleep { millis: 5 });
    quiet(&mut task, Event::Slept);
    assert_eq!(task.action(), Action::WaitLatch);
    quiet(&mut task, Event::LatchOpen);
    assert_eq!(task.action(), Action::OpenListener { port: 9000 });
    quiet(&mut task, Event::Opened(false));
    assert_eq!(task.action(), Action::WaitSettings { millis: 1000 });
    quiet(&mut task, Event::Settings(Received::Closed));
    assert_eq!(task.action(), Action::Stop);
    quiet(&mut task, Event::Settings(Received::Got(settings(0))));
    assert_eq!(task.action(), Action::Stop);
}

#[test]
fn long_data_is_cut_into_frames() {
    let data: Vec<u8> = (0..3200u32).map(|i| (i % 251) as u8).collect();
    let mut outbox = Vec::new();
    send_tcp_data_upstream(&mut outbox, 3, &data);
    assert_eq!(
        outbox,
        vec![
            tcp_data::encode(3, &data[..1500]).unwrap(),
            tcp_data::encode(3, &data[1500..3000]).unwrap(),
            tcp_data::encode(3, &data[3000..]).unwrap(),
        ]
    );
    let mut outbox = Vec::new();
    send_tcp_data_upstream(&mut outbox, 3, &data[..1500]);
    assert_eq!(outbox.len(), 1);
    let mut outbox = Vec::new();
    send_tcp_data_upstream(&mut outbox, 4, &data[..10]);
    assert!(outbox.is_empty());
}

#[test]
fn longest_addresses_fit_a_frame() {
    let ip = "ffff:ffff:ffff:ffff:ffff:ffff:255.255.255.255";
    assert_eq!(ip.len(), 45);
    assert!(encode_tcp_connected(255, ip.to_string(), 65535).is_ok());
    assert!(encode_tcp_disconnected(255, TcpDisconnectReason::NotConnected).is_ok());
}

#[test]
fn service_frames_are_queued() {
    let mut outbox = Vec::new();
    let frame = encode_tcp_disconnected(0, TcpDisconnectReason::NotConnected);
    send_service_state(&mut outbox, frame);
    let long = encode_tcp_connected(0, "x".repeat(2000), 1);
    assert!(long.is_err());
    send_service_state(&mut outbox, long);
    assert_eq!(outbox.len(), 1);
}
