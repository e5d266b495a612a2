use esp_wroom_32_slave::master::messages::service_settings::UdpListenerSettings;
use esp_wroom_32_slave::network::tasks::Received;
use esp_wroom_32_slave::services::udp_listener::{
    advertise, request_text, Action, Event, Phase, UdpListenerTask,
};

fn settings() -> UdpListenerSettings {
    UdpListenerSettings {
        request_ports: vec![47701, 23629],
        response_ports: vec![23569, 21913],
        request_type: "XXX".to_string(),
        service_id: "YYY".to_string(),
        device_type: 0,
        port: 8000,
    }
}

fn open() -> UdpListenerTask {
    let mut task = UdpListenerTask::new();
    assert_eq!(task.action(), Action::WaitSettings { millis: 1000 });
    task.step(Event::Settings(Received::Nothing));
    task.step(Event::Settings(Received::Got(settings())));
    assert_eq!(task.action(), Action::WaitLatch);
    task.step(Event::LatchOpen);
    assert_eq!(task.action(), Action::OpenSockets);
    task.step(Event::Opened(true));
    assert_eq!(task.action(), Action::PollSettings);
    task.step(Event::Settings(Received::Nothing));
    assert_eq!(task.action(), Action::Receive { socket: 0 });
    task
}

fn wanted() -> Event {
    Event::Request(Some("XXX".to_string()))
}

#[test]
fn advertisement_is_json() {
    assert_eq!(advertise(&settings()), r#"{"serviceId":"YYY","deviceType":0,"port":8000}"#);
    let mut s = settings();
    s.device_type = 65535;
    s.port = 1;
    s.service_id = "a\"b\\c\u{8}\t\n\u{c}\r\u{1}\u{1f}\u{7f}é/".to_string();
    let text = advertise(&s);
    assert_eq!(
        text,
        "{\"serviceId\":\"a\\\"b\\\\c\\b\\t\\n\\f\\r\\u0001\\u001f\u{7f}é/\",\"deviceType\":65535,\"port\":1}"
    );
    let value: serde_json::Value = serde_json::from_str(&text).unwrap();
    assert_eq!(value.get("serviceId").unwrap().as_str().unwrap(), s.service_id);
}

#[test]
fn request_is_trimmed_text() {
    assert_eq!(request_text(b" \r\n{\"type\":\"XXX\"}\n"), Some("{\"type\":\"XXX\"}"));
    assert_eq!(request_text(b""), Some(""));
    assert_eq!(request_text(b"   "), Some(""));
    assert_eq!(request_text("\u{a0}ж\u{3000}".as_bytes()), Some("ж"));
    assert_eq!(request_text(&[0xFF, 0xFE]), None);
    assert_eq!(request_text(&[0xC0, 0x80]), None);
    assert_eq!(request_text(&[0xED, 0xA0, 0x80]), None);
}

#[test]
fn response_ports_take_turns() {
    let mut task = open();
    let mut ports = Vec::new();
    for _ in 0..5 {
        task.phase = Phase::Receiving { socket: 0 };
        task.step(wanted());
        match task.action() {
            Action::Reply { socket: 0, port } => ports.push(port),
            other => panic!("unexpected {:?}", other),
        }
    }
    assert_eq!(ports, vec![23569, 21913, 23569, 21913, 23569]);

    let mut task = open();
    task.response_rr = usize::MAX;
    task.step(wanted());
    assert_eq!(task.action(), Action::Reply { socket: 0, port: 21913 });
    assert_eq!(task.response_rr, 0);
}

#[test]
fn other_requests_are_ignored() {
    let mut task = open();
    task.step(Event::Request(Some("xxx".to_string())));
    assert_eq!(task.action(), Action::Receive { socket: 1 });
    task.step(Event::Request(None));
    assert_eq!(task.action(), Action::Sleep { millis: 2 });
    assert_eq!(task.response_rr, 0);
    task.step(Event::Slept);
    assert_eq!(task.action(), Action::PollSettings);
}

#[test]
fn every_socket_is_looked_at() {
    let mut task = open();
    task.step(wanted());
    assert_eq!(task.response(), advertise(&settings()));
    task.step(Event::Replied);
    assert_eq!(task.action(), Action::Receive { socket: 1 });
    task.step(wanted());
    assert_eq!(task.action(), Action::Reply { socket: 1, port: 21913 });
    task.step(Event::Replied);
    assert_eq!(task.action(), Action::Sleep { millis: 2 });
}

#[test]
fn other_settings_open_other_sockets() {
    let mut task = open();
    task.phase = Phase::DrainSettings;
    task.step(Event::Settings(Received::Got(settings())));
    assert!(!task.open);
    task.step(Event::Settings(Received::Nothing));
    assert_eq!(task.action(), Action::Sleep { millis: 10 });
    task.step(Event::Slept);
    assert_eq!(task.action(), Action::WaitLatch);
    task.step(Event::LatchOpen);
    task.step(Event::Opened(false));
    assert_eq!(task.action(), Action::WaitSettings { millis: 1000 });
    task.step(Event::Settings(Received::Closed));
    assert_eq!(task.action(), Action::Stop);
    task.step(Event::Settings(Received::Got(settings())));
    assert_eq!(task.action(), Action::Stop);
}
