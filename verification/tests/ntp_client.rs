use esp_wroom_32_slave::master::messages::service_settings::NtpClientSettings;
use esp_wroom_32_slave::master::messages::service_state::{encode_ntp_error, encode_ntp_synced};
use esp_wroom_32_slave::network::tasks::Received;
use esp_wroom_32_slave::services::ntp_client::{
    evaluate, request_packet, Action, Event, Exchange, NtpClientTask, Phase,
};

fn settings(enabled: bool, servers: &[&str]) -> NtpClientSettings {
    NtpClientSettings {
        enabled,
        timezone: 180,
        resync_period: 15,
        servers: servers.iter().map(|s| s.to_string()).collect(),
    }
}

fn answer(seconds: u32, stratum: u8, len: usize) -> Exchange {
    let mut packet = [0u8; 48];
    packet[1] = stratum;
    packet[40..44].copy_from_slice(&seconds.to_be_bytes());
    Exchange::Answer { packet, len }
}

fn step(task: &mut NtpClientTask, event: Event, now: u64) -> Vec<Vec<u8>> {
    let mut outbox = Vec::new();
    task.step(event, now, &mut outbox);
    outbox
}

fn quiet(task: &mut NtpClientTask, event: Event, now: u64) {
    assert!(step(task, event, now).is_empty());
}

fn ready(s: NtpClientSettings) -> NtpClientTask {
    let mut task = NtpClientTask::new();
    assert_eq!(task.action(), Action::WaitSettings { millis: 1000 });
    quiet(&mut task, Event::Settings(Received::Nothing), 0);
    quiet(&mut task, Event::Settings(Received::Got(s)), 0);
    assert_eq!(task.action(), Action::WaitLatch);
    quiet(&mut task, Event::LatchOpen, 0);
    task
}

#[test]
fn request_asks_as_a_client() {
    let packet = request_packet();
    assert_eq!(packet.len(), 48);
    assert_eq!(packet[0], 0x1B);
    assert!(packet[1..].iter().all(|b| *b == 0));
}

#[test]
fn answers_give_the_local_time() {
    let seconds = 2_208_988_800u32 + 1_713_700_000;
    assert_eq!(evaluate(&answer(seconds, 2, 48), 0, true), Ok((2, 1_713_700_000)));
    assert_eq!(evaluate(&answer(seconds, 2, 48), 180, true), Ok((2, 1_713_710_800)));
    assert_eq!(evaluate(&answer(2_208_988_800, 1, 48), -720, true), Ok((1, -43_200)));
    assert_eq!(evaluate(&answer(u32::MAX, 1, 48), 0, true), Ok((1, 2_085_978_495)));
}

#[test]
fn failures_have_their_codes() {
    assert_eq!(evaluate(&Exchange::Unresolved, 0, true), Err(1));
    assert_eq!(evaluate(&Exchange::SocketFailed, 0, true), Err(2));
    assert_eq!(evaluate(&Exchange::TimedOut, 0, true), Err(3));
    assert_eq!(evaluate(&answer(u32::MAX, 1, 47), 0, true), Err(4));
    assert_eq!(evaluate(&answer(2_208_988_799, 1, 48), 0, true), Err(4));
    assert_eq!(evaluate(&answer(u32::MAX, 1, 48), 0, false), Err(4));
}

#[test]
fn servers_are_asked_by_priority() {
    let mut task = ready(settings(true, &["a", "b", "c"]));
    assert_eq!(task.action(), Action::CountLinks);
    quiet(&mut task, Event::Links(1), 0);
    assert_eq!(task.action(), Action::Ask { index: 0 });
    let asked = Event::Asked { exchange: Exchange::TimedOut, clock_sane: true };
    assert_eq!(
        step(&mut task, asked, 3000),
        vec![encode_ntp_error(3, "a".to_string()).unwrap()]
    );
    assert_eq!(task.action(), Action::Ask { index: 1 });
    let exchange = answer(2_208_988_800 + 1_713_700_000, 2, 48);
    assert_eq!(
        step(&mut task, Event::Asked { exchange, clock_sane: true }, 4000),
        vec![encode_ntp_synced(2, 1_713_710_800, "b".to_string()).unwrap()]
    );
    assert_eq!(task.phase, Phase::Wait { since: 4000, millis: 900_000 });
    assert_eq!(task.action(), Action::WaitSettings { millis: 500 });
    quiet(&mut task, Event::Settings(Received::Nothing), 903_999);
    assert_eq!(task.action(), Action::WaitSettings { millis: 500 });
    quiet(&mut task, Event::Settings(Received::Nothing), 904_000);
    assert_eq!(task.action(), Action::CountLinks);
}

#[test]
fn round_without_answer_comes_again_after_a_minute() {
    let mut task = ready(settings(true, &["a"]));
    quiet(&mut task, Event::Links(2), 0);
    let asked = Event::Asked { exchange: Exchange::Unresolved, clock_sane: true };
    assert_eq!(
        step(&mut task, asked, 100),
        vec![encode_ntp_error(1, "a".to_string()).unwrap()]
    );
    assert_eq!(task.phase, Phase::Wait { since: 100, millis: 60_000 });
    quiet(&mut task, Event::Settings(Received::Got(settings(true, &["x"]))), 200);
    assert_eq!(task.action(), Action::CountLinks);
    assert_eq!(task.settings.servers, vec!["x".to_string()]);
}

#[test]
fn longest_host_names_fit_a_frame() {
    assert!(encode_ntp_synced(255, i64::MIN, "x".repeat(255)).is_ok());
    assert!(encode_ntp_error(i32::MIN, "x".repeat(255)).is_ok());
    assert!(encode_ntp_error(1, "x".repeat(1500)).is_err());
}

#[test]
fn no_link_no_question() {
    let mut task = ready(settings(true, &["a"]));
    quiet(&mut task, Event::Links(0), 1000);
    assert_eq!(task.phase, Phase::Wait { since: 1000, millis: 60_000 });
    quiet(&mut task, Event::Settings(Received::Nothing), 61_000);
    assert_eq!(task.action(), Action::CountLinks);
}

#[test]
fn disabled_client_waits_for_settings() {
    let mut task = ready(settings(false, &["a"]));
    assert_eq!(task.action(), Action::WaitSettings { millis: 1000 });
    quiet(&mut task, Event::Links(2), 0);
    quiet(&mut task, Event::Settings(Received::Nothing), 0);
    assert_eq!(task.phase, Phase::Disabled);
    quiet(&mut task, Event::Settings(Received::Got(settings(true, &["a"]))), 0);
    assert_eq!(task.action(), Action::CountLinks);
    let mut task = ready(settings(false, &["a"]));
    quiet(&mut task, Event::Settings(Received::Closed), 0);
    assert_eq!(task.action(), Action::Stop);
    quiet(&mut task, Event::Settings(Received::Got(settings(true, &["a"]))), 0);
    assert_eq!(task.action(), Action::Stop);
}
