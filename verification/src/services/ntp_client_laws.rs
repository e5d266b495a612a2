//! What holds of the NTP client task from one call to the next.

use vstd::prelude::*;

use crate::master::messages::service_settings::NtpClientSettings;
use crate::msgpack::Value;
use crate::msgpack_laws;
use crate::network::tasks::Received;
use crate::services::ntp_client;
use crate::services::ntp_client::{
    Action, Event, Exchange, NtpClientTask, NtpReport, Phase, NTP_PACKET_LEN,
    NTP_UNIX_EPOCH_DIFF_SECS, RETRY_PERIOD_MS,
};
use crate::system::wdt::TASK_WDT_TIMEOUT_SECS;
use crate::text;

verus! {

/// The keys of the records are short.
proof fn lemma_keys()
    ensures
        text::byte_len("stratum"@) <= 15,
        text::byte_len("timet"@) <= 15,
        text::byte_len("server"@) <= 15,
        text::byte_len("error"@) <= 15,
{
    reveal_strlit("stratum");
    msgpack_laws::lemma_key_len("stratum");
    reveal_strlit("timet");
    msgpack_laws::lemma_key_len("timet");
    reveal_strlit("server");
    msgpack_laws::lemma_key_len("server");
    reveal_strlit("error");
    msgpack_laws::lemma_key_len("error");
}

/// Whatever a call gives, the task stays consistent.
pub proof fn law_task_stays_consistent(t: NtpClientTask, event: Event, now: u64)
    requires
        t.consistent(),
    ensures
        t.after(event, now).0.consistent(),
{
}

/// No server is asked while no interface has a link: the first server of a round is asked only
/// after one was found, and another one only after the one before it has failed.
pub proof fn law_no_sync_without_link(t: NtpClientTask, event: Event, now: u64, index: usize)
    requires
        t.consistent(),
        t.phase != (Phase::Sync { index }),
        t.after(event, now).0.phase == (Phase::Sync { index }),
    ensures
        if index == 0 {
            t.phase == Phase::CheckLinks && (event matches Event::Links(count) && count > 0)
        } else {
            t.phase == (Phase::Sync { index: (index - 1) as usize }) && event is Asked
        },
{
    assert(t.settings.servers.len() == t.settings.servers@.len());
}

/// The servers are asked in the order of the settings, each at most once in a round, until one
/// answers. The master is told the outcome of each. After an answer the next round comes after
/// the resync period; after the last failure it comes after a minute.
pub proof fn law_servers_are_asked_in_order(
    t: NtpClientTask,
    index: usize,
    exchange: Exchange,
    clock_sane: bool,
    now: u64,
)
    requires
        t.consistent(),
        t.phase == (Phase::Sync { index }),
    ensures
        ({
            let (next, report) = t.after(Event::Asked { exchange, clock_sane }, now);
            let server = t.settings.servers@[index as int]@;
            match ntp_client::sync_result(exchange, t.settings.timezone, clock_sane) {
                Ok((stratum, timet)) => {
                    &&& report == Some(NtpReport::Synced { stratum, timet, server })
                    &&& next == t.at(
                        Phase::Wait {
                            since: now,
                            millis: (60_000 * t.settings.resync_period) as u64,
                        },
                    )
                },
                Err(code) => {
                    &&& report == Some(NtpReport::Failed { code, server })
                    &&& index + 1 < t.settings.servers@.len() ==> next == t.at(
                        Phase::Sync { index: (index + 1) as usize },
                    )
                    &&& index + 1 >= t.settings.servers@.len() ==> next == t.at(
                        Phase::Wait { since: now, millis: RETRY_PERIOD_MS },
                    )
                },
            }
        }),
{
}

/// The master is told the outcome of every server: the frame always fits. The name of a host
/// takes at most 255 bytes.
pub proof fn law_server_reports_fit(report: NtpReport)
    requires
        text::byte_len(
            match report {
                NtpReport::Synced { server, .. } => server,
                NtpReport::Failed { server, .. } => server,
            },
        ) <= 255,
    ensures
        report.frame() is Ok,
{
    lemma_keys();
    match report {
        NtpReport::Synced { stratum, timet, server } => {
            msgpack_laws::lemma_value_len(Value::Int(stratum as int));
            msgpack_laws::lemma_value_len(Value::Int(timet));
            msgpack_laws::lemma_value_len(Value::Str(server));
            msgpack_laws::lemma_entries_len(
                seq![
                    ("stratum"@, Value::Int(stratum as int)),
                    ("timet"@, Value::Int(timet)),
                    ("server"@, Value::Str(server)),
                ],
                260,
            );
        },
        NtpReport::Failed { code, server } => {
            msgpack_laws::lemma_value_len(Value::Int(code as int));
            msgpack_laws::lemma_value_len(Value::Str(server));
            msgpack_laws::lemma_entries_len(
                seq![("error"@, Value::Int(code as int)), ("server"@, Value::Str(server))],
                260,
            );
        },
    }
}

/// The local time that is reported is UTC shifted by the time zone, to the second.
pub proof fn law_time_zone_shifts_the_time(packet: [u8; 48], len: usize, timezone: i32)
    requires
        len >= NTP_PACKET_LEN,
        ntp_client::transmit_seconds(packet@) >= NTP_UNIX_EPOCH_DIFF_SECS,
    ensures
        ({
            let answer = Exchange::Answer { packet, len };
            &&& ntp_client::sync_result(answer, timezone, true) matches Ok((stratum, local))
            &&& ntp_client::sync_result(answer, 0, true) == Ok::<(u8, int), i32>(
                (stratum, local - 60 * timezone),
            )
        }),
{
}

/// A disabled client asks no server and tells the master nothing; it only waits for settings.
pub proof fn law_disabled_client_is_silent(t: NtpClientTask, event: Event, now: u64)
    requires
        t.phase == Phase::Disabled,
    ensures
        t.after(event, now).1 is None,
        t.after(event, now).0 == t || t.after(event, now).0.phase == Phase::Stopped || event
            matches Event::Settings(Received::Got(_)),
        t.phase.action() is WaitSettings,
{
}

/// Settings that come while the task waits are followed at once.
pub proof fn law_settings_take_over(
    t: NtpClientTask,
    s: NtpClientSettings,
    since: u64,
    millis: u64,
    now: u64,
)
    requires
        t.phase == Phase::Disabled || t.phase == (Phase::Wait { since, millis }),
    ensures
        t.after(Event::Settings(Received::Got(s)), now).0 == (NtpClientTask {
            phase: if s.enabled { Phase::CheckLinks } else { Phase::Disabled },
            settings: s,
        }),
{
}

/// The outcomes that belong to a call.
pub open spec fn answers(event: Event, action: Action) -> bool {
    match action {
        Action::WaitSettings { .. } => event is Settings,
        Action::WaitLatch => event is LatchOpen,
        Action::CountLinks => event is Links,
        Action::Ask { .. } => event is Asked,
        Action::Stop => false,
    }
}

/// An outcome that does not belong to the call changes nothing; a task that has stopped stays so.
pub proof fn law_outcome_belongs_to_call(t: NtpClientTask, event: Event, now: u64)
    ensures
        !answers(event, t.phase.action()) ==> t.after(event, now) == (t, None::<NtpReport>),
        t.phase == Phase::Stopped ==> t.after(event, now).0 == t,
{
}

/// A task that is over has left the watchdog. While it is under the watchdog, every wait is
/// shorter than the watchdog's time.
pub proof fn law_task_feeds_its_watchdog(t: NtpClientTask)
    ensures
        t.phase == Phase::Stopped ==> !t.phase.action().under_watch(),
        t.phase.action() matches Action::WaitSettings { millis } ==> millis < 1000 * TASK_WDT_TIMEOUT_SECS,
{
}

} // verus!
