//! What an answer of a time server means, and how the NTP client goes from server to server.

use vstd::prelude::*;

use crate::bytes;
use crate::master::messages::interface_settings::InterfaceType;
use crate::master::messages::record_laws;
use crate::master::messages::service_settings::{NtpClientSettings, ServiceType};
use crate::master::messages::service_state;
use crate::master::protocol;
use crate::master::protocol::{Content, PacketError};
use crate::msgpack;
use crate::msgpack::Value;
use crate::network::tasks::Received;
use crate::services::ntp_client;
use crate::services::ntp_client::{Action, Event, Exchange, NtpClientTask, NtpReport, Phase};
use crate::services::ntp_client_laws;
use crate::text;

verus! {

/// A request has 48 bytes: the first says version 3 and client, all others are 0.
pub proof fn law_request_is_a_client_packet(i: int)
    ensures
        ntp_client::request_bytes().len() == 48,
        ntp_client::request_bytes()[0] == 0x1B,
        1 <= i < 48 ==> ntp_client::request_bytes()[i] == 0,
{
}

/// An answer whose bytes 40 to 43 hold a number of seconds since 1900, most significant first, is
/// taken for the time since 1970, shifted by the time zone in minutes, with the stratum in byte 1.
/// It is refused with the code 4 where it has less than 48 bytes, where its time lies before 1970,
/// or where the local clock does.
pub proof fn law_answer_gives_its_time(
    packet: [u8; 48],
    len: usize,
    seconds: int,
    timezone: i32,
    clock_sane: bool,
)
    requires
        0 <= seconds < 0x1_0000_0000,
        packet@.subrange(40, 44) == bytes::be32(seconds),
    ensures
        ntp_client::sync_result((Exchange::Answer { packet, len }), timezone, clock_sane) == (if len
            >= 48 && seconds >= 2_208_988_800 && clock_sane {
            Ok::<(u8, int), i32>((packet@[1], seconds - 2_208_988_800 + 60 * timezone))
        } else {
            Err(4)
        }),
{
    crate::text_laws::law_bytes_say_their_number(seconds);
    let part = packet@.subrange(40, 44);
    assert(part[0] == packet@[40] && part[1] == packet@[41] && part[2] == packet@[42] && part[3]
        == packet@[43]);
}

/// A server without an address fails with the code 1, one that could not be asked with 2, and one
/// that did not answer with 3.
pub proof fn law_failed_exchange_has_its_code(timezone: i32, clock_sane: bool)
    ensures
        ntp_client::sync_result(Exchange::Unresolved, timezone, clock_sane) == Err::<
            (u8, int),
            i32,
        >(1),
        ntp_client::sync_result(Exchange::SocketFailed, timezone, clock_sane) == Err::<
            (u8, int),
            i32,
        >(2),
        ntp_client::sync_result(Exchange::TimedOut, timezone, clock_sane) == Err::<(u8, int), i32>(
            3,
        ),
{
}

/// Settings that come while the task waits for them are its settings from then on. At the start it
/// waits for the latch first; later an enabled client looks for links and a disabled one waits for
/// other settings.
pub proof fn law_new_settings_are_taken(t: NtpClientTask, s: NtpClientSettings, now: u64)
    requires
        t.phase.action() is WaitSettings,
    ensures
        ({
            let (next, report) = t.after(Event::Settings(Received::Got(s)), now);
            &&& next.settings == s
            &&& report is None
            &&& next.phase.action() == (if t.phase == Phase::AwaitSettings {
                Action::WaitLatch
            } else if s.enabled {
                Action::CountLinks
            } else {
                Action::WaitSettings { millis: 1000 }
            })
        }),
{
}

/// Nothing else changes the settings.
pub proof fn law_settings_stay_otherwise(t: NtpClientTask, event: Event, now: u64)
    ensures
        t.after(event, now).0.settings != t.settings ==> event == Event::Settings(
            Received::Got(t.after(event, now).0.settings),
        ),
{
}

/// Without settings, and while it is disabled, the client waits for settings in turns of a second;
/// between two rounds it does so in turns of half a second, until the wait is over: then an
/// enabled client looks for links. It is over where no settings can come.
pub proof fn law_client_waits(t: NtpClientTask, since: u64, millis: u64, now: u64)
    ensures
        ({
            let none = t.after(Event::Settings(Received::Nothing), now);
            let closed = t.after(Event::Settings(Received::Closed), now);
            &&& t.phase == Phase::AwaitSettings || t.phase == Phase::Disabled ==> {
                &&& t.phase.action() == (Action::WaitSettings { millis: 1000 })
                &&& none == (t, None::<NtpReport>)
            }
            &&& t.phase == (Phase::Wait { since, millis }) ==> {
                &&& t.phase.action() == (Action::WaitSettings { millis: 500 })
                &&& none.0.settings == t.settings
                &&& none.1 is None
                &&& now - since < millis ==> none.0 == t
                &&& now - since >= millis && t.settings.enabled ==> none.0.phase.action()
                    == Action::CountLinks
                &&& now - since >= millis && !t.settings.enabled ==> none.0.phase
                    == Phase::Disabled
            }
            &&& t.phase.action() is WaitSettings ==> closed.0.phase.action() == Action::Stop
                && closed.1 is None
        }),
{
}

/// Once the latch is open an enabled client looks for links, and a disabled one waits for other
/// settings.
pub proof fn law_latch_opens(t: NtpClientTask, now: u64)
    requires
        t.phase == Phase::Latch,
    ensures
        ({
            let (next, report) = t.after(Event::LatchOpen, now);
            &&& t.phase.action() == Action::WaitLatch
            &&& next.settings == t.settings
            &&& report is None
            &&& next.phase.action() == (if t.settings.enabled {
                Action::CountLinks
            } else {
                Action::WaitSettings { millis: 1000 }
            })
            &&& !t.settings.enabled ==> next.phase == Phase::Disabled
        }),
{
}

/// Without a link the client waits a minute, from now on, and tells the master nothing; with one
/// it asks its first server.
pub proof fn law_links_are_looked_for(t: NtpClientTask, count: u8, now: u64)
    requires
        t.phase == Phase::CheckLinks,
    ensures
        ({
            let (next, report) = t.after(Event::Links(count), now);
            &&& t.phase.action() == Action::CountLinks
            &&& next.settings == t.settings
            &&& report is None
            &&& count == 0 ==> next.phase == Phase::Wait { since: now, millis: 60_000 }
            &&& count > 0 && t.settings.servers@.len() > 0 ==> next.phase.action() == Action::Ask {
                index: 0,
            }
        }),
{
}

/// A server that answers is reported with its name, its stratum and its time, and the client waits
/// as many minutes as its settings say. One that fails is reported with its name and the code; then
/// the next is asked, or the client waits a minute after the last.
pub proof fn law_each_server_is_reported(
    t: NtpClientTask,
    index: usize,
    exchange: Exchange,
    clock_sane: bool,
    now: u64,
)
    requires
        t.consistent(),
        t.phase == (Phase::Sync { index }),
    ensures
        ({
            let (next, report) = t.after(Event::Asked { exchange, clock_sane }, now);
            &&& t.phase.action() == Action::Ask { index }
            &&& next.settings == t.settings
            &&& match ntp_client::sync_result(exchange, t.settings.timezone, clock_sane) {
                Ok((stratum, timet)) => {
                    &&& report matches Some(NtpReport::Synced { stratum: s, timet: v, server })
                    &&& s == stratum
                    &&& v == timet
                    &&& server == t.settings.servers@[index as int]@
                    &&& next.phase matches Phase::Wait { since, millis }
                    &&& since == now
                    &&& millis == 60_000 * t.settings.resync_period
                },
                Err(code) => {
                    &&& report matches Some(NtpReport::Failed { code: c, server })
                    &&& c == code
                    &&& server == t.settings.servers@[index as int]@
                    &&& next.phase == (if index + 1 < t.settings.servers@.len() {
                        Phase::Sync { index: (index + 1) as usize }
                    } else {
                        Phase::Wait { since: now, millis: 60_000 }
                    })
                },
            }
        }),
{
    assert(t.settings.servers.len() == t.settings.servers@.len());
}

/// The record of a report says its fields.
pub open spec fn says(report: NtpReport, record: Value) -> bool {
    match report {
        NtpReport::Synced { stratum, timet, server } => {
            &&& record_laws::fields(record) == 3
            &&& record_laws::holds(record, "stratum"@, Value::Int(stratum as int))
            &&& record_laws::holds(record, "timet"@, Value::Int(timet))
            &&& record_laws::holds(record, "server"@, Value::Str(server))
        },
        NtpReport::Failed { code, server } => {
            &&& record_laws::fields(record) == 2
            &&& record_laws::holds(record, "error"@, Value::Int(code as int))
            &&& record_laws::holds(record, "server"@, Value::Str(server))
        },
    }
}

proof fn lemma_record(report: NtpReport) -> (record: Value)
    ensures
        report.frame() == service_state::state_frame(ServiceType::NtpClient, record),
        says(report, record),
{
    match report {
        NtpReport::Synced { stratum, timet, server } => {
            let a = ("stratum"@, Value::Int(stratum as int));
            let b = ("timet"@, Value::Int(timet));
            let c = ("server"@, Value::Str(server));
            record_laws::lemma_three_fields(a, b, c);
            Value::Table(seq![a, b, c])
        },
        NtpReport::Failed { code, server } => {
            let a = ("error"@, Value::Int(code as int));
            let b = ("server"@, Value::Str(server));
            record_laws::lemma_two_fields(a, b);
            Value::Table(seq![a, b])
        },
    }
}

proof fn lemma_framed(record: Value)
    requires
        service_state::state_frame(ServiceType::NtpClient, record) is Ok,
    ensures
        protocol::frame_content(service_state::state_frame(ServiceType::NtpClient, record)->Ok_0)
            == Ok::<Content, PacketError>(
            Content { cmd: 5, parameter: 3, payload: msgpack::encode(record) },
        ),
{
    record_laws::law_state_frames(InterfaceType::Ethernet, ServiceType::NtpClient, record);
}

/// The report of a server is one frame of the NTP client behind what is queued before: for a
/// server that answered its stratum, the time and its name, for one that failed the code and its
/// name. The name of a host takes at most 255 bytes. Without a report nothing is queued.
pub proof fn law_server_report(outbox: Seq<Seq<u8>>, report: NtpReport) -> (record: Value)
    requires
        text::byte_len(
            match report {
                NtpReport::Synced { server, .. } => server,
                NtpReport::Failed { server, .. } => server,
            },
        ) <= 255,
    ensures
        ntp_client::reported(outbox, None) == outbox,
        ({
            let queue = ntp_client::reported(outbox, Some(report));
            &&& queue.len() == outbox.len() + 1
            &&& queue.drop_last() == outbox
            &&& protocol::frame_content(queue.last()) == Ok::<Content, PacketError>(
                Content { cmd: 5, parameter: 3, payload: msgpack::encode(record) },
            )
        }),
        says(report, record),
{
    ntp_client_laws::law_server_reports_fit(report);
    let record = lemma_record(report);
    lemma_framed(record);
    let queue = ntp_client::reported(outbox, Some(report));
    assert(queue.drop_last() =~= outbox);
    record
}

} // verus!
