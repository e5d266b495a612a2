//! The NTP client task, and the meaning of what a time server answers.

use vstd::prelude::*;

use crate::bytes;
use crate::master::messages::payload::Payload;
use crate::master::messages::service_settings::{NtpClientSettings, ServiceType};
use crate::master::messages::service_state;
use crate::master::messages::service_state::{NtpErrorPayload, NtpSyncedPayload};
use crate::master::protocol::PacketError;
use crate::network::tasks;
use crate::network::tasks::{has_passed, Received};
use crate::network::wifi::state;
use crate::services::tcp_slots::send_service_state;

verus! {

/// Milliseconds before the servers are asked again after none has answered, or before the links
/// are looked at again after there was none.
pub const RETRY_PERIOD_MS: u64 = 60_000;

/// Milliseconds of one wait for first settings.
pub const SETTINGS_WAIT_MS: u64 = 1000;

/// Milliseconds of one wait for other settings.
pub const POLL_MS: u64 = 500;

/// The port of a time server.
pub const NTP_PORT: u16 = 123;

/// Bytes of a request, and of an answer.
pub const NTP_PACKET_LEN: usize = 48;

/// Seconds from the epoch of NTP, 1900, to that of Unix, 1970.
pub const NTP_UNIX_EPOCH_DIFF_SECS: i64 = 2_208_988_800;

/// The server's name could not be resolved.
pub const NTP_ERROR_RESOLVE: i32 = 1;

/// The server could not be asked.
pub const NTP_ERROR_SOCKET: i32 = 2;

/// The server did not answer in time.
pub const NTP_ERROR_TIMEOUT: i32 = 3;

/// The server's answer makes no sense.
pub const NTP_ERROR_INVALID_RESPONSE: i32 = 4;

/// What asking a server gave.
#[derive(Debug, Clone, Copy)]
pub enum Exchange {
    /// Its name stands for no address.
    Unresolved,
    /// No socket could be had, or used.
    SocketFailed,
    TimedOut,
    /// It answered with `len` bytes; the rest of the packet is filled up.
    Answer { packet: [u8; 48], len: usize },
}

/// The request: version 3, mode client, and nothing else.
pub open spec fn request_bytes() -> Seq<u8> {
    Seq::new(NTP_PACKET_LEN as nat, |i: int| if i == 0 { 0x1Bu8 } else { 0u8 })
}

/// The request that a server is asked with.
pub fn request_packet() -> (packet: Vec<u8>)
    ensures
        packet@ == request_bytes(),
{
    let mut packet: Vec<u8> = Vec::new();
    packet.push(0x1B);
    while packet.len() < NTP_PACKET_LEN
        invariant
            1 <= packet@.len() <= NTP_PACKET_LEN,
            packet@[0] == 0x1B,
            forall|i: int| 1 <= i < packet@.len() ==> packet@[i] == 0,
        decreases NTP_PACKET_LEN - packet@.len(),
    {
        packet.push(0);
    }
    assert(packet@ =~= request_bytes());
    packet
}

/// The seconds since 1900 in an answer: four bytes from the 41st on, most significant first.
pub open spec fn transmit_seconds(packet: Seq<u8>) -> int {
    0x100_0000 * packet[40] + 0x1_0000 * packet[41] + 0x100 * packet[42] + packet[43]
}

/// The stratum and the local time in seconds since 1970 that an exchange gives, or the code of
/// its failure. `clock_sane` says that the local clock does not stand before 1970.
pub open spec fn sync_result(exchange: Exchange, timezone_minutes: i32, clock_sane: bool) -> Result<
    (u8, int),
    i32,
> {
    match exchange {
        Exchange::Unresolved => Err(NTP_ERROR_RESOLVE),
        Exchange::SocketFailed => Err(NTP_ERROR_SOCKET),
        Exchange::TimedOut => Err(NTP_ERROR_TIMEOUT),
        Exchange::Answer { packet, len } => if len < NTP_PACKET_LEN || transmit_seconds(packet@)
            < NTP_UNIX_EPOCH_DIFF_SECS || !clock_sane {
            Err(NTP_ERROR_INVALID_RESPONSE)
        } else {
            Ok(
                (
                    packet@[1],
                    transmit_seconds(packet@) - NTP_UNIX_EPOCH_DIFF_SECS + 60 * timezone_minutes,
                ),
            )
        },
    }
}

/// Makes sense of what asking a server gave.
pub fn evaluate(exchange: &Exchange, timezone_minutes: i32, clock_sane: bool) -> (r: Result<
    (u8, i64),
    i32,
>)
    ensures
        match r {
            Ok((stratum, timet)) => sync_result(*exchange, timezone_minutes, clock_sane) == Ok::<
                (u8, int),
                i32,
            >((stratum, timet as int)),
            Err(code) => sync_result(*exchange, timezone_minutes, clock_sane) == Err::<
                (u8, int),
                i32,
            >(code),
        },
{
    match exchange {
        Exchange::Unresolved => Err(NTP_ERROR_RESOLVE),
        Exchange::SocketFailed => Err(NTP_ERROR_SOCKET),
        Exchange::TimedOut => Err(NTP_ERROR_TIMEOUT),
        Exchange::Answer { packet, len } => {
            if *len < NTP_PACKET_LEN {
                return Err(NTP_ERROR_INVALID_RESPONSE);
            }
            let ntp_secs: i64 = 0x100_0000 * (packet[40] as i64) + 0x1_0000 * (packet[41] as i64)
                + 0x100 * (packet[42] as i64) + packet[43] as i64;
            if ntp_secs < NTP_UNIX_EPOCH_DIFF_SECS {
                return Err(NTP_ERROR_INVALID_RESPONSE);
            }
            if !clock_sane {
                return Err(NTP_ERROR_INVALID_RESPONSE);
            }
            let unix_utc: i64 = ntp_secs - NTP_UNIX_EPOCH_DIFF_SECS;
            Ok((packet[1], unix_utc + 60 * (timezone_minutes as i64)))
        },
    }
}

/// Where the task stands: each phase waits for the outcome of one call.
#[derive(Debug, Clone, Copy, PartialEq, Eq, Structural)]
pub enum Phase {
    /// Nothing to do until there are settings.
    AwaitSettings,
    /// No socket before every network driver has gone through its start.
    Latch,
    /// The client is disabled.
    Disabled,
    /// Looking whether any interface has a link.
    CheckLinks,
    /// Asking the server with this index.
    Sync { index: usize },
    /// Waiting for `millis` from `since` on, unless there are new settings.
    Wait { since: u64, millis: u64 },
    /// The task is over.
    Stopped,
}

/// The call that the task makes next.
#[derive(Debug, Clone, Copy, PartialEq, Eq, Structural)]
pub enum Action {
    /// Wait for settings.
    WaitSettings { millis: u64 },
    /// Wait until sockets may be opened.
    WaitLatch,
    /// Count the interfaces with a link.
    CountLinks,
    /// Ask the server with this index in the settings.
    Ask { index: usize },
    /// The task is over.
    Stop,
}

impl Action {
    /// Whether the task is under the watchdog during the call: asking a server may take
    /// longer than the watchdog allows, and a task that is over is not fed any more.
    pub open spec fn under_watch(self) -> bool {
        self !is Ask && self !is Stop
    }

    pub fn watched(self) -> (r: bool)
        ensures
            r == self.under_watch(),
    {
        match self {
            Action::Ask { .. } => false,
            Action::Stop => false,
            _ => true,
        }
    }
}

/// The outcome of a call.
#[derive(Debug)]
pub enum Event {
    Settings(Received<NtpClientSettings>),
    LatchOpen,
    /// How many interfaces have a link.
    Links(u8),
    /// What asking the server gave, and whether the local clock does not stand before 1970.
    Asked { exchange: Exchange, clock_sane: bool },
}

/// The NTP client task.
pub struct NtpClientTask {
    pub phase: Phase,
    pub settings: NtpClientSettings,
}

/// What the master is told of a server.
pub enum NtpReport {
    Synced { stratum: u8, timet: int, server: Seq<char> },
    Failed { code: i32, server: Seq<char> },
}

impl NtpReport {
    /// The frame of the report.
    pub open spec fn frame(self) -> Result<Seq<u8>, PacketError> {
        service_state::state_frame(
            ServiceType::NtpClient,
            crate::msgpack::Value::Table(
                match self {
                    NtpReport::Synced { stratum, timet, server } => seq![
                        ("stratum"@, crate::msgpack::Value::Int(stratum as int)),
                        ("timet"@, crate::msgpack::Value::Int(timet)),
                        ("server"@, crate::msgpack::Value::Str(server)),
                    ],
                    NtpReport::Failed { code, server } => seq![
                        ("error"@, crate::msgpack::Value::Int(code as int)),
                        ("server"@, crate::msgpack::Value::Str(server)),
                    ],
                },
            ),
        )
    }
}

/// The queue after a report, if there is one.
pub open spec fn reported(outbox: Seq<Seq<u8>>, report: Option<NtpReport>) -> Seq<Seq<u8>> {
    match report {
        Some(report) => state::queued(outbox, report.frame()),
        None => outbox,
    }
}

impl Phase {
    /// The call whose outcome the phase waits for.
    pub open spec fn action(self) -> Action {
        match self {
            Phase::AwaitSettings => Action::WaitSettings { millis: SETTINGS_WAIT_MS },
            Phase::Latch => Action::WaitLatch,
            Phase::Disabled => Action::WaitSettings { millis: SETTINGS_WAIT_MS },
            Phase::CheckLinks => Action::CountLinks,
            Phase::Sync { index } => Action::Ask { index },
            Phase::Wait { .. } => Action::WaitSettings { millis: POLL_MS },
            Phase::Stopped => Action::Stop,
        }
    }
}

/// The time from a successful synchronisation to the next, in milliseconds.
pub open spec fn resync_millis(s: NtpClientSettings) -> int {
    60_000 * s.resync_period
}

impl NtpClientTask {
    /// A server is only asked if it is in the settings, and the client is enabled.
    pub open spec fn consistent(self) -> bool {
        match self.phase {
            Phase::Sync { index } => self.settings.enabled && index < self.settings.servers@.len(),
            Phase::CheckLinks => self.settings.enabled,
            Phase::Disabled => !self.settings.enabled,
            _ => true,
        }
    }

    /// The task in another phase.
    pub open spec fn at(self, phase: Phase) -> NtpClientTask {
        NtpClientTask { phase, ..self }
    }

    /// The task about to follow its settings.
    pub open spec fn top(self) -> NtpClientTask {
        self.at(
            if self.settings.enabled {
                Phase::CheckLinks
            } else {
                Phase::Disabled
            },
        )
    }

    /// The task about to follow other settings.
    pub open spec fn with_settings(self, settings: NtpClientSettings) -> NtpClientTask {
        NtpClientTask { settings, ..self }.top()
    }

    /// The task about to ask the server with this index, or to wait if there is none.
    pub open spec fn asking(self, index: int, now: u64) -> NtpClientTask {
        self.at(
            if index < self.settings.servers@.len() {
                Phase::Sync { index: index as usize }
            } else {
                Phase::Wait { since: now, millis: RETRY_PERIOD_MS }
            },
        )
    }

    /// What comes after the outcome of a call, and what the master is told. An outcome that does
    /// not belong to the call changes nothing.
    pub open spec fn after(self, event: Event, now: u64) -> (NtpClientTask, Option<NtpReport>) {
        match (self.phase, event) {
            (Phase::AwaitSettings, Event::Settings(received)) => match received {
                Received::Got(settings) => (
                    NtpClientTask { settings, ..self }.at(Phase::Latch),
                    None,
                ),
                Received::Nothing => (self, None),
                Received::Closed => (self.at(Phase::Stopped), None),
            },
            (Phase::Latch, Event::LatchOpen) => (self.top(), None),
            (Phase::Disabled, Event::Settings(received)) => match received {
                Received::Got(settings) => (self.with_settings(settings), None),
                Received::Nothing => (self, None),
                Received::Closed => (self.at(Phase::Stopped), None),
            },
            (Phase::CheckLinks, Event::Links(count)) => if count == 0 {
                (self.at(Phase::Wait { since: now, millis: RETRY_PERIOD_MS }), None)
            } else {
                (self.asking(0, now), None)
            },
            (Phase::Sync { index }, Event::Asked { exchange, clock_sane }) => match sync_result(
                exchange,
                self.settings.timezone,
                clock_sane,
            ) {
                Ok((stratum, timet)) => (
                    self.at(
                        Phase::Wait { since: now, millis: resync_millis(self.settings) as u64 },
                    ),
                    Some(
                        NtpReport::Synced {
                            stratum,
                            timet,
                            server: self.settings.servers@[index as int]@,
                        },
                    ),
                ),
                Err(code) => (
                    self.asking(index + 1, now),
                    Some(
                        NtpReport::Failed {
                            code,
                            server: self.settings.servers@[index as int]@,
                        },
                    ),
                ),
            },
            (Phase::Wait { since, millis }, Event::Settings(received)) => match received {
                Received::Got(settings) => (self.with_settings(settings), None),
                Received::Nothing => if tasks::passed(since, now, millis as int) {
                    (self.top(), None)
                } else {
                    (self, None)
                },
                Received::Closed => (self.at(Phase::Stopped), None),
            },
            _ => (self, None),
        }
    }

    /// A task that has done nothing yet.
    pub fn new() -> (task: NtpClientTask)
        ensures
            task.phase == Phase::AwaitSettings,
            task.consistent(),
            !task.settings.enabled,
            task.settings.timezone == 0,
            task.settings.resync_period == 15,
            task.settings.servers@.len() == 0,
    {
        NtpClientTask {
            phase: Phase::AwaitSettings,
            settings: NtpClientSettings {
                enabled: false,
                timezone: 0,
                resync_period: 15,
                servers: Vec::new(),
            },
        }
    }

    /// The call that the task makes next.
    pub fn action(&self) -> (action: Action)
        ensures
            action == self.phase.action(),
    {
        match self.phase {
            Phase::AwaitSettings => Action::WaitSettings { millis: SETTINGS_WAIT_MS },
            Phase::Latch => Action::WaitLatch,
            Phase::Disabled => Action::WaitSettings { millis: SETTINGS_WAIT_MS },
            Phase::CheckLinks => Action::CountLinks,
            Phase::Sync { index } => Action::Ask { index },
            Phase::Wait { .. } => Action::WaitSettings { millis: POLL_MS },
            Phase::Stopped => Action::Stop,
        }
    }

    fn go_top(&mut self)
        ensures
            *final(self) == old(self).top(),
    {
        self.phase = if self.settings.enabled {
            Phase::CheckLinks
        } else {
            Phase::Disabled
        };
    }

    fn ask(&mut self, index: usize, now: u64)
        ensures
            *final(self) == old(self).asking(index as int, now),
    {
        self.phase = if index < self.settings.servers.len() {
            Phase::Sync { index }
        } else {
            Phase::Wait { since: now, millis: RETRY_PERIOD_MS }
        };
    }

    /// Goes on after the outcome of the call that `action` asked for, and queues what the master
    /// is told; `now` is the time of the outcome in milliseconds.
    pub fn step(&mut self, event: Event, now: u64, outbox: &mut Vec<Vec<u8>>)
        requires
            old(self).consistent(),
        ensures
            final(self).consistent(),
            *final(self) == old(self).after(event, now).0,
            bytes::views(final(outbox)@) == reported(
                bytes::views(old(outbox)@),
                old(self).after(event, now).1,
            ),
    {
        match (self.phase, event) {
            (Phase::AwaitSettings, Event::Settings(received)) => match received {
                Received::Got(settings) => {
                    self.settings = settings;
                    self.phase = Phase::Latch;
                },
                Received::Nothing => {},
                Received::Closed => {
                    self.phase = Phase::Stopped;
                },
            },
            (Phase::Latch, Event::LatchOpen) => {
                self.go_top();
            },
            (Phase::Disabled, Event::Settings(received)) => match received {
                Received::Got(settings) => {
                    self.settings = settings;
                    self.go_top();
                },
                Received::Nothing => {},
                Received::Closed => {
                    self.phase = Phase::Stopped;
                },
            },
            (Phase::CheckLinks, Event::Links(count)) => {
                if count == 0 {
                    self.phase = Phase::Wait { since: now, millis: RETRY_PERIOD_MS };
                } else {
                    self.ask(0, now);
                }
            },
            (Phase::Sync { index }, Event::Asked { exchange, clock_sane }) => {
                let count: usize = self.settings.servers.len();
                assert(index < count);
                let server = self.settings.servers[index].clone();
                match evaluate(&exchange, self.settings.timezone, clock_sane) {
                    Ok((stratum, timet)) => {
                        proof {
                            assert((NtpSyncedPayload { stratum, timet, server }).value()->Table_0
                                =~= seq![
                                ("stratum"@, crate::msgpack::Value::Int(stratum as int)),
                                ("timet"@, crate::msgpack::Value::Int(timet as int)),
                                ("server"@, crate::msgpack::Value::Str(server@)),
                            ]);
                        }
                        send_service_state(
                            outbox,
                            service_state::encode_ntp_synced(stratum, timet, server),
                        );
                        let millis: u64 = 60_000 * (self.settings.resync_period as u64);
                        self.phase = Phase::Wait { since: now, millis };
                    },
                    Err(code) => {
                        proof {
                            assert((NtpErrorPayload { error: code, server }).value()->Table_0
                                =~= seq![
                                ("error"@, crate::msgpack::Value::Int(code as int)),
                                ("server"@, crate::msgpack::Value::Str(server@)),
                            ]);
                        }
                        send_service_state(outbox, service_state::encode_ntp_error(code, server));
                        self.ask(index + 1, now);
                    },
                }
            },
            (Phase::Wait { since, millis }, Event::Settings(received)) => match received {
                Received::Got(settings) => {
                    self.settings = settings;
                    self.go_top();
                },
                Received::Nothing => {
                    if has_passed(since, now, millis) {
                        self.go_top();
                    }
                },
                Received::Closed => {
                    self.phase = Phase::Stopped;
                },
            },
            _ => {},
        }
    }
}

} // verus!
