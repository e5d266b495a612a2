//! The TCP server task: which call comes next, given the outcome of the last one.

use vstd::prelude::*;

use crate::bytes;
use crate::master::messages::service_settings::TcpServerSettings;
use crate::master::messages::service_state::TcpDisconnectReason;
use crate::master::messages::tcp_command::TcpCommandMessage;
use crate::network::tasks::Received;
use crate::services::tcp_slots;
use crate::services::tcp_slots::{ReadOutcome, TcpSlots, MAX_CLIENTS};

verus! {

/// Milliseconds of one wait for settings.
pub const SETTINGS_WAIT_MS: u64 = 1000;

/// Milliseconds between two rounds.
pub const LOOP_DELAY_MS: u64 = 5;

/// Where the task stands: each phase waits for the outcome of one call.
#[derive(Debug, Clone, Copy, PartialEq, Eq, Structural)]
pub enum Phase {
    /// No listener until there are settings.
    AwaitSettings,
    /// No socket before every network driver has gone through its start.
    Latch,
    Open,
    /// A round begins: new settings first.
    DrainSettings,
    /// Then resets of the network, of which `got` says whether one has come.
    DrainResets { got: bool },
    /// Then commands of the master.
    DrainCommands,
    /// Then data of the master.
    DrainData,
    Writing { index: u8 },
    /// Then new clients.
    Accept,
    /// Then what the clients have sent, slot by slot.
    Reading { slot: usize },
    Sleep,
    /// The task is over.
    Stopped,
}

/// The call that the task makes next.
#[derive(Debug, Clone, Copy, PartialEq, Eq, Structural)]
pub enum Action {
    /// Wait for settings.
    WaitSettings { millis: u64 },
    /// Wait until sockets may be opened.
    WaitLatch,
    /// Listen on a port.
    OpenListener { port: u16 },
    /// Look for settings.
    PollSettings,
    /// Look for a reset of the network.
    PollReset,
    /// Look for a command.
    PollCommand,
    /// Look for data.
    PollData,
    /// Write the data that was found to a client.
    Write { index: u8 },
    /// Look for a new client.
    Accept,
    /// Read from a client.
    Read { slot: usize },
    Sleep { millis: u64 },
    /// The task is over.
    Stop,
}

/// A client that wants to be connected.
#[derive(Debug)]
pub struct Incoming {
    pub remote_ip: String,
    pub remote_port: u16,
    /// Whether its connection could be set up.
    pub ready: bool,
}

impl Action {
    /// Whether the task is under the watchdog during the call: a task that is over is not
    /// fed any more.
    pub open spec fn under_watch(self) -> bool {
        self !is Stop
    }

    pub fn watched(self) -> (r: bool)
        ensures
            r == self.under_watch(),
    {
        match self {
            Action::Stop => false,
            _ => true,
        }
    }
}

/// The outcome of a call.
#[derive(Debug)]
pub enum Event {
    Settings(Received<TcpServerSettings>),
    LatchOpen,
    /// Whether the listener was opened.
    Opened(bool),
    /// Whether there was a reset of the network.
    Reset(bool),
    Command(Option<TcpCommandMessage>),
    /// The slot that data of the master is for.
    Data(Option<u8>),
    /// Whether the data was written.
    Written(bool),
    Incoming(Option<Incoming>),
    Read(ReadOutcome),
    Slept,
}

/// The TCP server task.
pub struct TcpServerTask {
    pub phase: Phase,
    pub settings: TcpServerSettings,
    /// Whether the listener is open.
    pub listening: bool,
    pub slots: TcpSlots,
}

/// What a TCP server task is up to.
pub struct TcpState {
    pub phase: Phase,
    pub settings: TcpServerSettings,
    pub listening: bool,
    pub slots: Seq<Option<u64>>,
}

impl View for TcpServerTask {
    type V = TcpState;

    open spec fn view(&self) -> TcpState {
        TcpState {
            phase: self.phase,
            settings: self.settings,
            listening: self.listening,
            slots: self.slots@,
        }
    }
}

impl TcpState {
    /// There are as many slots as clients can be connected, and the slot that is written to or
    /// read from has one.
    pub open spec fn consistent(self) -> bool {
        &&& self.slots.len() == MAX_CLIENTS
        &&& match self.phase {
            Phase::Writing { index } => index < MAX_CLIENTS && self.slots[index as int] is Some,
            Phase::Reading { slot } => slot < MAX_CLIENTS && self.slots[slot as int] is Some,
            _ => true,
        }
    }

    /// The call whose outcome the task waits for.
    pub open spec fn pending(self) -> Action {
        match self.phase {
            Phase::AwaitSettings => Action::WaitSettings { millis: SETTINGS_WAIT_MS },
            Phase::Latch => Action::WaitLatch,
            Phase::Open => Action::OpenListener { port: self.settings.port },
            Phase::DrainSettings => Action::PollSettings,
            Phase::DrainResets { .. } => Action::PollReset,
            Phase::DrainCommands => Action::PollCommand,
            Phase::DrainData => Action::PollData,
            Phase::Writing { index } => Action::Write { index },
            Phase::Accept => Action::Accept,
            Phase::Reading { slot } => Action::Read { slot },
            Phase::Sleep => Action::Sleep { millis: LOOP_DELAY_MS },
            Phase::Stopped => Action::Stop,
        }
    }

    /// The task in another phase.
    pub open spec fn at(self, phase: Phase) -> TcpState {
        TcpState { phase, ..self }
    }

    /// The task with a slot in another state.
    pub open spec fn with_slot(self, index: int, last: Option<u64>) -> TcpState {
        TcpState { slots: self.slots.update(index, last), ..self }
    }

    /// The task with no client.
    pub open spec fn without_clients(self) -> TcpState {
        TcpState { slots: tcp_slots::all_free(), ..self }
    }

    /// The reports of dropping all clients from the side of the server.
    pub open spec fn drop_all_reports(self) -> Seq<tcp_slots::TcpReport> {
        tcp_slots::drop_reports(
            self.slots,
            MAX_CLIENTS as nat,
            TcpDisconnectReason::ServerClosedConnection,
        )
    }

    /// The task about to read from the next client from slot `from` on; after the last one the
    /// round is over.
    pub open spec fn reading_from(self, from: int) -> TcpState {
        self.at(
            match tcp_slots::taken_from(self.slots, from) {
                Some(slot) => Phase::Reading { slot: slot as usize },
                None => Phase::Sleep,
            },
        )
    }

    /// What comes after the outcome of a call, and what the master is told. An outcome that does
    /// not belong to the call changes nothing.
    pub open spec fn after(self, event: Event, now: u64) -> (TcpState, Seq<tcp_slots::TcpReport>) {
        let nothing = Seq::<tcp_slots::TcpReport>::empty();
        match (self.phase, event) {
            (Phase::AwaitSettings, Event::Settings(received)) => match received {
                Received::Got(settings) => (
                    TcpState { settings, ..self }.at(Phase::Latch),
                    nothing,
                ),
                Received::Nothing => (self, nothing),
                Received::Closed => (self.at(Phase::Stopped), nothing),
            },
            (Phase::Latch, Event::LatchOpen) => (self.at(Phase::Open), nothing),
            (Phase::Open, Event::Opened(ok)) => if ok {
                (TcpState { listening: true, ..self }.at(Phase::DrainSettings), nothing)
            } else {
                (self.at(Phase::AwaitSettings), nothing)
            },
            (Phase::DrainSettings, Event::Settings(received)) => match received {
                Received::Got(settings) => (
                    TcpState { settings, listening: false, ..self }.without_clients(),
                    self.drop_all_reports(),
                ),
                _ => (self.at(Phase::DrainResets { got: false }), nothing),
            },
            (Phase::DrainResets { got }, Event::Reset(reset)) => if reset {
                (self.at(Phase::DrainResets { got: true }), nothing)
            } else if got {
                (self.without_clients().at(Phase::DrainCommands), self.drop_all_reports())
            } else {
                (self.at(Phase::DrainCommands), nothing)
            },
            (Phase::DrainCommands, Event::Command(command)) => match command {
                Some(message) => if !message.command.close || message.index >= MAX_CLIENTS {
                    (self, nothing)
                } else if self.slots[message.index as int] is Some {
                    (
                        self.with_slot(message.index as int, None),
                        seq![
                            tcp_slots::TcpReport::Disconnected {
                                index: message.index,
                                reason: TcpDisconnectReason::ServerClosedConnection,
                            },
                        ],
                    )
                } else {
                    (
                        self,
                        seq![
                            tcp_slots::TcpReport::Disconnected {
                                index: message.index,
                                reason: TcpDisconnectReason::NotConnected,
                            },
                        ],
                    )
                },
                None => (self.at(Phase::DrainData), nothing),
            },
            (Phase::DrainData, Event::Data(data)) => match data {
                Some(index) => if index >= MAX_CLIENTS {
                    (self, nothing)
                } else if self.slots[index as int] is Some {
                    (self.at(Phase::Writing { index }), nothing)
                } else {
                    (
                        self,
                        seq![
                            tcp_slots::TcpReport::Disconnected {
                                index,
                                reason: TcpDisconnectReason::NotConnected,
                            },
                        ],
                    )
                },
                None => (
                    self.at(if self.listening { Phase::Accept } else { Phase::Sleep }),
                    nothing,
                ),
            },
            (Phase::Writing { index }, Event::Written(ok)) => (
                if ok {
                    self.with_slot(index as int, Some(now)).at(Phase::DrainData)
                } else {
                    self.at(Phase::DrainData)
                },
                nothing,
            ),
            (Phase::Accept, Event::Incoming(incoming)) => match incoming {
                Some(client) => match tcp_slots::free_from(self.slots, 0) {
                    Some(index) if client.ready => (
                        self.with_slot(index, Some(now)),
                        seq![
                            tcp_slots::TcpReport::Connected {
                                index: index as u8,
                                remote_ip: client.remote_ip,
                                remote_port: client.remote_port,
                            },
                        ],
                    ),
                    _ => (self, nothing),
                },
                None => (self.reading_from(0), nothing),
            },
            (Phase::Reading { slot }, Event::Read(outcome)) => match (
                outcome,
                tcp_slots::drop_reason(
                    outcome,
                    self.slots[slot as int]->0,
                    now,
                    self.settings.client_timeout,
                ),
            ) {
                (ReadOutcome::Data(data), _) => (
                    self.with_slot(slot as int, Some(now)),
                    seq![tcp_slots::TcpReport::Data { index: slot as u8, payload: data@ }],
                ),
                (_, Some(reason)) => (
                    self.with_slot(slot as int, None).reading_from(slot + 1),
                    seq![tcp_slots::TcpReport::Disconnected { index: slot as u8, reason }],
                ),
                (_, None) => (self.reading_from(slot + 1), nothing),
            },
            (Phase::Sleep, Event::Slept) => (
                self.at(if self.listening { Phase::DrainSettings } else { Phase::Latch }),
                nothing,
            ),
            _ => (self, nothing),
        }
    }
}

impl TcpServerTask {
    /// The task is consistent.
    pub open spec fn wf(&self) -> bool {
        self.slots.wf() && self@.consistent()
    }

    /// A task that has done nothing yet.
    pub fn new() -> (task: TcpServerTask)
        ensures
            task.wf(),
            task.phase == Phase::AwaitSettings,
            !task.listening,
            task.settings == (TcpServerSettings { port: 0, client_timeout: 0 }),
            task.slots@ == tcp_slots::all_free(),
    {
        TcpServerTask {
            phase: Phase::AwaitSettings,
            settings: TcpServerSettings { port: 0, client_timeout: 0 },
            listening: false,
            slots: TcpSlots::new(),
        }
    }

    /// The call that the task makes next.
    pub fn action(&self) -> (action: Action)
        ensures
            action == self@.pending(),
    {
        match self.phase {
            Phase::AwaitSettings => Action::WaitSettings { millis: SETTINGS_WAIT_MS },
            Phase::Latch => Action::WaitLatch,
            Phase::Open => Action::OpenListener { port: self.settings.port },
            Phase::DrainSettings => Action::PollSettings,
            Phase::DrainResets { .. } => Action::PollReset,
            Phase::DrainCommands => Action::PollCommand,
            Phase::DrainData => Action::PollData,
            Phase::Writing { index } => Action::Write { index },
            Phase::Accept => Action::Accept,
            Phase::Reading { slot } => Action::Read { slot },
            Phase::Sleep => Action::Sleep { millis: LOOP_DELAY_MS },
            Phase::Stopped => Action::Stop,
        }
    }

    fn read_from(&mut self, from: usize)
        requires
            old(self).slots.wf(),
        ensures
            final(self)@ == old(self)@.reading_from(from as int),
            final(self).wf(),
    {
        proof {
            self.slots.lemma_len();
        }
        self.phase = match self.slots.next_connected(from) {
            Some(slot) => Phase::Reading { slot },
            None => Phase::Sleep,
        };
    }

    /// Goes on after the outcome of the call that `action` asked for, and queues what the master
    /// is told; `now` is the time of the outcome in milliseconds.
    #[verifier::rlimit(40)]
    pub fn step(&mut self, event: Event, now: u64, outbox: &mut Vec<Vec<u8>>)
        requires
            old(self).wf(),
        ensures
            final(self).wf(),
            final(self)@ == old(self)@.after(event, now).0,
            bytes::views(final(outbox)@) == tcp_slots::all_reported(
                bytes::views(old(outbox)@),
                old(self)@.after(event, now).1,
            ),
    {
        proof {
            reveal_with_fuel(tcp_slots::all_reported, 2);
            self.slots.lemma_len();
            let reports = self@.after(event, now).1;
            if reports.len() == 1 {
                assert(reports.drop_last() =~= Seq::empty());
            }
        }
        match (self.phase, event) {
            (Phase::AwaitSettings, Event::Settings(received)) => match received {
                Received::Got(settings) => {
                    self.settings = settings;
                    self.phase = Phase::Latch;
                },
                Received::Nothing => {},
                Received::Closed => {
                    self.phase = Phase::Stopped;
                },
            },
            (Phase::Latch, Event::LatchOpen) => {
                self.phase = Phase::Open;
            },
            (Phase::Open, Event::Opened(ok)) => {
                if ok {
                    self.listening = true;
                    self.phase = Phase::DrainSettings;
                } else {
                    self.phase = Phase::AwaitSettings;
                }
            },
            (Phase::DrainSettings, Event::Settings(received)) => match received {
                Received::Got(settings) => {
                    self.slots.disconnect_all(TcpDisconnectReason::ServerClosedConnection, outbox);
                    self.listening = false;
                    self.settings = settings;
                },
                _ => {
                    self.phase = Phase::DrainResets { got: false };
                },
            },
            (Phase::DrainResets { got }, Event::Reset(reset)) => {
                if reset {
                    self.phase = Phase::DrainResets { got: true };
                } else {
                    if got {
                        self.slots.disconnect_all(
                            TcpDisconnectReason::ServerClosedConnection,
                            outbox,
                        );
                    }
                    self.phase = Phase::DrainCommands;
                }
            },
            (Phase::DrainCommands, Event::Command(command)) => match command {
                Some(message) => {
                    let _ = self.slots.command(message.index, message.command.close, outbox);
                },
                None => {
                    self.phase = Phase::DrainData;
                },
            },
            (Phase::DrainData, Event::Data(data)) => match data {
                Some(index) => {
                    if self.slots.can_write(index, outbox) {
                        self.phase = Phase::Writing { index };
                    }
                },
                None => {
                    self.phase = if self.listening {
                        Phase::Accept
                    } else {
                        Phase::Sleep
                    };
                },
            },
            (Phase::Writing { index }, Event::Written(ok)) => {
                if ok {
                    self.slots.written(index as usize, now);
                }
                self.phase = Phase::DrainData;
            },
            (Phase::Accept, Event::Incoming(incoming)) => match incoming {
                Some(client) => {
                    if client.ready {
                        let _ = self.slots.accept(
                            client.remote_ip,
                            client.remote_port,
                            now,
                            outbox,
                        );
                    }
                },
                None => {
                    self.read_from(0);
                },
            },
            (Phase::Reading { slot }, Event::Read(outcome)) => {
                let timeout: u16 = self.settings.client_timeout;
                if !self.slots.read(slot, outcome, now, timeout, outbox) {
                    self.read_from(slot + 1);
                }
            },
            (Phase::Sleep, Event::Slept) => {
                self.phase = if self.listening {
                    Phase::DrainSettings
                } else {
                    Phase::Latch
                };
            },
            _ => {},
        }
        proof {
            self.slots.lemma_len();
        }
    }
}

} // verus!
