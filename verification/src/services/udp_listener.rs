//! The UDP discovery listener: requests in, advertisements out.

use vstd::prelude::*;

use crate::master::messages::service_settings::UdpListenerSettings;
use crate::network::tasks::Received;
use crate::services::json;
use crate::services::json::json_string;
use crate::system::wdt::TASK_WDT_TIMEOUT_SECS;
use crate::text;

verus! {

/// Milliseconds of one wait for settings.
pub const SETTINGS_WAIT_MS: u64 = 1000;

/// Milliseconds between two rounds.
pub const POLL_DELAY_MS: u64 = 2;

/// Milliseconds before the sockets are opened anew for other settings.
pub const REOPEN_DELAY_MS: u64 = 10;

/// Bytes of the longest request that is read.
pub const RECV_BUF_LEN: usize = 1536;

/// `core::str::from_utf8`: the text whose UTF-8 form the bytes are, if they are one.
#[verifier::external_body]
fn utf8_text(data: &[u8]) -> (r: Option<&str>)
    ensures
        match r {
            Some(text) => vstd::utf8::encode_utf8(text@) == data@,
            None => forall|text: Seq<char>| #[trigger] vstd::utf8::encode_utf8(text) != data@,
        },
{
    core::str::from_utf8(data).ok()
}

/// The text of a request: the datagram as UTF-8, without white space around it.
pub fn request_text(data: &[u8]) -> (r: Option<&str>)
    ensures
        match r {
            Some(request) => exists|text: Seq<char>| #[trigger]
                vstd::utf8::encode_utf8(text) == data@ && request@ == text::trimmed(text),
            None => forall|text: Seq<char>| #[trigger] vstd::utf8::encode_utf8(text) != data@,
        },
{
    match utf8_text(data) {
        Some(text) => Some(text::trim(text)),
        None => None,
    }
}

/// The advertisement of a service: its identifier, the type of the device, and its port.
pub open spec fn advertisement(s: UdpListenerSettings) -> Seq<char> {
    "{\"serviceId\":"@ + json::string_text(s.service_id@) + ",\"deviceType\":"@ + text::decimal(
        s.device_type as nat,
    ) + ",\"port\":"@ + text::decimal(s.port as nat) + "}"@
}

/// The advertisement that a request is answered with.
pub fn advertise(settings: &UdpListenerSettings) -> (response: String)
    ensures
        response@ == advertisement(*settings),
{
    let mut out = String::new();
    out.append("{\"serviceId\":");
    let id = json_string(settings.service_id.as_str()).unwrap();
    out.append(id.as_str());
    out.append(",\"deviceType\":");
    text::push_decimal(&mut out, settings.device_type as u64);
    out.append(",\"port\":");
    text::push_decimal(&mut out, settings.port as u64);
    out.append("}");
    assert(out@ =~= advertisement(*settings));
    out
}

/// Where the task stands: each phase waits for the outcome of one call.
#[derive(Debug, Clone, Copy, PartialEq, Eq, Structural)]
pub enum Phase {
    /// No sockets until there are settings.
    AwaitSettings,
    /// No socket before every network driver has gone through its start.
    Latch,
    Open,
    /// A round begins: new settings first.
    DrainSettings,
    /// Then requests, socket by socket.
    Receiving { socket: usize },
    Replying { socket: usize, port: u16 },
    Sleep,
    /// The sockets were closed for other settings.
    Reopen,
    /// The task is over.
    Stopped,
}

/// The call that the task makes next.
#[derive(Debug, Clone, Copy, PartialEq, Eq, Structural)]
pub enum Action {
    /// Wait for settings.
    WaitSettings { millis: u64 },
    /// Wait until sockets may be opened.
    WaitLatch,
    /// Open a socket on every request port of the settings.
    OpenSockets,
    /// Look for settings.
    PollSettings,
    /// Look for a request on a socket.
    Receive { socket: usize },
    /// Send the advertisement from a socket to this port of the host that the request came from.
    Reply { socket: usize, port: u16 },
    Sleep { millis: u64 },
    /// The task is over.
    Stop,
}

impl Action {
    /// Whether the task is under the watchdog during the call: a task that is over is not
    /// fed any more.
    pub open spec fn under_watch(self) -> bool {
        self !is Stop
    }

    pub fn watched(self) -> (r: bool)
        ensures
            r == self.under_watch(),
    {
        match self {
            Action::Stop => false,
            _ => true,
        }
    }
}

/// The outcome of a call.
#[derive(Debug)]
pub enum Event {
    Settings(Received<UdpListenerSettings>),
    LatchOpen,
    /// Whether all sockets were opened.
    Opened(bool),
    /// The `type` of a request; none if there was no request, or none that makes sense.
    Request(Option<String>),
    Replied,
    Slept,
}

/// The UDP listener task.
pub struct UdpListenerTask {
    pub phase: Phase,
    pub settings: UdpListenerSettings,
    /// Whether the sockets are open.
    pub open: bool,
    /// How many requests were answered, from which the next response port follows.
    pub response_rr: usize,
}

/// The number after `n`, back at 0 after the largest.
pub open spec fn next_rr(n: usize) -> usize {
    if n == usize::MAX {
        0
    } else {
        (n + 1) as usize
    }
}

/// The settings that come with an outcome are valid.
pub open spec fn event_valid(event: Event) -> bool {
    event matches Event::Settings(Received::Got(s)) ==> s.valid()
}

impl UdpListenerTask {
    /// There are valid settings once they are needed.
    pub open spec fn consistent(self) -> bool {
        self.phase == Phase::AwaitSettings || self.phase == Phase::Stopped || self.settings.valid()
    }

    /// The call whose outcome the task waits for.
    pub open spec fn pending(self) -> Action {
        match self.phase {
            Phase::AwaitSettings => Action::WaitSettings { millis: SETTINGS_WAIT_MS },
            Phase::Latch => Action::WaitLatch,
            Phase::Open => Action::OpenSockets,
            Phase::DrainSettings => Action::PollSettings,
            Phase::Receiving { socket } => Action::Receive { socket },
            Phase::Replying { socket, port } => Action::Reply { socket, port },
            Phase::Sleep => Action::Sleep { millis: POLL_DELAY_MS },
            Phase::Reopen => Action::Sleep { millis: REOPEN_DELAY_MS },
            Phase::Stopped => Action::Stop,
        }
    }

    /// The task in another phase.
    pub open spec fn at(self, phase: Phase) -> UdpListenerTask {
        UdpListenerTask { phase, ..self }
    }

    /// The port that the next request is answered on.
    pub open spec fn response_port(self) -> u16 {
        self.settings.response_ports@[self.response_rr as int % self.settings.response_ports@.len() as int]
    }

    /// The task about to look at the next socket; after the last one the round is over.
    pub open spec fn receiving_from(self, socket: int) -> UdpListenerTask {
        self.at(
            if socket < self.settings.request_ports@.len() {
                Phase::Receiving { socket: socket as usize }
            } else {
                Phase::Sleep
            },
        )
    }

    /// What comes after the outcome of a call. An outcome that does not belong to the call
    /// changes nothing.
    pub open spec fn after(self, event: Event) -> UdpListenerTask {
        match (self.phase, event) {
            (Phase::AwaitSettings, Event::Settings(received)) => match received {
                Received::Got(settings) => UdpListenerTask { settings, ..self }.at(Phase::Latch),
                Received::Nothing => self,
                Received::Closed => self.at(Phase::Stopped),
            },
            (Phase::Latch, Event::LatchOpen) => self.at(Phase::Open),
            (Phase::Open, Event::Opened(ok)) => if ok {
                UdpListenerTask { open: true, ..self }.at(Phase::DrainSettings)
            } else {
                self.at(Phase::AwaitSettings)
            },
            (Phase::DrainSettings, Event::Settings(received)) => match received {
                Received::Got(settings) => UdpListenerTask { settings, open: false, ..self },
                _ => if self.open {
                    self.receiving_from(0)
                } else {
                    self.at(Phase::Reopen)
                },
            },
            (Phase::Receiving { socket }, Event::Request(request)) => match request {
                Some(kind) if kind@ == self.settings.request_type@ => UdpListenerTask {
                    response_rr: next_rr(self.response_rr),
                    ..self
                }.at(Phase::Replying { socket, port: self.response_port() }),
                _ => self.receiving_from(socket + 1),
            },
            (Phase::Replying { socket, port }, Event::Replied) => self.receiving_from(socket + 1),
            (Phase::Sleep, Event::Slept) => self.at(Phase::DrainSettings),
            (Phase::Reopen, Event::Slept) => self.at(Phase::Latch),
            _ => self,
        }
    }

    /// A task that has done nothing yet.
    pub fn new() -> (task: UdpListenerTask)
        ensures
            task.phase == Phase::AwaitSettings,
            task.consistent(),
            !task.open,
            task.response_rr == 0,
            task.settings.request_ports@.len() == 0,
            task.settings.response_ports@.len() == 0,
            task.settings.request_type@ == Seq::<char>::empty(),
            task.settings.service_id@ == Seq::<char>::empty(),
            task.settings.device_type == 0,
            task.settings.port == 0,
    {
        UdpListenerTask {
            phase: Phase::AwaitSettings,
            settings: UdpListenerSettings {
                request_ports: Vec::new(),
                response_ports: Vec::new(),
                request_type: String::new(),
                service_id: String::new(),
                device_type: 0,
                port: 0,
            },
            open: false,
            response_rr: 0,
        }
    }

    /// The call that the task makes next.
    pub fn action(&self) -> (action: Action)
        ensures
            action == self.pending(),
    {
        match self.phase {
            Phase::AwaitSettings => Action::WaitSettings { millis: SETTINGS_WAIT_MS },
            Phase::Latch => Action::WaitLatch,
            Phase::Open => Action::OpenSockets,
            Phase::DrainSettings => Action::PollSettings,
            Phase::Receiving { socket } => Action::Receive { socket },
            Phase::Replying { socket, port } => Action::Reply { socket, port },
            Phase::Sleep => Action::Sleep { millis: POLL_DELAY_MS },
            Phase::Reopen => Action::Sleep { millis: REOPEN_DELAY_MS },
            Phase::Stopped => Action::Stop,
        }
    }

    fn receive_after(&mut self, socket: usize)
        ensures
            *final(self) == old(self).receiving_from(socket + 1),
    {
        let count: usize = self.settings.request_ports.len();
        self.phase = if socket < count && socket + 1 < count {
            Phase::Receiving { socket: socket + 1 }
        } else {
            Phase::Sleep
        };
    }

    /// The response that a request is answered with.
    pub fn response(&self) -> (response: String)
        ensures
            response@ == advertisement(self.settings),
    {
        advertise(&self.settings)
    }

    /// Goes on after the outcome of the call that `action` asked for.
    pub fn step(&mut self, event: Event)
        requires
            old(self).consistent(),
            event_valid(event),
        ensures
            final(self).consistent(),
            *final(self) == old(self).after(event),
    {
        match (self.phase, event) {
            (Phase::AwaitSettings, Event::Settings(received)) => match received {
                Received::Got(settings) => {
                    self.settings = settings;
                    self.phase = Phase::Latch;
                },
                Received::Nothing => {},
                Received::Closed => {
                    self.phase = Phase::Stopped;
                },
            },
            (Phase::Latch, Event::LatchOpen) => {
                self.phase = Phase::Open;
            },
            (Phase::Open, Event::Opened(ok)) => {
                if ok {
                    self.open = true;
                    self.phase = Phase::DrainSettings;
                } else {
                    self.phase = Phase::AwaitSettings;
                }
            },
            (Phase::DrainSettings, Event::Settings(received)) => match received {
                Received::Got(settings) => {
                    self.settings = settings;
                    self.open = false;
                },
                _ => {
                    self.phase = if !self.open {
                        Phase::Reopen
                    } else if self.settings.request_ports.len() > 0 {
                        Phase::Receiving { socket: 0 }
                    } else {
                        Phase::Sleep
                    };
                },
            },
            (Phase::Receiving { socket }, Event::Request(request)) => {
                let wanted = match &request {
                    Some(kind) => *kind == self.settings.request_type,
                    None => false,
                };
                if wanted {
                    let ports: usize = self.settings.response_ports.len();
                    let port: u16 = self.settings.response_ports[self.response_rr % ports];
                    self.response_rr = self.response_rr.wrapping_add(1);
                    self.phase = Phase::Replying { socket, port };
                } else {
                    self.receive_after(socket);
                }
            },
            (Phase::Replying { socket, port: _ }, Event::Replied) => {
                self.receive_after(socket);
            },
            (Phase::Sleep, Event::Slept) => {
                self.phase = Phase::DrainSettings;
            },
            (Phase::Reopen, Event::Slept) => {
                self.phase = Phase::Latch;
            },
            _ => {},
        }
    }
}

/// Whatever a call gives, the task stays consistent.
pub proof fn law_task_stays_consistent(t: UdpListenerTask, event: Event)
    requires
        t.consistent(),
        event_valid(event),
    ensures
        t.after(event).consistent(),
{
}

/// A request is answered if and only if it asks for the type of the settings, and then on one of
/// the response ports.
pub proof fn law_only_wanted_requests_are_answered(t: UdpListenerTask, socket: usize, kind: String)
    requires
        t.consistent(),
        t.phase == (Phase::Receiving { socket }),
    ensures
        t.after(Event::Request(Some(kind))).phase is Replying <==> kind@ == t.settings.request_type@,
        !(t.after(Event::Request(None)).phase is Replying),
        t.after(Event::Request(Some(kind))).phase matches Phase::Replying { port, .. }
            ==> t.settings.response_ports@.contains(port),
{
    let ports = t.settings.response_ports@;
    let k = t.response_rr as int % ports.len() as int;
    assert(ports[k] == t.response_port());
}

proof fn lemma_turn(n: usize, len: int)
    requires
        len == 1 || len == 2,
    ensures
        next_rr(n) as int % len == (n as int % len + 1) % len,
{
    assert(usize::MAX % 2 == 1);
    if len == 1 {
        assert(next_rr(n) as int % 1 == (n as int % 1 + 1) % 1);
    } else {
        assert(next_rr(n) as int % 2 == (n as int % 2 + 1) % 2);
    }
}

/// The response ports take turns: after an answer on one of them the next answer goes to the one
/// behind it, and after the last it goes to the first again.
pub proof fn law_response_ports_take_turns(t: UdpListenerTask, socket: usize, kind: String)
    requires
        t.consistent(),
        t.phase == (Phase::Receiving { socket }),
        kind@ == t.settings.request_type@,
    ensures
        ({
            let next = t.after(Event::Request(Some(kind)));
            let ports = t.settings.response_ports@;
            let k = t.response_rr as int % ports.len() as int;
            &&& next.phase == (Phase::Replying { socket, port: ports[k] })
            &&& next.response_port() == ports[(k + 1) % ports.len() as int]
        }),
{
    lemma_turn(t.response_rr, t.settings.response_ports@.len() as int);
}

/// The outcomes that belong to a call.
pub open spec fn answers(event: Event, action: Action) -> bool {
    match action {
        Action::WaitSettings { .. } => event is Settings,
        Action::WaitLatch => event is LatchOpen,
        Action::OpenSockets => event is Opened,
        Action::PollSettings => event is Settings,
        Action::Receive { .. } => event is Request,
        Action::Reply { .. } => event is Replied,
        Action::Sleep { .. } => event is Slept,
        Action::Stop => false,
    }
}

/// An outcome that does not belong to the call changes nothing; a task that has stopped stays so.
pub proof fn law_outcome_belongs_to_call(t: UdpListenerTask, event: Event)
    ensures
        !answers(event, t.pending()) ==> t.after(event) == t,
        t.phase == Phase::Stopped ==> t.after(event) == t,
{
}

/// A task that is over has left the watchdog. While it is under the watchdog, every wait is
/// shorter than the watchdog's time.
pub proof fn law_task_feeds_its_watchdog(t: UdpListenerTask)
    ensures
        t.phase == Phase::Stopped ==> !t.pending().under_watch(),
        t.pending() matches Action::WaitSettings { millis } ==> millis < 1000
            * TASK_WDT_TIMEOUT_SECS,
        t.pending() matches Action::Sleep { millis } ==> millis < 1000 * TASK_WDT_TIMEOUT_SECS,
{
}

} // verus!
