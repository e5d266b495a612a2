//! The Ethernet task: which call on the driver comes next, given the outcome of the last one.

use vstd::prelude::*;

use crate::master::messages::interface_settings::{EthernetSettings, InterfaceType};
use crate::network::addressing;
use crate::network::addressing::{client_ip_plan, IpInfo, NetifOp};
use crate::network::ipv4::InvalidArgument;
use crate::network::report::Report;
use crate::network::tasks;
use crate::network::tasks::{has_passed, no_effects, one_effect, Effect, Received};

verus! {

/// Milliseconds of one wait for settings.
pub const SETTINGS_WAIT_MS: u64 = 1000;

/// Milliseconds between two looks at a link or an interface that is to come up.
pub const POLL_MS: u64 = 250;

/// Milliseconds that the link, and then the interface, has to come up.
pub const UP_TIMEOUT_MS: u64 = 15_000;

/// Milliseconds between two looks at a link that was up.
pub const LINK_MONITOR_POLL_MS: u64 = 1000;

/// Milliseconds before the port is brought up again after a failure.
pub const RETRY_MS: u64 = 5000;

/// The platform's code for a wait that took too long.
pub const ESP_ERR_TIMEOUT: i32 = 0x107;

/// Where the task stands: each phase waits for the outcome of one call.
#[derive(Debug, Clone, Copy, PartialEq, Eq, Structural)]
pub enum Phase {
    /// The driver is being started.
    Init,
    /// Nothing to do until the port is configured, or configured anew.
    AwaitSettings,
    /// The port is disabled.
    Disable,
    /// Bringing the port up.
    ApplyIp,
    Start,
    /// Waiting for the link, from `since` on.
    LinkWait { since: u64 },
    LinkSleep { since: u64 },
    /// The port has a link.
    ReadMac,
    /// Waiting for the interface to come up, from `since` on.
    NetifWait { since: u64 },
    NetifLink { since: u64 },
    NetifSleep { since: u64 },
    /// The port is up.
    ReadIp,
    /// Watching the link.
    MonitorSettings,
    MonitorConnected,
    MonitorUp { connected: bool },
    MonitorSleep,
    /// The link was lost; waiting for it to come back.
    RecoverSettings,
    RecoverLink,
    RecoverSleep,
    /// The port could not be brought up; trying again after a while.
    Retry,
    /// The task is over.
    Stopped,
}

/// The call that the task makes next.
#[derive(Debug, Clone, Copy, PartialEq, Eq, Structural)]
pub enum Action {
    /// Start the driver.
    InitDriver,
    /// Wait for settings.
    WaitSettings { millis: u64 },
    /// Look for settings.
    PollSettings,
    StopDriver,
    /// Give the port its address, by `apply_eth_ip_settings` of its settings.
    ApplyIp,
    StartDriver,
    IsConnected,
    IsUp,
    ReadMac,
    ReadIpInfo,
    Sleep { millis: u64 },
    /// The task is over.
    Stop,
}

impl Action {
    /// Whether the task is under the watchdog during the call: a task that is over is not
    /// fed any more.
    pub open spec fn under_watch(self) -> bool {
        self !is Stop
    }

    pub fn watched(self) -> (r: bool)
        ensures
            r == self.under_watch(),
    {
        match self {
            Action::Stop => false,
            _ => true,
        }
    }
}

/// The outcome of a call.
#[derive(Debug)]
pub enum Event {
    /// Whether the driver was started.
    Driver(bool),
    Settings(Received<EthernetSettings>),
    /// Success, or the platform's code.
    Done(Result<(), i32>),
    /// The answer to a question, or the platform's code.
    Check(Result<bool, i32>),
    Mac(Option<[u8; 6]>),
    Ip(Option<IpInfo>),
    Slept,
}

/// The Ethernet task.
pub struct EthernetTask {
    pub phase: Phase,
    pub settings: EthernetSettings,
    /// Whether the port is brought up by DHCP at the start, before the master has configured it.
    pub mock_dhcp_on_boot: bool,
    /// Whether the port counts among the interfaces with a link.
    pub link_registered: bool,
    /// Whether the master was told of a link, and not yet of its loss.
    pub announced: bool,
}

impl Phase {
    /// The call whose outcome the phase waits for.
    pub open spec fn action(self) -> Action {
        match self {
            Phase::Init => Action::InitDriver,
            Phase::AwaitSettings => Action::WaitSettings { millis: SETTINGS_WAIT_MS },
            Phase::Disable => Action::StopDriver,
            Phase::ApplyIp => Action::ApplyIp,
            Phase::Start => Action::StartDriver,
            Phase::LinkWait { .. } => Action::IsConnected,
            Phase::LinkSleep { .. } => Action::Sleep { millis: POLL_MS },
            Phase::ReadMac => Action::ReadMac,
            Phase::NetifWait { .. } => Action::IsUp,
            Phase::NetifLink { .. } => Action::IsConnected,
            Phase::NetifSleep { .. } => Action::Sleep { millis: POLL_MS },
            Phase::ReadIp => Action::ReadIpInfo,
            Phase::MonitorSettings => Action::PollSettings,
            Phase::MonitorConnected => Action::IsConnected,
            Phase::MonitorUp { .. } => Action::IsUp,
            Phase::MonitorSleep => Action::Sleep { millis: LINK_MONITOR_POLL_MS },
            Phase::RecoverSettings => Action::PollSettings,
            Phase::RecoverLink => Action::IsConnected,
            Phase::RecoverSleep => Action::Sleep { millis: LINK_MONITOR_POLL_MS },
            Phase::Retry => Action::WaitSettings { millis: RETRY_MS },
            Phase::Stopped => Action::Stop,
        }
    }

    /// The phases in which the master knows of the link.
    pub open spec fn known(self) -> bool {
        ||| self.linked()
        ||| match self {
            Phase::NetifWait { .. } => true,
            Phase::NetifLink { .. } => true,
            Phase::NetifSleep { .. } => true,
            _ => false,
        }
    }

    /// The phases in which a lost link is waited for.
    pub open spec fn recovering(self) -> bool {
        match self {
            Phase::RecoverSettings => true,
            Phase::RecoverLink => true,
            Phase::RecoverSleep => true,
            _ => false,
        }
    }

    /// The phases in which the port has a link and an address.
    pub open spec fn linked(self) -> bool {
        match self {
            Phase::ReadIp => true,
            Phase::MonitorSettings => true,
            Phase::MonitorConnected => true,
            Phase::MonitorUp { .. } => true,
            Phase::MonitorSleep => true,
            _ => false,
        }
    }

    /// The phases in which the port is brought up, or is up.
    pub open spec fn active(self) -> bool {
        match self {
            Phase::Init => false,
            Phase::AwaitSettings => false,
            Phase::Disable => false,
            Phase::Retry => false,
            Phase::Stopped => false,
            _ => true,
        }
    }
}

/// The report of a port that could not be brought up.
pub open spec fn connect_error(code: i32) -> Seq<Effect> {
    seq![Effect::Report(Report::ConnectError { interface: InterfaceType::Ethernet, code })]
}

/// The report of a port that has lost its link.
pub open spec fn disconnected() -> Effect {
    Effect::Report(Report::Disconnected { interface: InterfaceType::Ethernet, reason: 0 })
}

/// The address reported of a port whose address could not be read.
pub open spec fn zero_mac() -> [u8; 6] {
    [0u8, 0, 0, 0, 0, 0]
}

fn report_connect_error(code: i32) -> (effects: Vec<Effect>)
    ensures
        effects@ == connect_error(code),
{
    one_effect(Effect::Report(Report::ConnectError { interface: InterfaceType::Ethernet, code }))
}

fn report_disconnected() -> (effects: Vec<Effect>)
    ensures
        effects@ == seq![disconnected()],
{
    one_effect(
        Effect::Report(Report::Disconnected { interface: InterfaceType::Ethernet, reason: 0 }),
    )
}

impl EthernetTask {
    /// The port counts as linked exactly while it has a link, the master has been told of a link
    /// that is used and of one that is lost, and the port is only brought up if the settings ask
    /// for it.
    pub open spec fn consistent(self) -> bool {
        &&& self.link_registered == self.phase.linked()
        &&& self.phase.known() ==> self.announced
        &&& self.phase.recovering() ==> !self.announced
        &&& self.phase.active() ==> self.settings.enabled
        &&& self.phase == Phase::Init && self.mock_dhcp_on_boot ==> self.settings.enabled
    }

    /// The task in another phase.
    pub open spec fn at(self, phase: Phase) -> EthernetTask {
        EthernetTask { phase, ..self }
    }

    /// The task without a link.
    pub open spec fn without_link(self) -> EthernetTask {
        EthernetTask { link_registered: false, ..self }
    }

    /// The task after the master was told of a link, or of its loss.
    pub open spec fn told(self, announced: bool) -> EthernetTask {
        EthernetTask { announced, ..self }
    }

    /// The task whose link is lost: it tells the master, and waits for the link to come back.
    pub open spec fn lost(self) -> (EthernetTask, Seq<Effect>) {
        (
            self.without_link().told(false).at(Phase::RecoverSettings),
            seq![disconnected()] + self.unlink_effects(),
        )
    }

    /// What giving up the link does on the side.
    pub open spec fn unlink_effects(self) -> Seq<Effect> {
        if self.link_registered {
            seq![Effect::LinkDown]
        } else {
            Seq::empty()
        }
    }

    /// The task about to follow its settings.
    pub open spec fn configured(self) -> (EthernetTask, Seq<Effect>) {
        if self.settings.enabled {
            (self.at(Phase::ApplyIp), Seq::empty())
        } else {
            (self.without_link().at(Phase::Disable), self.unlink_effects())
        }
    }

    /// The task about to follow other settings.
    pub open spec fn reconfigured(self, settings: EthernetSettings) -> (
        EthernetTask,
        Seq<Effect>,
    ) {
        EthernetTask { settings, ..self }.configured()
    }

    /// What comes after the outcome of a call, and what is done on the side. An outcome that
    /// does not belong to the call changes nothing.
    pub open spec fn after(self, event: Event, now: u64) -> (EthernetTask, Seq<Effect>) {
        let nothing = Seq::<Effect>::empty();
        let port = InterfaceType::Ethernet;
        match (self.phase, event) {
            (Phase::Init, Event::Driver(ok)) => if !ok {
                (self.at(Phase::Stopped), seq![Effect::DriverStarted])
            } else if self.mock_dhcp_on_boot {
                (self.configured().0, seq![Effect::DriverStarted] + self.configured().1)
            } else {
                (self.at(Phase::AwaitSettings), seq![Effect::DriverStarted])
            },
            (Phase::AwaitSettings, Event::Settings(received)) => match received {
                Received::Got(s) => self.reconfigured(s),
                Received::Nothing => (self, nothing),
                Received::Closed => (self.at(Phase::Stopped), nothing),
            },
            (Phase::Disable, Event::Done(outcome)) => if outcome is Ok {
                (self.told(false).at(Phase::AwaitSettings), seq![disconnected()])
            } else {
                (self.at(Phase::AwaitSettings), nothing)
            },
            (Phase::ApplyIp, Event::Done(outcome)) => match outcome {
                Ok(_) => (self.at(Phase::Start), nothing),
                Err(code) => (self.at(Phase::AwaitSettings), connect_error(code)),
            },
            (Phase::Start, Event::Done(outcome)) => match outcome {
                Ok(_) => (self.at(Phase::LinkWait { since: now }), nothing),
                Err(code) => (self.at(Phase::Retry), connect_error(code)),
            },
            (Phase::LinkWait { since }, Event::Check(answer)) => match answer {
                Ok(true) => (self.at(Phase::ReadMac), nothing),
                Ok(false) => if !tasks::passed(since, now, UP_TIMEOUT_MS as int) {
                    (self.at(Phase::LinkSleep { since }), nothing)
                } else if self.announced {
                    self.lost()
                } else {
                    (self.at(Phase::Retry), connect_error(ESP_ERR_TIMEOUT))
                },
                Err(code) => (self.at(Phase::Retry), connect_error(code)),
            },
            (Phase::LinkSleep { since }, Event::Slept) => (
                self.at(Phase::LinkWait { since }),
                nothing,
            ),
            (Phase::ReadMac, Event::Mac(mac)) => (
                self.told(true).at(Phase::NetifWait { since: now }),
                seq![
                    Effect::Report(
                        Report::Connected {
                            interface: port,
                            mac: match mac {
                                Some(mac) => mac,
                                None => zero_mac(),
                            },
                        },
                    ),
                ],
            ),
            (Phase::NetifWait { since }, Event::Check(answer)) => match answer {
                Ok(true) => (
                    EthernetTask { phase: Phase::ReadIp, link_registered: true, ..self },
                    if self.link_registered {
                        nothing
                    } else {
                        seq![Effect::LinkUp]
                    },
                ),
                Ok(false) => (self.at(Phase::NetifLink { since }), nothing),
                Err(code) => (self.at(Phase::Retry), connect_error(code)),
            },
            (Phase::NetifLink { since }, Event::Check(answer)) => if answer != Ok::<bool, i32>(true) {
                self.lost()
            } else if tasks::passed(since, now, UP_TIMEOUT_MS as int) {
                (self.at(Phase::Retry), connect_error(ESP_ERR_TIMEOUT))
            } else {
                (self.at(Phase::NetifSleep { since }), nothing)
            },
            (Phase::NetifSleep { since }, Event::Slept) => (
                self.at(Phase::NetifWait { since }),
                nothing,
            ),
            (Phase::ReadIp, Event::Ip(info)) => (
                self.at(Phase::MonitorSettings),
                match info {
                    Some(info) => seq![Effect::Report(Report::GotIp { interface: port, info })],
                    None => nothing,
                },
            ),
            (Phase::MonitorSettings, Event::Settings(received)) => match received {
                Received::Got(s) => (
                    self.without_link().reconfigured(s).0,
                    self.unlink_effects(),
                ),
                Received::Nothing => (self.at(Phase::MonitorConnected), nothing),
                Received::Closed => (
                    self.without_link().at(Phase::Stopped),
                    self.unlink_effects(),
                ),
            },
            (Phase::MonitorConnected, Event::Check(answer)) => (
                self.at(Phase::MonitorUp { connected: answer == Ok::<bool, i32>(true) }),
                nothing,
            ),
            (Phase::MonitorUp { connected }, Event::Check(answer)) => if connected && answer == Ok::<
                bool,
                i32,
            >(true) {
                (self.at(Phase::MonitorSleep), nothing)
            } else {
                self.lost()
            },
            (Phase::MonitorSleep, Event::Slept) => (self.at(Phase::MonitorSettings), nothing),
            (Phase::RecoverSettings, Event::Settings(received)) => match received {
                Received::Got(s) => self.reconfigured(s),
                Received::Nothing => (self.at(Phase::RecoverLink), nothing),
                Received::Closed => (self.at(Phase::Stopped), nothing),
            },
            (Phase::RecoverLink, Event::Check(answer)) => (
                self.at(
                    if answer == Ok::<bool, i32>(true) {
                        Phase::ReadMac
                    } else {
                        Phase::RecoverSleep
                    },
                ),
                nothing,
            ),
            (Phase::RecoverSleep, Event::Slept) => (self.at(Phase::RecoverSettings), nothing),
            (Phase::Retry, Event::Settings(received)) => match received {
                Received::Got(s) => self.reconfigured(s),
                Received::Nothing => self.configured(),
                Received::Closed => (
                    self.without_link().at(Phase::Stopped),
                    self.unlink_effects(),
                ),
            },
            _ => (self, nothing),
        }
    }

    /// A task that has done nothing yet; `mock_dhcp_on_boot` lets it bring the port up by DHCP
    /// without waiting for the master.
    pub fn new(mock_dhcp_on_boot: bool) -> (task: EthernetTask)
        ensures
            task.phase == Phase::Init,
            task.consistent(),
            task.mock_dhcp_on_boot == mock_dhcp_on_boot,
            task.settings.enabled == mock_dhcp_on_boot,
            task.settings.dhcp,
            task.settings.static_config is None,
            !task.link_registered,
            !task.announced,
    {
        EthernetTask {
            phase: Phase::Init,
            settings: EthernetSettings {
                enabled: mock_dhcp_on_boot,
                dhcp: true,
                static_config: None,
            },
            mock_dhcp_on_boot,
            link_registered: false,
            announced: false,
        }
    }

    /// The call that the task makes next.
    pub fn action(&self) -> (action: Action)
        ensures
            action == self.phase.action(),
    {
        match self.phase {
            Phase::Init => Action::InitDriver,
            Phase::AwaitSettings => Action::WaitSettings { millis: SETTINGS_WAIT_MS },
            Phase::Disable => Action::StopDriver,
            Phase::ApplyIp => Action::ApplyIp,
            Phase::Start => Action::StartDriver,
            Phase::LinkWait { .. } => Action::IsConnected,
            Phase::LinkSleep { .. } => Action::Sleep { millis: POLL_MS },
            Phase::ReadMac => Action::ReadMac,
            Phase::NetifWait { .. } => Action::IsUp,
            Phase::NetifLink { .. } => Action::IsConnected,
            Phase::NetifSleep { .. } => Action::Sleep { millis: POLL_MS },
            Phase::ReadIp => Action::ReadIpInfo,
            Phase::MonitorSettings => Action::PollSettings,
            Phase::MonitorConnected => Action::IsConnected,
            Phase::MonitorUp { .. } => Action::IsUp,
            Phase::MonitorSleep => Action::Sleep { millis: LINK_MONITOR_POLL_MS },
            Phase::RecoverSettings => Action::PollSettings,
            Phase::RecoverLink => Action::IsConnected,
            Phase::RecoverSleep => Action::Sleep { millis: LINK_MONITOR_POLL_MS },
            Phase::Retry => Action::WaitSettings { millis: RETRY_MS },
            Phase::Stopped => Action::Stop,
        }
    }

    fn unlink(&mut self) -> (effects: Vec<Effect>)
        ensures
            *final(self) == old(self).without_link(),
            effects@ == old(self).unlink_effects(),
    {
        if self.link_registered {
            self.link_registered = false;
            one_effect(Effect::LinkDown)
        } else {
            no_effects()
        }
    }

    fn lose_link(&mut self) -> (effects: Vec<Effect>)
        ensures
            *final(self) == old(self).lost().0,
            effects@ == old(self).lost().1,
    {
        let mut effects = report_disconnected();
        let mut unlinked = self.unlink();
        effects.append(&mut unlinked);
        self.announced = false;
        self.phase = Phase::RecoverSettings;
        effects
    }

    fn configure(&mut self) -> (effects: Vec<Effect>)
        ensures
            *final(self) == old(self).configured().0,
            effects@ == old(self).configured().1,
    {
        if self.settings.enabled {
            self.phase = Phase::ApplyIp;
            no_effects()
        } else {
            let effects = self.unlink();
            self.phase = Phase::Disable;
            effects
        }
    }

    fn reconfigure(&mut self, settings: EthernetSettings) -> (effects: Vec<Effect>)
        ensures
            *final(self) == old(self).reconfigured(settings).0,
            effects@ == old(self).reconfigured(settings).1,
    {
        self.settings = settings;
        self.configure()
    }

    /// Goes on after the outcome of the call that `action` asked for; `now` is the time of the
    /// outcome in milliseconds.
    #[verifier::rlimit(40)]
    pub fn step(&mut self, event: Event, now: u64) -> (effects: Vec<Effect>)
        ensures
            *final(self) == old(self).after(event, now).0,
            effects@ == old(self).after(event, now).1,
    {
        match (self.phase, event) {
            (Phase::Init, Event::Driver(ok)) => {
                let mut effects = one_effect(Effect::DriverStarted);
                if !ok {
                    self.phase = Phase::Stopped;
                } else if self.mock_dhcp_on_boot {
                    let mut more = self.configure();
                    effects.append(&mut more);
                } else {
                    self.phase = Phase::AwaitSettings;
                }
                effects
            },
            (Phase::AwaitSettings, Event::Settings(received)) => match received {
                Received::Got(s) => self.reconfigure(s),
                Received::Nothing => no_effects(),
                Received::Closed => {
                    self.phase = Phase::Stopped;
                    no_effects()
                },
            },
            (Phase::Disable, Event::Done(outcome)) => {
                self.phase = Phase::AwaitSettings;
                match outcome {
                    Ok(()) => {
                        self.announced = false;
                        report_disconnected()
                    },
                    Err(_) => no_effects(),
                }
            },
            (Phase::ApplyIp, Event::Done(outcome)) => match outcome {
                Ok(()) => {
                    self.phase = Phase::Start;
                    no_effects()
                },
                Err(code) => {
                    self.phase = Phase::AwaitSettings;
                    report_connect_error(code)
                },
            },
            (Phase::Start, Event::Done(outcome)) => match outcome {
                Ok(()) => {
                    self.phase = Phase::LinkWait { since: now };
                    no_effects()
                },
                Err(code) => {
                    self.phase = Phase::Retry;
                    report_connect_error(code)
                },
            },
            (Phase::LinkWait { since }, Event::Check(answer)) => match answer {
                Ok(true) => {
                    self.phase = Phase::ReadMac;
                    no_effects()
                },
                Ok(false) => if !has_passed(since, now, UP_TIMEOUT_MS) {
                    self.phase = Phase::LinkSleep { since };
                    no_effects()
                } else if self.announced {
                    self.lose_link()
                } else {
                    self.phase = Phase::Retry;
                    report_connect_error(ESP_ERR_TIMEOUT)
                },
                Err(code) => {
                    self.phase = Phase::Retry;
                    report_connect_error(code)
                },
            },
            (Phase::LinkSleep { since }, Event::Slept) => {
                self.phase = Phase::LinkWait { since };
                no_effects()
            },
            (Phase::ReadMac, Event::Mac(mac)) => {
                self.phase = Phase::NetifWait { since: now };
                self.announced = true;
                let mac = match mac {
                    Some(mac) => mac,
                    None => [0u8, 0, 0, 0, 0, 0],
                };
                one_effect(
                    Effect::Report(Report::Connected { interface: InterfaceType::Ethernet, mac }),
                )
            },
            (Phase::NetifWait { since }, Event::Check(answer)) => match answer {
                Ok(true) => {
                    self.phase = Phase::ReadIp;
                    if self.link_registered {
                        no_effects()
                    } else {
                        self.link_registered = true;
                        one_effect(Effect::LinkUp)
                    }
                },
                Ok(false) => {
                    self.phase = Phase::NetifLink { since };
                    no_effects()
                },
                Err(code) => {
                    self.phase = Phase::Retry;
                    report_connect_error(code)
                },
            },
            (Phase::NetifLink { since }, Event::Check(answer)) => {
                if !answer_is_yes(answer) {
                    self.lose_link()
                } else if has_passed(since, now, UP_TIMEOUT_MS) {
                    self.phase = Phase::Retry;
                    report_connect_error(ESP_ERR_TIMEOUT)
                } else {
                    self.phase = Phase::NetifSleep { since };
                    no_effects()
                }
            },
            (Phase::NetifSleep { since }, Event::Slept) => {
                self.phase = Phase::NetifWait { since };
                no_effects()
            },
            (Phase::ReadIp, Event::Ip(info)) => {
                self.phase = Phase::MonitorSettings;
                match info {
                    Some(info) => one_effect(
                        Effect::Report(Report::GotIp { interface: InterfaceType::Ethernet, info }),
                    ),
                    None => no_effects(),
                }
            },
            (Phase::MonitorSettings, Event::Settings(received)) => match received {
                Received::Got(s) => {
                    let effects = self.unlink();
                    let _ = self.reconfigure(s);
                    effects
                },
                Received::Nothing => {
                    self.phase = Phase::MonitorConnected;
                    no_effects()
                },
                Received::Closed => {
                    let effects = self.unlink();
                    self.phase = Phase::Stopped;
                    effects
                },
            },
            (Phase::MonitorConnected, Event::Check(answer)) => {
                self.phase = Phase::MonitorUp { connected: answer_is_yes(answer) };
                no_effects()
            },
            (Phase::MonitorUp { connected }, Event::Check(answer)) => {
                if connected && answer_is_yes(answer) {
                    self.phase = Phase::MonitorSleep;
                    no_effects()
                } else {
                    self.lose_link()
                }
            },
            (Phase::MonitorSleep, Event::Slept) => {
                self.phase = Phase::MonitorSettings;
                no_effects()
            },
            (Phase::RecoverSettings, Event::Settings(received)) => match received {
                Received::Got(s) => self.reconfigure(s),
                Received::Nothing => {
                    self.phase = Phase::RecoverLink;
                    no_effects()
                },
                Received::Closed => {
                    self.phase = Phase::Stopped;
                    no_effects()
                },
            },
            (Phase::RecoverLink, Event::Check(answer)) => {
                self.phase = if answer_is_yes(answer) {
                    Phase::ReadMac
                } else {
                    Phase::RecoverSleep
                };
                no_effects()
            },
            (Phase::RecoverSleep, Event::Slept) => {
                self.phase = Phase::RecoverSettings;
                no_effects()
            },
            (Phase::Retry, Event::Settings(received)) => match received {
                Received::Got(s) => self.reconfigure(s),
                Received::Nothing => self.configure(),
                Received::Closed => {
                    let effects = self.unlink();
                    self.phase = Phase::Stopped;
                    effects
                },
            },
            _ => no_effects(),
        }
    }
}

/// The calls that give the port its address.
pub fn apply_eth_ip_settings(settings: &EthernetSettings) -> (r: Result<
    Vec<NetifOp>,
    InvalidArgument,
>)
    ensures
        addressing::ops_of(r) == addressing::client_ip_ops(settings.dhcp, settings.static_config),
{
    client_ip_plan(settings.dhcp, &settings.static_config)
}

fn answer_is_yes(answer: Result<bool, i32>) -> (r: bool)
    ensures
        r == (answer == Ok::<bool, i32>(true)),
{
    match answer {
        Ok(v) => v,
        Err(_) => false,
    }
}

} // verus!
