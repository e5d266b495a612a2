//! The station task: a radio that serves a station alone, without access point and scans.

use vstd::prelude::*;

use crate::master::messages::interface_settings::{InterfaceType, WiFiStationSettings};
use crate::network::addressing::IpInfo;
use crate::network::ipv4::InvalidArgument;
use crate::network::report::Report;
use crate::network::tasks;
use crate::network::tasks::{has_passed, is_yes, no_effects, one_effect, Effect, Received};
use crate::network::wifi::config;
use crate::network::wifi::config::{
    build_client_configuration, default_sta_settings, ClientConfiguration,
};
use crate::network::wifi::state;
use crate::network::wifi::state::{recv_next_or_stop, resolve_connect_error_code};
use crate::network::wifi::task;
use crate::network::wifi::task::{
    report_refusal, report_rssi, retry_period, LINK_MONITOR_POLL_MS, RSSI_REPORT_PERIOD_MS,
};

verus! {

/// Where the task stands: each phase waits for the outcome of one call.
#[derive(Debug, Clone, Copy, PartialEq, Eq, Structural)]
pub enum Phase {
    /// The driver is being started.
    Init,
    /// Nothing to do until the station is configured, or configured anew.
    AwaitSettings,
    /// The station is disabled.
    Disable,
    DisableReason,
    /// Bringing the radio up.
    Configure,
    Start,
    StartFailed { code: i32 },
    /// The station looks for its network.
    Connect,
    ConnectFailed { code: i32 },
    ReadMac,
    /// Waiting for the station's interface to come up.
    NetifWait,
    NetifFailed { code: i32 },
    /// The station is up.
    ReadIp,
    FirstRssi,
    /// Watching the station's link; its signal was read at `rssi_at`.
    MonitorSettings { rssi_at: u64 },
    MonitorConnected { rssi_at: u64 },
    MonitorUp { rssi_at: u64, connected: bool },
    MonitorRssi,
    MonitorSleep { rssi_at: u64 },
    MonitorLost,
    /// Waiting out the reconnect period.
    Retry,
    /// The task is over.
    Stopped,
}

/// The call that the task makes next.
#[derive(Debug, Clone, Copy, PartialEq, Eq, Structural)]
pub enum Action {
    /// Start the driver.
    InitDriver,
    /// Wait for settings.
    WaitSettings,
    /// Wait for settings, but no longer than this.
    WaitSettingsFor { millis: u64 },
    /// Look for settings.
    PollSettings,
    StopRadio,
    /// Configure the radio as `StationTask::configuration` says.
    Configure,
    StartRadio,
    Connect,
    ReadMac,
    WaitNetifUp,
    IsUp,
    IsConnected,
    ReadIpInfo,
    ReadRssi,
    /// Take the reason of the last disconnect, leaving 0 in its place.
    TakeReason,
    Sleep { millis: u64 },
    /// The task is over.
    Stop,
}

/// The outcome of a call.
#[derive(Debug)]
pub enum Event {
    /// Whether the driver was started.
    Driver(bool),
    Settings(Received<WiFiStationSettings>),
    /// Success, or the platform's code.
    Done(Result<(), i32>),
    /// The answer to a question; none if asking failed.
    Flag(Option<bool>),
    Mac(Option<[u8; 6]>),
    Ip(Option<IpInfo>),
    Rssi(Option<i32>),
    /// The reason of the last disconnect; 0 if there is none.
    Reason(i32),
    Slept,
}

/// The station task.
pub struct StationTask {
    pub phase: Phase,
    pub settings: WiFiStationSettings,
}

impl Phase {
    /// The phases in which the radio is brought up, or runs.
    pub open spec fn active(self) -> bool {
        match self {
            Phase::Init => false,
            Phase::AwaitSettings => false,
            Phase::Disable => false,
            Phase::DisableReason => false,
            Phase::Retry => false,
            Phase::Stopped => false,
            _ => true,
        }
    }
}

/// The report of a station that could not be brought up.
pub open spec fn connect_error(code: i32) -> Effect {
    Effect::Report(Report::ConnectError { interface: InterfaceType::WiFiStation, code })
}

/// The report of a station that has lost its link.
pub open spec fn disconnected(reason: i32) -> Effect {
    Effect::Report(Report::Disconnected { interface: InterfaceType::WiFiStation, reason })
}

impl StationTask {
    /// The call whose outcome the task waits for.
    pub open spec fn pending(self) -> Action {
        match self.phase {
            Phase::Init => Action::InitDriver,
            Phase::AwaitSettings => Action::WaitSettings,
            Phase::Disable => Action::StopRadio,
            Phase::DisableReason => Action::TakeReason,
            Phase::Configure => Action::Configure,
            Phase::Start => Action::StartRadio,
            Phase::StartFailed { .. } => Action::TakeReason,
            Phase::Connect => Action::Connect,
            Phase::ConnectFailed { .. } => Action::TakeReason,
            Phase::ReadMac => Action::ReadMac,
            Phase::NetifWait => Action::WaitNetifUp,
            Phase::NetifFailed { .. } => Action::TakeReason,
            Phase::ReadIp => Action::ReadIpInfo,
            Phase::FirstRssi => Action::ReadRssi,
            Phase::MonitorSettings { .. } => Action::PollSettings,
            Phase::MonitorConnected { .. } => Action::IsConnected,
            Phase::MonitorUp { .. } => Action::IsUp,
            Phase::MonitorRssi => Action::ReadRssi,
            Phase::MonitorSleep { .. } => Action::Sleep { millis: LINK_MONITOR_POLL_MS },
            Phase::MonitorLost => Action::TakeReason,
            Phase::Retry => Action::WaitSettingsFor {
                millis: task::retry_millis(self.settings) as u64,
            },
            Phase::Stopped => Action::Stop,
        }
    }

    /// Nothing is brought up that the settings do not ask for.
    pub open spec fn consistent(self) -> bool {
        self.phase.active() ==> self.settings.enabled && task::station_configurable(self.settings)
    }

    /// The task in another phase.
    pub open spec fn at(self, phase: Phase) -> StationTask {
        StationTask { phase, ..self }
    }

    /// The task about to follow its settings.
    pub open spec fn configured(self) -> StationTask {
        self.at(
            if !self.settings.enabled {
                Phase::Disable
            } else if !task::station_configurable(self.settings) {
                Phase::AwaitSettings
            } else {
                Phase::Configure
            },
        )
    }

    /// The task about to follow other settings.
    pub open spec fn reconfigured(self, settings: WiFiStationSettings) -> StationTask {
        StationTask { settings, ..self }.configured()
    }

    /// What comes after the outcome of a call, and what is done on the side. An outcome that
    /// does not belong to the call changes nothing.
    pub open spec fn after(self, event: Event, now: u64) -> (StationTask, Seq<Effect>) {
        let nothing = Seq::<Effect>::empty();
        let station = InterfaceType::WiFiStation;
        match (self.phase, event) {
            (Phase::Init, Event::Driver(ok)) => (
                self.at(if ok { Phase::AwaitSettings } else { Phase::Stopped }),
                seq![Effect::DriverStarted],
            ),
            (Phase::AwaitSettings, Event::Settings(received)) => match received {
                Received::Got(s) => (self.reconfigured(s), nothing),
                Received::Nothing => (self, nothing),
                Received::Closed => (self.at(Phase::Stopped), nothing),
            },
            (Phase::Disable, Event::Done(outcome)) => (
                self.at(
                    if outcome is Ok { Phase::DisableReason } else { Phase::AwaitSettings },
                ),
                nothing,
            ),
            (Phase::DisableReason, Event::Reason(reason)) => (
                self.at(Phase::AwaitSettings),
                seq![disconnected(reason)],
            ),
            (Phase::Configure, Event::Done(outcome)) => (
                self.at(if outcome is Ok { Phase::Start } else { Phase::AwaitSettings }),
                nothing,
            ),
            (Phase::Start, Event::Done(outcome)) => (
                self.at(
                    match outcome {
                        Ok(_) => Phase::Connect,
                        Err(code) => Phase::StartFailed { code },
                    },
                ),
                nothing,
            ),
            (Phase::Connect, Event::Done(outcome)) => (
                self.at(
                    match outcome {
                        Ok(_) => Phase::ReadMac,
                        Err(code) => Phase::ConnectFailed { code },
                    },
                ),
                nothing,
            ),
            (Phase::ReadMac, Event::Mac(mac)) => (
                self.at(Phase::NetifWait),
                match mac {
                    Some(mac) => seq![Effect::Report(Report::Connected { interface: station, mac })],
                    None => nothing,
                },
            ),
            (Phase::NetifWait, Event::Done(outcome)) => (
                self.at(
                    match outcome {
                        Ok(_) => Phase::ReadIp,
                        Err(code) => Phase::NetifFailed { code },
                    },
                ),
                nothing,
            ),
            (Phase::StartFailed { code }, Event::Reason(reason)) => (
                self.at(Phase::Retry),
                seq![connect_error(state::resolved_code(code, reason))],
            ),
            (Phase::ConnectFailed { code }, Event::Reason(reason)) => (
                self.at(Phase::Retry),
                task::refusal_effects(code, reason),
            ),
            (Phase::NetifFailed { code }, Event::Reason(reason)) => (
                self.at(Phase::Retry),
                task::refusal_effects(code, reason),
            ),
            (Phase::ReadIp, Event::Ip(info)) => (
                self.at(Phase::FirstRssi),
                match info {
                    Some(info) => seq![Effect::Report(Report::GotIp { interface: station, info })],
                    None => nothing,
                },
            ),
            (Phase::FirstRssi, Event::Rssi(rssi)) => (
                self.at(Phase::MonitorSettings { rssi_at: now }),
                task::rssi_effects(rssi),
            ),
            (Phase::MonitorSettings { rssi_at }, Event::Settings(received)) => match received {
                Received::Got(s) => (self.reconfigured(s), nothing),
                Received::Nothing => (self.at(Phase::MonitorConnected { rssi_at }), nothing),
                Received::Closed => (self.at(Phase::Stopped), nothing),
            },
            (Phase::MonitorConnected { rssi_at }, Event::Flag(connected)) => (
                self.at(Phase::MonitorUp { rssi_at, connected: tasks::yes(connected) }),
                nothing,
            ),
            (Phase::MonitorUp { rssi_at, connected }, Event::Flag(up)) => (
                self.at(
                    if !connected || !tasks::yes(up) {
                        Phase::MonitorLost
                    } else if tasks::passed(rssi_at, now, RSSI_REPORT_PERIOD_MS as int) {
                        Phase::MonitorRssi
                    } else {
                        Phase::MonitorSleep { rssi_at }
                    },
                ),
                nothing,
            ),
            (Phase::MonitorRssi, Event::Rssi(rssi)) => (
                self.at(Phase::MonitorSleep { rssi_at: now }),
                task::rssi_effects(rssi),
            ),
            (Phase::MonitorSleep { rssi_at }, Event::Slept) => (
                self.at(Phase::MonitorSettings { rssi_at }),
                nothing,
            ),
            (Phase::MonitorLost, Event::Reason(reason)) => (
                self.at(Phase::Retry),
                seq![disconnected(reason)],
            ),
            (Phase::Retry, Event::Settings(received)) => match received {
                Received::Got(s) => (self.reconfigured(s), nothing),
                Received::Nothing => (self.configured(), nothing),
                Received::Closed => (self.at(Phase::Stopped), nothing),
            },
            _ => (self, nothing),
        }
    }

    /// A task that has done nothing yet.
    pub fn new() -> (task: StationTask)
        ensures
            task.phase == Phase::Init,
            task.consistent(),
            config::is_default_station(task.settings),
    {
        StationTask { phase: Phase::Init, settings: default_sta_settings() }
    }

    /// The call that the task makes next.
    pub fn action(&self) -> (action: Action)
        ensures
            action == self.pending(),
    {
        match self.phase {
            Phase::Init => Action::InitDriver,
            Phase::AwaitSettings => Action::WaitSettings,
            Phase::Disable => Action::StopRadio,
            Phase::DisableReason => Action::TakeReason,
            Phase::Configure => Action::Configure,
            Phase::Start => Action::StartRadio,
            Phase::StartFailed { .. } => Action::TakeReason,
            Phase::Connect => Action::Connect,
            Phase::ConnectFailed { .. } => Action::TakeReason,
            Phase::ReadMac => Action::ReadMac,
            Phase::NetifWait => Action::WaitNetifUp,
            Phase::NetifFailed { .. } => Action::TakeReason,
            Phase::ReadIp => Action::ReadIpInfo,
            Phase::FirstRssi => Action::ReadRssi,
            Phase::MonitorSettings { .. } => Action::PollSettings,
            Phase::MonitorConnected { .. } => Action::IsConnected,
            Phase::MonitorUp { .. } => Action::IsUp,
            Phase::MonitorRssi => Action::ReadRssi,
            Phase::MonitorSleep { .. } => Action::Sleep { millis: LINK_MONITOR_POLL_MS },
            Phase::MonitorLost => Action::TakeReason,
            Phase::Retry => Action::WaitSettingsFor { millis: retry_period(&self.settings) },
            Phase::Stopped => Action::Stop,
        }
    }

    fn configure(&mut self)
        ensures
            *final(self) == old(self).configured(),
    {
        self.phase = if !self.settings.enabled {
            Phase::Disable
        } else if build_client_configuration(&self.settings).is_err() {
            Phase::AwaitSettings
        } else {
            Phase::Configure
        };
    }

    fn reconfigure(&mut self, settings: WiFiStationSettings)
        ensures
            *final(self) == old(self).reconfigured(settings),
    {
        self.settings = settings;
        self.configure();
    }

    /// What the radio is configured to.
    pub fn configuration(&self) -> (r: Result<ClientConfiguration, InvalidArgument>)
        ensures
            r is Ok <==> task::station_configurable(self.settings),
            r matches Ok(cfg) ==> config::is_client_configuration(cfg, self.settings),
    {
        build_client_configuration(&self.settings)
    }

    /// Goes on after the outcome of the call that `action` asked for; `now` is the time of the
    /// outcome in milliseconds.
    #[verifier::rlimit(40)]
    pub fn step(&mut self, event: Event, now: u64) -> (effects: Vec<Effect>)
        ensures
            *final(self) == old(self).after(event, now).0,
            effects@ == old(self).after(event, now).1,
    {
        let station = InterfaceType::WiFiStation;
        match (self.phase, event) {
            (Phase::Init, Event::Driver(ok)) => {
                self.phase = if ok {
                    Phase::AwaitSettings
                } else {
                    Phase::Stopped
                };
                one_effect(Effect::DriverStarted)
            },
            (Phase::AwaitSettings, Event::Settings(received)) => {
                let next = match received {
                    Received::Got(s) => Some(s),
                    Received::Nothing => return no_effects(),
                    Received::Closed => None,
                };
                match recv_next_or_stop(next) {
                    Ok(s) => {
                        self.reconfigure(s);
                    },
                    Err(()) => {
                        self.phase = Phase::Stopped;
                    },
                }
                no_effects()
            },
            (Phase::Disable, Event::Done(outcome)) => {
                self.phase = match outcome {
                    Ok(()) => Phase::DisableReason,
                    Err(_) => Phase::AwaitSettings,
                };
                no_effects()
            },
            (Phase::DisableReason, Event::Reason(reason)) => {
                self.phase = Phase::AwaitSettings;
                one_effect(Effect::Report(Report::Disconnected { interface: station, reason }))
            },
            (Phase::Configure, Event::Done(outcome)) => {
                self.phase = match outcome {
                    Ok(()) => Phase::Start,
                    Err(_) => Phase::AwaitSettings,
                };
                no_effects()
            },
            (Phase::Start, Event::Done(outcome)) => {
                self.phase = match outcome {
                    Ok(()) => Phase::Connect,
                    Err(code) => Phase::StartFailed { code },
                };
                no_effects()
            },
            (Phase::Connect, Event::Done(outcome)) => {
                self.phase = match outcome {
                    Ok(()) => Phase::ReadMac,
                    Err(code) => Phase::ConnectFailed { code },
                };
                no_effects()
            },
            (Phase::ReadMac, Event::Mac(mac)) => {
                self.phase = Phase::NetifWait;
                match mac {
                    Some(mac) => one_effect(
                        Effect::Report(Report::Connected { interface: station, mac }),
                    ),
                    None => no_effects(),
                }
            },
            (Phase::NetifWait, Event::Done(outcome)) => {
                self.phase = match outcome {
                    Ok(()) => Phase::ReadIp,
                    Err(code) => Phase::NetifFailed { code },
                };
                no_effects()
            },
            (Phase::StartFailed { code }, Event::Reason(reason)) => {
                let mut reason = reason;
                let resolved: i32 = resolve_connect_error_code(code, &mut reason);
                self.phase = Phase::Retry;
                one_effect(
                    Effect::Report(Report::ConnectError { interface: station, code: resolved }),
                )
            },
            (Phase::ConnectFailed { code }, Event::Reason(reason)) => {
                self.phase = Phase::Retry;
                report_refusal(code, reason)
            },
            (Phase::NetifFailed { code }, Event::Reason(reason)) => {
                self.phase = Phase::Retry;
                report_refusal(code, reason)
            },
            (Phase::ReadIp, Event::Ip(info)) => {
                self.phase = Phase::FirstRssi;
                match info {
                    Some(info) => one_effect(
                        Effect::Report(Report::GotIp { interface: station, info }),
                    ),
                    None => no_effects(),
                }
            },
            (Phase::FirstRssi, Event::Rssi(rssi)) => {
                self.phase = Phase::MonitorSettings { rssi_at: now };
                report_rssi(rssi)
            },
            (Phase::MonitorSettings { rssi_at }, Event::Settings(received)) => {
                match received {
                    Received::Got(s) => {
                        self.reconfigure(s);
                    },
                    Received::Nothing => {
                        self.phase = Phase::MonitorConnected { rssi_at };
                    },
                    Received::Closed => {
                        self.phase = Phase::Stopped;
                    },
                }
                no_effects()
            },
            (Phase::MonitorConnected { rssi_at }, Event::Flag(connected)) => {
                self.phase = Phase::MonitorUp { rssi_at, connected: is_yes(connected) };
                no_effects()
            },
            (Phase::MonitorUp { rssi_at, connected }, Event::Flag(up)) => {
                self.phase = if !connected || !is_yes(up) {
                    Phase::MonitorLost
                } else if has_passed(rssi_at, now, RSSI_REPORT_PERIOD_MS) {
                    Phase::MonitorRssi
                } else {
                    Phase::MonitorSleep { rssi_at }
                };
                no_effects()
            },
            (Phase::MonitorRssi, Event::Rssi(rssi)) => {
                self.phase = Phase::MonitorSleep { rssi_at: now };
                report_rssi(rssi)
            },
            (Phase::MonitorSleep { rssi_at }, Event::Slept) => {
                self.phase = Phase::MonitorSettings { rssi_at };
                no_effects()
            },
            (Phase::MonitorLost, Event::Reason(reason)) => {
                self.phase = Phase::Retry;
                one_effect(Effect::Report(Report::Disconnected { interface: station, reason }))
            },
            (Phase::Retry, Event::Settings(received)) => {
                match received {
                    Received::Got(s) => {
                        self.reconfigure(s);
                    },
                    Received::Nothing => {
                        self.configure();
                    },
                    Received::Closed => {
                        self.phase = Phase::Stopped;
                    },
                }
                no_effects()
            },
            _ => no_effects(),
        }
    }
}

/// Whatever a call gives, the task stays consistent.
pub proof fn law_task_stays_consistent(t: StationTask, event: Event, now: u64)
    requires
        t.consistent(),
    ensures
        t.after(event, now).0.consistent(),
{
}

/// A task that has stopped does nothing more.
pub proof fn law_stop_is_final(t: StationTask, event: Event, now: u64)
    requires
        t.phase == Phase::Stopped,
    ensures
        t.after(event, now) == (t, Seq::<Effect>::empty()),
        t.pending() == Action::Stop,
{
}

/// The outcomes that belong to a call.
pub open spec fn answers(event: Event, action: Action) -> bool {
    match action {
        Action::InitDriver => event is Driver,
        Action::WaitSettings => event is Settings,
        Action::WaitSettingsFor { .. } => event is Settings,
        Action::PollSettings => event is Settings,
        Action::StopRadio => event is Done,
        Action::Configure => event is Done,
        Action::StartRadio => event is Done,
        Action::Connect => event is Done,
        Action::ReadMac => event is Mac,
        Action::WaitNetifUp => event is Done,
        Action::IsUp => event is Flag,
        Action::IsConnected => event is Flag,
        Action::ReadIpInfo => event is Ip,
        Action::ReadRssi => event is Rssi,
        Action::TakeReason => event is Reason,
        Action::Sleep { .. } => event is Slept,
        Action::Stop => false,
    }
}

/// An outcome that does not belong to the call changes nothing. One that does moves the task on,
/// except that a wait for settings goes on when none have come.
pub proof fn law_outcome_belongs_to_call(t: StationTask, event: Event, now: u64)
    ensures
        !answers(event, t.pending()) ==> t.after(event, now) == (t, Seq::<Effect>::empty()),
        answers(event, t.pending()) ==> t.after(event, now).0.phase != t.phase || t.phase
            == Phase::AwaitSettings,
{
}

/// Every attempt that fails is reported with the disconnect reason if there is one, else with the
/// platform's code, and is tried again after the reconnect period. A network that refused the
/// station, which it does with a reason, is reported as a disconnect too.
pub proof fn law_failure_is_reported(t: StationTask, code: i32, reason: i32, now: u64)
    requires
        t.phase == Phase::Start || t.phase == Phase::Connect || t.phase == Phase::NetifWait,
    ensures
        ({
            let failed = t.after(Event::Done(Err(code)), now);
            let told = failed.0.after(Event::Reason(reason), now);
            &&& failed.1 + told.1 =~= seq![connect_error(if reason != 0 { reason } else { code })]
                + if reason != 0 && t.phase != Phase::Start {
                seq![disconnected(reason)]
            } else {
                Seq::empty()
            }
            &&& told.0 == t.at(Phase::Retry)
            &&& told.0.pending() == (Action::WaitSettingsFor {
                millis: task::retry_millis(t.settings) as u64,
            })
        }),
{
}

} // verus!
