//! The Wi-Fi task: which call on the driver comes next, given the outcome of the last one.

use vstd::prelude::*;

use crate::master::messages::interface_settings::{
    InterfaceType, WiFiAccessPointSettings, WiFiStationSettings,
};
use crate::network::addressing::{IpInfo, ESP_ERR_INVALID_ARG};
use crate::network::ipv4::InvalidArgument;
use crate::network::report::Report;
use crate::network::tasks;
use crate::network::tasks::{
    has_passed, is_yes, no_effects, one_effect, two_effects, Effect, Received,
};
use crate::network::wifi::config;
use crate::network::wifi::config::{
    build_ap_configuration, build_client_configuration, compose_wifi_mode_configuration,
    default_ap_settings, default_sta_settings, Configuration,
};
use crate::network::wifi::state;
use crate::network::wifi::state::{recv_next_or_stop, resolve_connect_error_code};

verus! {

/// Milliseconds between two looks at a queue.
pub const POLL_MS: u64 = 250;

/// Milliseconds between two looks at a link that is up.
pub const LINK_MONITOR_POLL_MS: u64 = 1000;

/// Milliseconds between two reports of the signal strength.
pub const RSSI_REPORT_PERIOD_MS: u64 = 20_000;

/// Milliseconds that the station's interface has to come up.
pub const NETIF_UP_TIMEOUT_MS: u64 = 15_000;

/// The code of a station that did not come up in time.
pub const TIMEOUT_CODE: i32 = 39;

/// Where the task stands: each phase waits for the outcome of one call.
#[derive(Debug, Clone, Copy, PartialEq, Eq, Structural)]
pub enum Phase {
    /// The driver is being started.
    Init,
    /// Nothing to do until the station is configured.
    AwaitStation,
    AwaitStationScans,
    /// Taking the latest access point settings before the radio is configured.
    DrainAp,
    /// Station and access point are both disabled.
    DisableScans,
    DisableStop,
    DisableReason,
    /// The settings cannot be used; only new ones help.
    AwaitReplacement,
    /// Bringing the radio down before it is configured anew.
    CheckStarted,
    StopForReconfigure,
    Configure,
    ApplyStationIp,
    ApplyApIp,
    Start,
    StartFailed { code: i32 },
    /// The access point runs alone.
    ApOnlyScans,
    ApOnlyStation,
    ApOnlyAp,
    ApOnlySleep,
    /// The station looks for its network.
    Connect,
    ConnectFailed { code: i32 },
    ReadMac,
    /// Waiting for the station's interface to come up.
    NetifUp { since: u64 },
    NetifConnected { since: u64 },
    NetifSleep { since: u64 },
    NetifLost,
    /// The station is up.
    ReadIp,
    FirstRssi,
    /// Watching the station's link; its signal was read at `rssi_at`.
    MonitorScans { rssi_at: u64 },
    MonitorAp { rssi_at: u64 },
    MonitorStation { rssi_at: u64 },
    MonitorConnected { rssi_at: u64 },
    MonitorUp { rssi_at: u64, connected: bool },
    MonitorRssi,
    MonitorSleep { rssi_at: u64 },
    MonitorLost,
    /// Waiting out the reconnect period, which began at `since`.
    RetryScans { since: u64 },
    RetryStation { since: u64 },
    RetryAp { since: u64 },
    RetrySleep { since: u64 },
    /// The task is over.
    Stopped,
}

/// The call that the task makes next.
#[derive(Debug, Clone, Copy, PartialEq, Eq, Structural)]
pub enum Action {
    /// Start the driver.
    InitDriver,
    /// Wait for station settings.
    WaitStation { millis: u64 },
    /// Look for station settings.
    PollStation,
    /// Look for access point settings.
    PollAp,
    /// Scan for every request that has come, and answer it.
    ServeScans,
    StopRadio,
    IsStarted,
    /// Configure the radio as `WifiTask::configuration` says.
    Configure,
    /// Give the station its address, by `apply_sta_ip_settings` of its settings.
    ApplyStationIp,
    /// Give the access point its address, by `apply_ap_ip_settings` of its settings.
    ApplyApIp,
    StartRadio,
    Connect,
    ReadMac,
    IsUp,
    IsConnected,
    ReadIpInfo,
    ReadRssi,
    /// Take the reason of the last disconnect, leaving 0 in its place.
    TakeReason,
    Sleep { millis: u64 },
    /// The task is over.
    Stop,
}

impl Action {
    /// Whether the task is under the watchdog during the call: joining a network may take
    /// longer than the watchdog allows, and a task that is over is not fed any more.
    pub open spec fn under_watch(self) -> bool {
        self !is Connect && self !is Stop
    }

    pub fn watched(self) -> (r: bool)
        ensures
            r == self.under_watch(),
    {
        match self {
            Action::Connect => false,
            Action::Stop => false,
            _ => true,
        }
    }
}

/// The outcome of a call.
#[derive(Debug)]
pub enum Event {
    /// Whether the driver was started.
    Driver(bool),
    Station(Received<WiFiStationSettings>),
    Ap(Received<WiFiAccessPointSettings>),
    Scanned,
    /// Success, or the platform's code.
    Done(Result<(), i32>),
    /// The answer to a question; none if asking failed.
    Flag(Option<bool>),
    Mac(Option<[u8; 6]>),
    Ip(Option<IpInfo>),
    Rssi(Option<i32>),
    /// The reason of the last disconnect; 0 if there is none.
    Reason(i32),
    Slept,
}

/// The Wi-Fi task.
pub struct WifiTask {
    pub phase: Phase,
    pub station: WiFiStationSettings,
    pub ap: WiFiAccessPointSettings,
    /// Whether the station counts among the interfaces with a link.
    pub link_registered: bool,
}

impl Phase {
    /// The call whose outcome the phase waits for.
    pub open spec fn action(self) -> Action {
        match self {
            Phase::Init => Action::InitDriver,
            Phase::AwaitStation => Action::WaitStation { millis: POLL_MS },
            Phase::AwaitStationScans => Action::ServeScans,
            Phase::DrainAp => Action::PollAp,
            Phase::DisableScans => Action::ServeScans,
            Phase::DisableStop => Action::StopRadio,
            Phase::DisableReason => Action::TakeReason,
            Phase::AwaitReplacement => Action::WaitStation { millis: POLL_MS },
            Phase::CheckStarted => Action::IsStarted,
            Phase::StopForReconfigure => Action::StopRadio,
            Phase::Configure => Action::Configure,
            Phase::ApplyStationIp => Action::ApplyStationIp,
            Phase::ApplyApIp => Action::ApplyApIp,
            Phase::Start => Action::StartRadio,
            Phase::StartFailed { .. } => Action::TakeReason,
            Phase::ApOnlyScans => Action::ServeScans,
            Phase::ApOnlyStation => Action::PollStation,
            Phase::ApOnlyAp => Action::PollAp,
            Phase::ApOnlySleep => Action::Sleep { millis: POLL_MS },
            Phase::Connect => Action::Connect,
            Phase::ConnectFailed { .. } => Action::TakeReason,
            Phase::ReadMac => Action::ReadMac,
            Phase::NetifUp { .. } => Action::IsUp,
            Phase::NetifConnected { .. } => Action::IsConnected,
            Phase::NetifSleep { .. } => Action::Sleep { millis: POLL_MS },
            Phase::NetifLost => Action::TakeReason,
            Phase::ReadIp => Action::ReadIpInfo,
            Phase::FirstRssi => Action::ReadRssi,
            Phase::MonitorScans { .. } => Action::ServeScans,
            Phase::MonitorAp { .. } => Action::PollAp,
            Phase::MonitorStation { .. } => Action::PollStation,
            Phase::MonitorConnected { .. } => Action::IsConnected,
            Phase::MonitorUp { .. } => Action::IsUp,
            Phase::MonitorRssi => Action::ReadRssi,
            Phase::MonitorSleep { .. } => Action::Sleep { millis: LINK_MONITOR_POLL_MS },
            Phase::MonitorLost => Action::TakeReason,
            Phase::RetryScans { .. } => Action::ServeScans,
            Phase::RetryStation { .. } => Action::PollStation,
            Phase::RetryAp { .. } => Action::PollAp,
            Phase::RetrySleep { .. } => Action::Sleep { millis: POLL_MS },
            Phase::Stopped => Action::Stop,
        }
    }

    /// The phases in which the station has a link.
    pub open spec fn linked(self) -> bool {
        match self {
            Phase::ReadIp => true,
            Phase::FirstRssi => true,
            Phase::MonitorScans { .. } => true,
            Phase::MonitorAp { .. } => true,
            Phase::MonitorStation { .. } => true,
            Phase::MonitorConnected { .. } => true,
            Phase::MonitorUp { .. } => true,
            Phase::MonitorRssi => true,
            Phase::MonitorSleep { .. } => true,
            Phase::MonitorLost => true,
            _ => false,
        }
    }
}

impl Phase {
    /// The phases in which the access point runs alone.
    pub open spec fn ap_only(self) -> bool {
        match self {
            Phase::ApOnlyScans => true,
            Phase::ApOnlyStation => true,
            Phase::ApOnlyAp => true,
            Phase::ApOnlySleep => true,
            _ => false,
        }
    }

    /// The phases in which the station looks for its network, or has found it.
    pub open spec fn station_active(self) -> bool {
        ||| self.linked()
        ||| match self {
            Phase::Connect => true,
            Phase::ConnectFailed { .. } => true,
            Phase::ReadMac => true,
            Phase::NetifUp { .. } => true,
            Phase::NetifConnected { .. } => true,
            Phase::NetifSleep { .. } => true,
            Phase::NetifLost => true,
            _ => false,
        }
    }

    /// The phases in which the radio is brought up, or runs.
    pub open spec fn radio_active(self) -> bool {
        ||| self.ap_only()
        ||| self.station_active()
        ||| match self {
            Phase::CheckStarted => true,
            Phase::StopForReconfigure => true,
            Phase::Configure => true,
            Phase::ApplyStationIp => true,
            Phase::ApplyApIp => true,
            Phase::Start => true,
            Phase::StartFailed { .. } => true,
            _ => false,
        }
    }
}

/// Whether the radio takes the station's settings.
pub open spec fn station_configurable(s: WiFiStationSettings) -> bool {
    config::ssid_fits(s.ssid@) && config::password_fits(s.password@)
}

/// The reconnect period in milliseconds, kept between a second and ten minutes.
pub open spec fn retry_millis(s: WiFiStationSettings) -> int {
    let secs: int = if s.reconnect_period < 1 {
        1
    } else if s.reconnect_period > 600 {
        600
    } else {
        s.reconnect_period as int
    };
    1000 * secs
}

impl WifiTask {
    /// The station counts as linked exactly while it has a link, and nothing is brought up that
    /// the settings do not ask for.
    pub open spec fn consistent(self) -> bool {
        &&& self.link_registered == self.phase.linked()
        &&& self.phase.radio_active() ==> {
            &&& self.station.enabled || self.ap.enabled
            &&& station_configurable(self.station)
            &&& config::ap_configurable(self.ap)
        }
        &&& self.phase.station_active() ==> self.station.enabled
        &&& self.phase.ap_only() ==> !self.station.enabled
    }

    /// The task in another phase.
    pub open spec fn at(self, phase: Phase) -> WifiTask {
        WifiTask { phase, ..self }
    }

    /// The task with other station settings, about to configure the radio.
    pub open spec fn with_station(self, station: WiFiStationSettings) -> WifiTask {
        WifiTask { phase: Phase::DrainAp, station, ..self }
    }

    /// The task with other access point settings, about to configure the radio.
    pub open spec fn with_ap(self, ap: WiFiAccessPointSettings) -> WifiTask {
        WifiTask { phase: Phase::DrainAp, ap, ..self }
    }

    /// The task without a link.
    pub open spec fn without_link(self) -> WifiTask {
        WifiTask { link_registered: false, ..self }
    }

    /// What giving up the link does on the side.
    pub open spec fn unlink_effects(self) -> Seq<Effect> {
        if self.link_registered {
            seq![Effect::LinkDown]
        } else {
            Seq::empty()
        }
    }

    /// What comes once the latest access point settings are known.
    pub open spec fn configured(self) -> (WifiTask, Seq<Effect>) {
        if !self.station.enabled && !self.ap.enabled {
            (self.at(Phase::DisableScans), Seq::empty())
        } else if !station_configurable(self.station) {
            (self.at(Phase::AwaitReplacement), Seq::empty())
        } else if !config::ap_configurable(self.ap) {
            (
                self.at(Phase::AwaitReplacement),
                seq![Effect::Report(Report::ApStartError(ESP_ERR_INVALID_ARG))],
            )
        } else {
            (self.at(Phase::CheckStarted), Seq::empty())
        }
    }

    /// What comes after the outcome of a call, and what is done on the side. An outcome that
    /// does not belong to the call changes nothing.
    pub open spec fn after(self, event: Event, now: u64) -> (WifiTask, Seq<Effect>) {
        let nothing = Seq::<Effect>::empty();
        let station = InterfaceType::WiFiStation;
        match (self.phase, event) {
            (Phase::Init, Event::Driver(ok)) => (
                self.at(if ok { Phase::AwaitStation } else { Phase::Stopped }),
                seq![Effect::DriverStarted],
            ),
            (Phase::AwaitStation, Event::Station(received)) => match received {
                Received::Got(s) => (self.with_station(s), nothing),
                Received::Nothing => (self.at(Phase::AwaitStationScans), nothing),
                Received::Closed => (self.at(Phase::Stopped), nothing),
            },
            (Phase::AwaitStationScans, Event::Scanned) => (self.at(Phase::AwaitStation), nothing),
            (Phase::DrainAp, Event::Ap(received)) => match received {
                Received::Got(ap) => (self.with_ap(ap), nothing),
                _ => self.configured(),
            },
            (Phase::DisableScans, Event::Scanned) => (
                self.without_link().at(Phase::DisableStop),
                self.unlink_effects() + seq![Effect::ResetTcp],
            ),
            (Phase::DisableStop, Event::Done(outcome)) => (
                self.at(
                    if outcome is Ok { Phase::DisableReason } else { Phase::AwaitStation },
                ),
                nothing,
            ),
            (Phase::DisableReason, Event::Reason(reason)) => (
                self.at(Phase::AwaitStation),
                seq![Effect::Report(Report::Disconnected { interface: station, reason })],
            ),
            (Phase::AwaitReplacement, Event::Station(received)) => match received {
                Received::Got(s) => (self.with_station(s), nothing),
                Received::Nothing => (self, nothing),
                Received::Closed => (self.at(Phase::Stopped), nothing),
            },
            (Phase::CheckStarted, Event::Flag(started)) => if tasks::yes(started) {
                (self.at(Phase::StopForReconfigure), seq![Effect::ResetTcp])
            } else {
                (self.at(Phase::Configure), nothing)
            },
            (Phase::StopForReconfigure, Event::Done(_)) => (self.at(Phase::Configure), nothing),
            (Phase::Configure, Event::Done(outcome)) => (
                self.at(
                    if outcome is Ok { Phase::ApplyStationIp } else { Phase::AwaitReplacement },
                ),
                nothing,
            ),
            (Phase::ApplyStationIp, Event::Done(outcome)) => match outcome {
                Ok(_) => (self.at(Phase::ApplyApIp), nothing),
                Err(code) => (
                    self.at(Phase::AwaitReplacement),
                    seq![Effect::Report(Report::ConnectError { interface: station, code })],
                ),
            },
            (Phase::ApplyApIp, Event::Done(outcome)) => match outcome {
                Ok(_) => (self.at(Phase::Start), nothing),
                Err(code) => (
                    self.at(Phase::AwaitReplacement),
                    seq![Effect::Report(Report::ApStartError(code))],
                ),
            },
            (Phase::Start, Event::Done(outcome)) => match outcome {
                Ok(_) => (
                    self.at(
                        if self.station.enabled { Phase::Connect } else { Phase::ApOnlyScans },
                    ),
                    if self.ap.enabled {
                        seq![Effect::Report(Report::ApStarted)]
                    } else {
                        nothing
                    },
                ),
                Err(code) => (self.at(Phase::StartFailed { code }), nothing),
            },
            (Phase::StartFailed { code }, Event::Reason(reason)) => (
                self.at(Phase::RetryScans { since: now }),
                seq![
                    Effect::Report(
                        Report::ConnectError {
                            interface: station,
                            code: state::resolved_code(code, reason),
                        },
                    ),
                ] + if self.ap.enabled {
                    seq![Effect::Report(Report::ApStartError(code))]
                } else {
                    nothing
                },
            ),
            (Phase::ApOnlyScans, Event::Scanned) => (self.at(Phase::ApOnlyStation), nothing),
            (Phase::ApOnlyStation, Event::Station(received)) => match received {
                Received::Got(s) => (self.with_station(s), nothing),
                _ => (self.at(Phase::ApOnlyAp), nothing),
            },
            (Phase::ApOnlyAp, Event::Ap(received)) => match received {
                Received::Got(ap) => (self.with_ap(ap), nothing),
                _ => (self.at(Phase::ApOnlySleep), nothing),
            },
            (Phase::ApOnlySleep, Event::Slept) => (self.at(Phase::ApOnlyScans), nothing),
            (Phase::Connect, Event::Done(outcome)) => match outcome {
                Ok(_) => (self.at(Phase::ReadMac), nothing),
                Err(code) => (self.at(Phase::ConnectFailed { code }), nothing),
            },
            (Phase::ConnectFailed { code }, Event::Reason(reason)) => (
                self.at(Phase::RetryScans { since: now }),
                refusal_effects(code, reason),
            ),
            (Phase::ReadMac, Event::Mac(mac)) => (
                self.at(Phase::NetifUp { since: now }),
                match mac {
                    Some(mac) => seq![Effect::Report(Report::Connected { interface: station, mac })],
                    None => nothing,
                },
            ),
            (Phase::NetifUp { since }, Event::Flag(up)) => if tasks::yes(up) {
                (
                    WifiTask { phase: Phase::ReadIp, link_registered: true, ..self },
                    if self.link_registered {
                        nothing
                    } else {
                        seq![Effect::LinkUp]
                    },
                )
            } else {
                (self.at(Phase::NetifConnected { since }), nothing)
            },
            (Phase::NetifConnected { since }, Event::Flag(connected)) => if !tasks::yes(connected) {
                (self.at(Phase::NetifLost), nothing)
            } else if tasks::passed(since, now, NETIF_UP_TIMEOUT_MS as int) {
                (
                    self.at(Phase::RetryScans { since: now }),
                    seq![
                        Effect::Report(
                            Report::ConnectError { interface: station, code: TIMEOUT_CODE },
                        ),
                    ],
                )
            } else {
                (self.at(Phase::NetifSleep { since }), nothing)
            },
            (Phase::NetifSleep { since }, Event::Slept) => (
                self.at(Phase::NetifUp { since }),
                nothing,
            ),
            (Phase::NetifLost, Event::Reason(reason)) => (
                self.at(Phase::RetryScans { since: now }),
                seq![
                    Effect::Report(
                        Report::ConnectError {
                            interface: station,
                            code: state::resolved_code(TIMEOUT_CODE, reason),
                        },
                    ),
                    Effect::Report(Report::Disconnected { interface: station, reason }),
                ],
            ),
            (Phase::ReadIp, Event::Ip(info)) => (
                self.at(Phase::FirstRssi),
                match info {
                    Some(info) => seq![Effect::Report(Report::GotIp { interface: station, info })],
                    None => nothing,
                },
            ),
            (Phase::FirstRssi, Event::Rssi(rssi)) => (
                self.at(Phase::MonitorScans { rssi_at: now }),
                rssi_effects(rssi),
            ),
            (Phase::MonitorScans { rssi_at }, Event::Scanned) => (
                self.at(Phase::MonitorAp { rssi_at }),
                nothing,
            ),
            (Phase::MonitorAp { rssi_at }, Event::Ap(received)) => match received {
                Received::Got(ap) => (self.without_link().with_ap(ap), self.unlink_effects()),
                Received::Nothing => (self.at(Phase::MonitorStation { rssi_at }), nothing),
                Received::Closed => (
                    self.without_link().at(Phase::Stopped),
                    self.unlink_effects(),
                ),
            },
            (Phase::MonitorStation { rssi_at }, Event::Station(received)) => match received {
                Received::Got(s) => (self.without_link().with_station(s), self.unlink_effects()),
                Received::Nothing => (self.at(Phase::MonitorConnected { rssi_at }), nothing),
                Received::Closed => (
                    self.without_link().at(Phase::Stopped),
                    self.unlink_effects(),
                ),
            },
            (Phase::MonitorConnected { rssi_at }, Event::Flag(connected)) => (
                self.at(Phase::MonitorUp { rssi_at, connected: tasks::yes(connected) }),
                nothing,
            ),
            (Phase::MonitorUp { rssi_at, connected }, Event::Flag(up)) => if !connected
                || !tasks::yes(up) {
                (self.at(Phase::MonitorLost), nothing)
            } else if tasks::passed(rssi_at, now, RSSI_REPORT_PERIOD_MS as int) {
                (self.at(Phase::MonitorRssi), nothing)
            } else {
                (self.at(Phase::MonitorSleep { rssi_at }), nothing)
            },
            (Phase::MonitorRssi, Event::Rssi(rssi)) => (
                self.at(Phase::MonitorSleep { rssi_at: now }),
                rssi_effects(rssi),
            ),
            (Phase::MonitorSleep { rssi_at }, Event::Slept) => (
                self.at(Phase::MonitorScans { rssi_at }),
                nothing,
            ),
            (Phase::MonitorLost, Event::Reason(reason)) => (
                self.without_link().at(Phase::RetryScans { since: now }),
                seq![Effect::Report(Report::Disconnected { interface: station, reason })]
                    + self.unlink_effects(),
            ),
            (Phase::RetryScans { since }, Event::Scanned) => (
                self.at(Phase::RetryStation { since }),
                nothing,
            ),
            (Phase::RetryStation { since }, Event::Station(received)) => match received {
                Received::Got(s) => (self.with_station(s), nothing),
                Received::Nothing => (self.at(Phase::RetryAp { since }), nothing),
                Received::Closed => (
                    self.without_link().at(Phase::Stopped),
                    self.unlink_effects(),
                ),
            },
            (Phase::RetryAp { since }, Event::Ap(received)) => match received {
                Received::Got(ap) => (self.with_ap(ap), nothing),
                _ => if tasks::passed(since, now, retry_millis(self.station)) {
                    (self.at(Phase::DrainAp), nothing)
                } else {
                    (self.at(Phase::RetrySleep { since }), nothing)
                },
            },
            (Phase::RetrySleep { since }, Event::Slept) => (
                self.at(Phase::RetryScans { since }),
                nothing,
            ),
            _ => (self, nothing),
        }
    }

    /// A task that has done nothing yet.
    pub fn new() -> (task: WifiTask)
        ensures
            task.phase == Phase::Init,
            task.consistent(),
            !task.link_registered,
            config::is_default_station(task.station),
            config::is_default_ap(task.ap),
    {
        WifiTask {
            phase: Phase::Init,
            station: default_sta_settings(),
            ap: default_ap_settings(),
            link_registered: false,
        }
    }

    /// The call that the task makes next.
    pub fn action(&self) -> (action: Action)
        ensures
            action == self.phase.action(),
    {
        match self.phase {
            Phase::Init => Action::InitDriver,
            Phase::AwaitStation => Action::WaitStation { millis: POLL_MS },
            Phase::AwaitStationScans => Action::ServeScans,
            Phase::DrainAp => Action::PollAp,
            Phase::DisableScans => Action::ServeScans,
            Phase::DisableStop => Action::StopRadio,
            Phase::DisableReason => Action::TakeReason,
            Phase::AwaitReplacement => Action::WaitStation { millis: POLL_MS },
            Phase::CheckStarted => Action::IsStarted,
            Phase::StopForReconfigure => Action::StopRadio,
            Phase::Configure => Action::Configure,
            Phase::ApplyStationIp => Action::ApplyStationIp,
            Phase::ApplyApIp => Action::ApplyApIp,
            Phase::Start => Action::StartRadio,
            Phase::StartFailed { .. } => Action::TakeReason,
            Phase::ApOnlyScans => Action::ServeScans,
            Phase::ApOnlyStation => Action::PollStation,
            Phase::ApOnlyAp => Action::PollAp,
            Phase::ApOnlySleep => Action::Sleep { millis: POLL_MS },
            Phase::Connect => Action::Connect,
            Phase::ConnectFailed { .. } => Action::TakeReason,
            Phase::ReadMac => Action::ReadMac,
            Phase::NetifUp { .. } => Action::IsUp,
            Phase::NetifConnected { .. } => Action::IsConnected,
            Phase::NetifSleep { .. } => Action::Sleep { millis: POLL_MS },
            Phase::NetifLost => Action::TakeReason,
            Phase::ReadIp => Action::ReadIpInfo,
            Phase::FirstRssi => Action::ReadRssi,
            Phase::MonitorScans { .. } => Action::ServeScans,
            Phase::MonitorAp { .. } => Action::PollAp,
            Phase::MonitorStation { .. } => Action::PollStation,
            Phase::MonitorConnected { .. } => Action::IsConnected,
            Phase::MonitorUp { .. } => Action::IsUp,
            Phase::MonitorRssi => Action::ReadRssi,
            Phase::MonitorSleep { .. } => Action::Sleep { millis: LINK_MONITOR_POLL_MS },
            Phase::MonitorLost => Action::TakeReason,
            Phase::RetryScans { .. } => Action::ServeScans,
            Phase::RetryStation { .. } => Action::PollStation,
            Phase::RetryAp { .. } => Action::PollAp,
            Phase::RetrySleep { .. } => Action::Sleep { millis: POLL_MS },
            Phase::Stopped => Action::Stop,
        }
    }

    fn unlink(&mut self) -> (effects: Vec<Effect>)
        ensures
            *final(self) == old(self).without_link(),
            effects@ == old(self).unlink_effects(),
    {
        if self.link_registered {
            self.link_registered = false;
            one_effect(Effect::LinkDown)
        } else {
            no_effects()
        }
    }

    fn configure(&mut self) -> (effects: Vec<Effect>)
        ensures
            *final(self) == old(self).configured().0,
            effects@ == old(self).configured().1,
    {
        if !self.station.enabled && !self.ap.enabled {
            self.phase = Phase::DisableScans;
            return no_effects();
        }
        if build_client_configuration(&self.station).is_err() {
            self.phase = Phase::AwaitReplacement;
            return no_effects();
        }
        if build_ap_configuration(&self.ap).is_err() {
            self.phase = Phase::AwaitReplacement;
            return one_effect(Effect::Report(Report::ApStartError(ESP_ERR_INVALID_ARG)));
        }
        self.phase = Phase::CheckStarted;
        no_effects()
    }
}

/// What is reported of a station that could not connect: the error and, if its network gave a
/// reason, the disconnect.
pub open spec fn refusal_effects(code: i32, reason: i32) -> Seq<Effect> {
    let interface = InterfaceType::WiFiStation;
    let error = Effect::Report(
        Report::ConnectError { interface, code: state::resolved_code(code, reason) },
    );
    if reason != 0 {
        seq![error, Effect::Report(Report::Disconnected { interface, reason })]
    } else {
        seq![error]
    }
}

pub(crate) fn report_refusal(code: i32, reason: i32) -> (effects: Vec<Effect>)
    ensures
        effects@ == refusal_effects(code, reason),
{
    let interface = InterfaceType::WiFiStation;
    let mut taken = reason;
    let resolved: i32 = resolve_connect_error_code(code, &mut taken);
    let error = Effect::Report(Report::ConnectError { interface, code: resolved });
    if reason != 0 {
        two_effects(error, Effect::Report(Report::Disconnected { interface, reason }))
    } else {
        one_effect(error)
    }
}

/// The signal strength is reported if it could be read.
pub open spec fn rssi_effects(rssi: Option<i32>) -> Seq<Effect> {
    match rssi {
        Some(rssi) => seq![Effect::Report(Report::Rssi(rssi))],
        None => Seq::empty(),
    }
}

pub(crate) fn report_rssi(rssi: Option<i32>) -> (effects: Vec<Effect>)
    ensures
        effects@ == rssi_effects(rssi),
{
    match rssi {
        Some(rssi) => one_effect(Effect::Report(Report::Rssi(rssi))),
        None => no_effects(),
    }
}

pub(crate) fn retry_period(s: &WiFiStationSettings) -> (millis: u64)
    ensures
        millis == retry_millis(*s),
{
    let secs: u16 = if s.reconnect_period < 1 {
        1
    } else if s.reconnect_period > 600 {
        600
    } else {
        s.reconnect_period
    };
    1000 * (secs as u64)
}

impl WifiTask {
    /// Goes on after the outcome of the call that `action` asked for; `now` is the time of the
    /// outcome in milliseconds.
    #[verifier::rlimit(60)]
    pub fn step(&mut self, event: Event, now: u64) -> (effects: Vec<Effect>)
        ensures
            *final(self) == old(self).after(event, now).0,
            effects@ == old(self).after(event, now).1,
    {
        let station = InterfaceType::WiFiStation;
        match (self.phase, event) {
            (Phase::Init, Event::Driver(ok)) => {
                self.phase = if ok {
                    Phase::AwaitStation
                } else {
                    Phase::Stopped
                };
                one_effect(Effect::DriverStarted)
            },
            (Phase::AwaitStation, Event::Station(received)) => {
                match received {
                    Received::Got(s) => {
                        self.station = s;
                        self.phase = Phase::DrainAp;
                    },
                    Received::Nothing => {
                        self.phase = Phase::AwaitStationScans;
                    },
                    Received::Closed => {
                        self.phase = Phase::Stopped;
                    },
                }
                no_effects()
            },
            (Phase::AwaitStationScans, Event::Scanned) => {
                self.phase = Phase::AwaitStation;
                no_effects()
            },
            (Phase::DrainAp, Event::Ap(received)) => match received {
                Received::Got(ap) => {
                    self.ap = ap;
                    no_effects()
                },
                _ => self.configure(),
            },
            (Phase::DisableScans, Event::Scanned) => {
                let mut effects = self.unlink();
                effects.push(Effect::ResetTcp);
                self.phase = Phase::DisableStop;
                effects
            },
            (Phase::DisableStop, Event::Done(outcome)) => {
                self.phase = match outcome {
                    Ok(()) => Phase::DisableReason,
                    Err(_) => Phase::AwaitStation,
                };
                no_effects()
            },
            (Phase::DisableReason, Event::Reason(reason)) => {
                self.phase = Phase::AwaitStation;
                one_effect(Effect::Report(Report::Disconnected { interface: station, reason }))
            },
            (Phase::AwaitReplacement, Event::Station(received)) => {
                let next = match received {
                    Received::Got(s) => Some(s),
                    Received::Nothing => return no_effects(),
                    Received::Closed => None,
                };
                match recv_next_or_stop(next) {
                    Ok(s) => {
                        self.station = s;
                        self.phase = Phase::DrainAp;
                    },
                    Err(()) => {
                        self.phase = Phase::Stopped;
                    },
                }
                no_effects()
            },
            (Phase::CheckStarted, Event::Flag(started)) => {
                if is_yes(started) {
                    self.phase = Phase::StopForReconfigure;
                    one_effect(Effect::ResetTcp)
                } else {
                    self.phase = Phase::Configure;
                    no_effects()
                }
            },
            (Phase::StopForReconfigure, Event::Done(_)) => {
                self.phase = Phase::Configure;
                no_effects()
            },
            (Phase::Configure, Event::Done(outcome)) => {
                self.phase = match outcome {
                    Ok(()) => Phase::ApplyStationIp,
                    Err(_) => Phase::AwaitReplacement,
                };
                no_effects()
            },
            (Phase::ApplyStationIp, Event::Done(outcome)) => match outcome {
                Ok(()) => {
                    self.phase = Phase::ApplyApIp;
                    no_effects()
                },
                Err(code) => {
                    self.phase = Phase::AwaitReplacement;
                    one_effect(Effect::Report(Report::ConnectError { interface: station, code }))
                },
            },
            (Phase::ApplyApIp, Event::Done(outcome)) => match outcome {
                Ok(()) => {
                    self.phase = Phase::Start;
                    no_effects()
                },
                Err(code) => {
                    self.phase = Phase::AwaitReplacement;
                    one_effect(Effect::Report(Report::ApStartError(code)))
                },
            },
            (Phase::Start, Event::Done(outcome)) => match outcome {
                Ok(()) => {
                    self.phase = if self.station.enabled {
                        Phase::Connect
                    } else {
                        Phase::ApOnlyScans
                    };
                    if self.ap.enabled {
                        one_effect(Effect::Report(Report::ApStarted))
                    } else {
                        no_effects()
                    }
                },
                Err(code) => {
                    self.phase = Phase::StartFailed { code };
                    no_effects()
                },
            },
            (Phase::StartFailed { code }, Event::Reason(reason)) => {
                let mut reason = reason;
                let resolved: i32 = resolve_connect_error_code(code, &mut reason);
                self.phase = Phase::RetryScans { since: now };
                let mut effects = one_effect(
                    Effect::Report(Report::ConnectError { interface: station, code: resolved }),
                );
                if self.ap.enabled {
                    effects.push(Effect::Report(Report::ApStartError(code)));
                }
                effects
            },
            (Phase::ApOnlyScans, Event::Scanned) => {
                self.phase = Phase::ApOnlyStation;
                no_effects()
            },
            (Phase::ApOnlyStation, Event::Station(received)) => {
                match received {
                    Received::Got(s) => {
                        self.station = s;
                        self.phase = Phase::DrainAp;
                    },
                    _ => {
                        self.phase = Phase::ApOnlyAp;
                    },
                }
                no_effects()
            },
            (Phase::ApOnlyAp, Event::Ap(received)) => {
                match received {
                    Received::Got(ap) => {
                        self.ap = ap;
                        self.phase = Phase::DrainAp;
                    },
                    _ => {
                        self.phase = Phase::ApOnlySleep;
                    },
                }
                no_effects()
            },
            (Phase::ApOnlySleep, Event::Slept) => {
                self.phase = Phase::ApOnlyScans;
                no_effects()
            },
            (Phase::Connect, Event::Done(outcome)) => {
                self.phase = match outcome {
                    Ok(()) => Phase::ReadMac,
                    Err(code) => Phase::ConnectFailed { code },
                };
                no_effects()
            },
            (Phase::ConnectFailed { code }, Event::Reason(reason)) => {
                self.phase = Phase::RetryScans { since: now };
                report_refusal(code, reason)
            },
            (Phase::ReadMac, Event::Mac(mac)) => {
                self.phase = Phase::NetifUp { since: now };
                match mac {
                    Some(mac) => one_effect(
                        Effect::Report(Report::Connected { interface: station, mac }),
                    ),
                    None => no_effects(),
                }
            },
            (Phase::NetifUp { since }, Event::Flag(up)) => {
                if is_yes(up) {
                    self.phase = Phase::ReadIp;
                    if self.link_registered {
                        no_effects()
                    } else {
                        self.link_registered = true;
                        one_effect(Effect::LinkUp)
                    }
                } else {
                    self.phase = Phase::NetifConnected { since };
                    no_effects()
                }
            },
            (Phase::NetifConnected { since }, Event::Flag(connected)) => {
                if !is_yes(connected) {
                    self.phase = Phase::NetifLost;
                    no_effects()
                } else if has_passed(since, now, NETIF_UP_TIMEOUT_MS) {
                    self.phase = Phase::RetryScans { since: now };
                    one_effect(
                        Effect::Report(
                            Report::ConnectError { interface: station, code: TIMEOUT_CODE },
                        ),
                    )
                } else {
                    self.phase = Phase::NetifSleep { since };
                    no_effects()
                }
            },
            (Phase::NetifSleep { since }, Event::Slept) => {
                self.phase = Phase::NetifUp { since };
                no_effects()
            },
            (Phase::NetifLost, Event::Reason(reason)) => {
                let mut taken = reason;
                let code: i32 = resolve_connect_error_code(TIMEOUT_CODE, &mut taken);
                self.phase = Phase::RetryScans { since: now };
                two_effects(
                    Effect::Report(Report::ConnectError { interface: station, code }),
                    Effect::Report(Report::Disconnected { interface: station, reason }),
                )
            },
            (Phase::ReadIp, Event::Ip(info)) => {
                self.phase = Phase::FirstRssi;
                match info {
                    Some(info) => one_effect(
                        Effect::Report(Report::GotIp { interface: station, info }),
                    ),
                    None => no_effects(),
                }
            },
            (Phase::FirstRssi, Event::Rssi(rssi)) => {
                self.phase = Phase::MonitorScans { rssi_at: now };
                report_rssi(rssi)
            },
            (Phase::MonitorScans { rssi_at }, Event::Scanned) => {
                self.phase = Phase::MonitorAp { rssi_at };
                no_effects()
            },
            (Phase::MonitorAp { rssi_at }, Event::Ap(received)) => match received {
                Received::Got(ap) => {
                    let effects = self.unlink();
                    self.ap = ap;
                    self.phase = Phase::DrainAp;
                    effects
                },
                Received::Nothing => {
                    self.phase = Phase::MonitorStation { rssi_at };
                    no_effects()
                },
                Received::Closed => {
                    let effects = self.unlink();
                    self.phase = Phase::Stopped;
                    effects
                },
            },
            (Phase::MonitorStation { rssi_at }, Event::Station(received)) => match received {
                Received::Got(s) => {
                    let effects = self.unlink();
                    self.station = s;
                    self.phase = Phase::DrainAp;
                    effects
                },
                Received::Nothing => {
                    self.phase = Phase::MonitorConnected { rssi_at };
                    no_effects()
                },
                Received::Closed => {
                    let effects = self.unlink();
                    self.phase = Phase::Stopped;
                    effects
                },
            },
            (Phase::MonitorConnected { rssi_at }, Event::Flag(connected)) => {
                self.phase = Phase::MonitorUp { rssi_at, connected: is_yes(connected) };
                no_effects()
            },
            (Phase::MonitorUp { rssi_at, connected }, Event::Flag(up)) => {
                self.phase = if !connected || !is_yes(up) {
                    Phase::MonitorLost
                } else if has_passed(rssi_at, now, RSSI_REPORT_PERIOD_MS) {
                    Phase::MonitorRssi
                } else {
                    Phase::MonitorSleep { rssi_at }
                };
                no_effects()
            },
            (Phase::MonitorRssi, Event::Rssi(rssi)) => {
                self.phase = Phase::MonitorSleep { rssi_at: now };
                report_rssi(rssi)
            },
            (Phase::MonitorSleep { rssi_at }, Event::Slept) => {
                self.phase = Phase::MonitorScans { rssi_at };
                no_effects()
            },
            (Phase::MonitorLost, Event::Reason(reason)) => {
                let mut effects = one_effect(
                    Effect::Report(Report::Disconnected { interface: station, reason }),
                );
                let mut unlinked = self.unlink();
                effects.append(&mut unlinked);
                self.phase = Phase::RetryScans { since: now };
                effects
            },
            (Phase::RetryScans { since }, Event::Scanned) => {
                self.phase = Phase::RetryStation { since };
                no_effects()
            },
            (Phase::RetryStation { since }, Event::Station(received)) => match received {
                Received::Got(s) => {
                    self.station = s;
                    self.phase = Phase::DrainAp;
                    no_effects()
                },
                Received::Nothing => {
                    self.phase = Phase::RetryAp { since };
                    no_effects()
                },
                Received::Closed => {
                    let effects = self.unlink();
                    self.phase = Phase::Stopped;
                    effects
                },
            },
            (Phase::RetryAp { since }, Event::Ap(received)) => {
                match received {
                    Received::Got(ap) => {
                        self.ap = ap;
                        self.phase = Phase::DrainAp;
                    },
                    _ => {
                        self.phase = if has_passed(since, now, retry_period(&self.station)) {
                            Phase::DrainAp
                        } else {
                            Phase::RetrySleep { since }
                        };
                    },
                }
                no_effects()
            },
            (Phase::RetrySleep { since }, Event::Slept) => {
                self.phase = Phase::RetryScans { since };
                no_effects()
            },
            _ => no_effects(),
        }
    }

    /// What the radio is configured to for the settings, or that it cannot be.
    pub open spec fn is_configuration(self, r: Result<Configuration, InvalidArgument>) -> bool {
        match r {
            Ok(Configuration::Mixed(station_cfg, ap_cfg)) => self.station.enabled
                && config::is_client_configuration(station_cfg, self.station)
                && config::is_ap_configuration(ap_cfg, self.ap) && station_configurable(
                self.station,
            ) && config::ap_configurable(self.ap),
            Ok(Configuration::AccessPoint(ap_cfg)) => !self.station.enabled
                && config::is_ap_configuration(ap_cfg, self.ap) && station_configurable(
                self.station,
            ) && config::ap_configurable(self.ap),
            Err(_) => !(station_configurable(self.station) && config::ap_configurable(self.ap)),
        }
    }

    /// What the radio is configured to.
    pub fn configuration(&self) -> (r: Result<Configuration, InvalidArgument>)
        ensures
            self.is_configuration(r),
    {
        let station_cfg = match build_client_configuration(&self.station) {
            Ok(cfg) => cfg,
            Err(e) => return Err(e),
        };
        let ap_cfg = match build_ap_configuration(&self.ap) {
            Ok(cfg) => cfg,
            Err(e) => return Err(e),
        };
        Ok(compose_wifi_mode_configuration(&self.station, station_cfg, ap_cfg))
    }
}

} // verus!
