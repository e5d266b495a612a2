//! What each outcome of a call leads the station task to: what is reported, and which call
//! follows.

use vstd::prelude::*;

use crate::master::messages::interface_settings::{InterfaceType, WiFiStationSettings};
use crate::network::addressing::IpInfo;
use crate::network::report::Report;
use crate::network::tasks::{Effect, Received};
use crate::network::wifi_station::{Action, Event, Phase, StationTask};
use crate::text;

verus! {

/// A step leaves the settings as they were, does exactly this on the side, and makes this call
/// next.
pub open spec fn tells(
    t: StationTask,
    step: (StationTask, Seq<Effect>),
    effects: Seq<Effect>,
    action: Action,
) -> bool {
    &&& step.0.settings == t.settings
    &&& step.0.pending() == action
    &&& step.1.len() == effects.len()
    &&& forall|i: int| 0 <= i < effects.len() ==> #[trigger] step.1[i] == effects[i]
}

/// A step leaves the settings as they were, does nothing on the side, and makes this call next.
pub open spec fn goes_on(t: StationTask, step: (StationTask, Seq<Effect>), action: Action) -> bool {
    tells(t, step, Seq::empty(), action)
}

/// The report that the station could not connect.
pub open spec fn failure(code: i32) -> Effect {
    Effect::Report(Report::ConnectError { interface: InterfaceType::WiFiStation, code })
}

/// The report that the station has lost its network.
pub open spec fn loss(reason: i32) -> Effect {
    Effect::Report(Report::Disconnected { interface: InterfaceType::WiFiStation, reason })
}

/// The wait before the next try: the reconnect period of the settings, which counts as at least
/// one second and at most 600.
pub open spec fn waits_to_retry(s: WiFiStationSettings, action: Action) -> bool {
    let seconds: int = if s.reconnect_period == 0 {
        1
    } else if s.reconnect_period > 600 {
        600
    } else {
        s.reconnect_period as int
    };
    action matches Action::WaitSettingsFor { millis } && millis == 1000 * seconds
}

/// What a task with these settings does first: a station that is disabled is stopped; one whose
/// name takes more than 32 bytes, or its password more than 64, waits for other settings; else the
/// radio is configured.
pub open spec fn first_call(s: WiFiStationSettings) -> Action {
    if !s.enabled {
        Action::StopRadio
    } else if text::byte_len(s.ssid@) > 32 || text::byte_len(s.password@) > 64 {
        Action::WaitSettings
    } else {
        Action::Configure
    }
}

/// The addresses that the station got are reported as they are: one report, of the station, with
/// the address, the subnet mask and the gateway that were read. Without them nothing is reported.
/// Then the signal strength is read.
pub proof fn law_addresses_are_reported(t: StationTask, info: IpInfo, now: u64)
    requires
        t.phase == Phase::ReadIp,
    ensures
        t.pending() == Action::ReadIpInfo,
        ({
            let step = t.after(Event::Ip(Some(info)), now);
            &&& step.1.len() == 1
            &&& step.1[0] matches Effect::Report(Report::GotIp { interface, info: told }) && interface
                == InterfaceType::WiFiStation && told.ip == info.ip && told.netmask == info.netmask
                && told.gateway == info.gateway
            &&& tells(t, step, step.1, Action::ReadRssi)
        }),
        goes_on(t, t.after(Event::Ip(None), now), Action::ReadRssi),
{
}

/// The hardware address of a station that has joined its network is reported as it was read, of
/// the station; without it nothing is reported. Then the task waits for the interface to come up.
pub proof fn law_mac_is_reported(t: StationTask, mac: [u8; 6], now: u64)
    requires
        t.phase == Phase::ReadMac,
    ensures
        t.pending() == Action::ReadMac,
        tells(
            t,
            t.after(Event::Mac(Some(mac)), now),
            seq![
                Effect::Report(Report::Connected { interface: InterfaceType::WiFiStation, mac }),
            ],
            Action::WaitNetifUp,
        ),
        goes_on(t, t.after(Event::Mac(None), now), Action::WaitNetifUp),
{
}

/// A signal strength that was read is reported as it is; one that was not is not reported. From
/// then on its age is counted.
pub proof fn law_signal_is_reported(t: StationTask, rssi: i32, now: u64)
    requires
        t.pending() == Action::ReadRssi,
    ensures
        ({
            let next = if t.phase == Phase::FirstRssi {
                Action::PollSettings
            } else {
                Action::Sleep { millis: 1000 }
            };
            let phase = if t.phase == Phase::FirstRssi {
                Phase::MonitorSettings { rssi_at: now }
            } else {
                Phase::MonitorSleep { rssi_at: now }
            };
            &&& tells(
                t,
                t.after(Event::Rssi(Some(rssi)), now),
                seq![Effect::Report(Report::Rssi(rssi))],
                next,
            )
            &&& goes_on(t, t.after(Event::Rssi(None), now), next)
            &&& t.after(Event::Rssi(Some(rssi)), now).0.phase == phase
            &&& t.after(Event::Rssi(None), now).0.phase == phase
        }),
{
}

/// The driver is started once, and signalled in either case; without it the task is over.
pub proof fn law_driver_start(t: StationTask, now: u64)
    requires
        t.phase == Phase::Init,
    ensures
        t.pending() == Action::InitDriver,
        tells(
            t,
            t.after(Event::Driver(true), now),
            seq![Effect::DriverStarted],
            Action::WaitSettings,
        ),
        tells(t, t.after(Event::Driver(false), now), seq![Effect::DriverStarted], Action::Stop),
{
}

/// Settings that come while the task waits or looks for them are its settings from then on, and
/// are followed at once, without a report.
pub proof fn law_new_settings_are_taken(t: StationTask, s: WiFiStationSettings, now: u64)
    requires
        t.pending() == Action::PollSettings || t.pending() == Action::WaitSettings
            || t.pending() is WaitSettingsFor,
    ensures
        ({
            let step = t.after(Event::Settings(Received::Got(s)), now);
            &&& step.0.settings == s
            &&& step.0.pending() == first_call(s)
            &&& step.1.len() == 0
        }),
{
}

/// Nothing else changes the settings.
pub proof fn law_settings_stay_otherwise(t: StationTask, event: Event, now: u64)
    ensures
        t.after(event, now).0.settings != t.settings ==> event == Event::Settings(
            Received::Got(t.after(event, now).0.settings),
        ),
{
}

/// While there are no settings to follow the task waits for some; where none can come any more it
/// is over. When the reconnect period is over it follows its own again.
pub proof fn law_task_waits_for_settings(t: StationTask, now: u64)
    ensures
        t.phase == Phase::AwaitSettings ==> {
            &&& t.pending() == Action::WaitSettings
            &&& t.after(Event::Settings(Received::Nothing), now) == (t, Seq::<Effect>::empty())
            &&& goes_on(t, t.after(Event::Settings(Received::Closed), now), Action::Stop)
        },
        t.phase == Phase::Retry ==> {
            &&& waits_to_retry(t.settings, t.pending())
            &&& goes_on(
                t,
                t.after(Event::Settings(Received::Nothing), now),
                first_call(t.settings),
            )
            &&& goes_on(t, t.after(Event::Settings(Received::Closed), now), Action::Stop)
        },
{
}

/// A radio that was stopped is reported as disconnected with the reason that was found; where it
/// could not be stopped nothing is reported. Then the task waits for settings.
pub proof fn law_stopped_radio_is_reported(t: StationTask, code: i32, reason: i32, now: u64)
    requires
        t.phase == Phase::Disable,
    ensures
        ({
            let step = t.after(Event::Done(Ok(())), now);
            let told = step.0.after(Event::Reason(reason), now);
            &&& t.pending() == Action::StopRadio
            &&& goes_on(t, step, Action::TakeReason)
            &&& tells(t, told, seq![loss(reason)], Action::WaitSettings)
            &&& goes_on(t, t.after(Event::Done(Err(code)), now), Action::WaitSettings)
        }),
{
}

/// Bringing the station up: the radio is configured and started, the station joins its network,
/// its hardware address is read, and its interface comes up; then its addresses are read. Settings
/// that the radio does not take are waited to be replaced.
pub proof fn law_station_is_brought_up(t: StationTask, code: i32, now: u64)
    ensures
        ({
            let done = t.after(Event::Done(Ok(())), now);
            &&& t.phase == Phase::Configure ==> goes_on(t, done, Action::StartRadio) && goes_on(
                t,
                t.after(Event::Done(Err(code)), now),
                Action::WaitSettings,
            )
            &&& t.phase == Phase::Start ==> goes_on(t, done, Action::Connect)
            &&& t.phase == Phase::Connect ==> goes_on(t, done, Action::ReadMac)
            &&& t.phase == Phase::NetifWait ==> goes_on(t, done, Action::ReadIpInfo)
        }),
{
}

/// A failure on the way up is reported: with the reason that was found, or else with the code. A
/// station that its network refused, which shows in the reason, is reported as disconnected too.
/// Then the task waits to try again.
pub proof fn law_failure_is_told(t: StationTask, code: i32, reason: i32, now: u64)
    requires
        t.phase == Phase::Start || t.phase == Phase::Connect || t.phase == Phase::NetifWait,
    ensures
        ({
            let failed = t.after(Event::Done(Err(code)), now);
            let told = failed.0.after(Event::Reason(reason), now);
            &&& goes_on(t, failed, Action::TakeReason)
            &&& told.0.settings == t.settings
            &&& waits_to_retry(t.settings, told.0.pending())
            &&& told.1 =~= (if reason == 0 {
                seq![failure(code)]
            } else if t.phase == Phase::Start {
                seq![failure(reason)]
            } else {
                seq![failure(reason), loss(reason)]
            })
        }),
{
}

/// Watching the link: settings, whether the station is connected and whether it is up. While both
/// are so the task sleeps a second; before that it reads the signal strength if the last reading
/// is 20 seconds old. A link that is lost is reported with the reason, and the task waits to try
/// again. Where no settings can come any more it is over.
pub proof fn law_link_is_watched(
    t: StationTask,
    rssi_at: u64,
    connected: Option<bool>,
    up: Option<bool>,
    reason: i32,
    now: u64,
)
    requires
        t.phase == (Phase::MonitorSettings { rssi_at }),
    ensures
        ({
            let a = t.after(Event::Settings(Received::Nothing), now);
            let b = a.0.after(Event::Flag(connected), now);
            let c = b.0.after(Event::Flag(up), now);
            let told = c.0.after(Event::Reason(reason), now);
            let held = connected == Some(true) && up == Some(true);
            &&& t.pending() == Action::PollSettings
            &&& goes_on(t, t.after(Event::Settings(Received::Closed), now), Action::Stop)
            &&& goes_on(t, a, Action::IsConnected)
            &&& goes_on(t, b, Action::IsUp)
            &&& held && now - rssi_at >= 20_000 ==> goes_on(t, c, Action::ReadRssi)
            &&& held && now - rssi_at < 20_000 ==> goes_on(t, c, Action::Sleep { millis: 1000 })
                && c.0.after(Event::Slept, now) == (t, Seq::<Effect>::empty())
            &&& !held ==> {
                &&& goes_on(t, c, Action::TakeReason)
                &&& told.0.settings == t.settings
                &&& waits_to_retry(t.settings, told.0.pending())
                &&& told.1.len() == 1
                &&& told.1[0] == loss(reason)
            }
        }),
{
}

} // verus!
