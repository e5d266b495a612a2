//! What holds of the Wi-Fi task from one call to the next.

use vstd::prelude::*;

use crate::master::messages::interface_settings::{
    InterfaceType, WiFiAccessPointSettings, WiFiStationSettings,
};
use crate::network::report::Report;
use crate::network::tasks;
use crate::network::tasks::{Effect, Received};
use crate::network::wifi::config;
use crate::network::wifi::state;
use crate::network::wifi::task;
use crate::network::wifi::task::{
    Action, Event, Phase, WifiTask, NETIF_UP_TIMEOUT_MS, TIMEOUT_CODE,
};
use crate::system::wdt::TASK_WDT_TIMEOUT_SECS;

verus! {

/// Whatever a call gives, the task stays consistent.
pub proof fn law_task_stays_consistent(t: WifiTask, event: Event, now: u64)
    requires
        t.consistent(),
    ensures
        t.after(event, now).0.consistent(),
{
}

/// The number of interfaces with a link goes up by one when the station's link is counted, and
/// down by one when it no longer is; it changes in no other way.
pub proof fn law_links_are_counted(t: WifiTask, event: Event, now: u64)
    ensures
        tasks::link_change(t.after(event, now).1) == (if t.after(event, now).0.link_registered {
            1int
        } else {
            0
        }) - (if t.link_registered {
            1int
        } else {
            0
        }),
{
    reveal_with_fuel(tasks::link_change, 4);
    let effects = t.after(event, now).1;
    if effects.len() == 2 {
        assert(effects.drop_last().drop_last() =~= Seq::empty());
    } else if effects.len() == 1 {
        assert(effects.drop_last() =~= Seq::empty());
    }
}

/// A task that has stopped does nothing more, and leaves no link counted.
pub proof fn law_stop_is_final(t: WifiTask, event: Event, now: u64)
    requires
        t.consistent(),
        t.phase == Phase::Stopped,
    ensures
        t.after(event, now) == (t, Seq::<Effect>::empty()),
        t.phase.action() == Action::Stop,
        !t.link_registered,
{
}

/// The outcomes that belong to a call.
pub open spec fn answers(event: Event, action: Action) -> bool {
    match action {
        Action::InitDriver => event is Driver,
        Action::WaitStation { .. } => event is Station,
        Action::PollStation => event is Station,
        Action::PollAp => event is Ap,
        Action::ServeScans => event is Scanned,
        Action::StopRadio => event is Done,
        Action::IsStarted => event is Flag,
        Action::Configure => event is Done,
        Action::ApplyStationIp => event is Done,
        Action::ApplyApIp => event is Done,
        Action::StartRadio => event is Done,
        Action::Connect => event is Done,
        Action::ReadMac => event is Mac,
        Action::IsUp => event is Flag,
        Action::IsConnected => event is Flag,
        Action::ReadIpInfo => event is Ip,
        Action::ReadRssi => event is Rssi,
        Action::TakeReason => event is Reason,
        Action::Sleep { .. } => event is Slept,
        Action::Stop => false,
    }
}

/// An outcome that does not belong to the call changes nothing. One that does moves the task on,
/// except that a wait for replacement settings goes on when none have come.
pub proof fn law_outcome_belongs_to_call(t: WifiTask, event: Event, now: u64)
    ensures
        !answers(event, t.phase.action()) ==> t.after(event, now) == (t, Seq::<Effect>::empty()),
        answers(event, t.phase.action()) ==> t.after(event, now).0.phase != t.phase || t.phase
            == Phase::AwaitReplacement || t.phase == Phase::DrainAp,
{
}

/// The start of the driver is signalled once: when it has gone through it, which never comes again.
pub proof fn law_driver_start_is_signalled_once(t: WifiTask, event: Event, now: u64)
    ensures
        t.after(event, now).1.contains(Effect::DriverStarted) <==> t.phase == Phase::Init
            && event is Driver,
        t.after(event, now).0.phase == Phase::Init ==> t.phase == Phase::Init && !(event is Driver),
{
    let effects = t.after(event, now).1;
    if t.phase == Phase::Init && event is Driver {
        assert(effects[0] == Effect::DriverStarted);
    }
}

/// The radio is only started, and the station only connected, if the settings ask for it, and
/// then there is a configuration for it.
pub proof fn law_radio_follows_settings(t: WifiTask)
    requires
        t.consistent(),
    ensures
        t.phase.action() == Action::StartRadio ==> t.station.enabled || t.ap.enabled,
        t.phase.action() == Action::Connect ==> t.station.enabled,
        t.phase.action() == Action::Configure ==> task::station_configurable(t.station)
            && config::ap_configurable(t.ap),
{
}

/// What is reported of the access point's start and of the station's link is reported only of
/// one that is enabled.
pub proof fn law_reports_follow_settings(t: WifiTask, event: Event, now: u64, i: int)
    requires
        t.consistent(),
        0 <= i < t.after(event, now).1.len(),
    ensures
        match t.after(event, now).1[i] {
            Effect::Report(Report::ApStarted) => t.ap.enabled,
            Effect::Report(Report::Connected { .. }) => t.station.enabled,
            Effect::Report(Report::GotIp { .. }) => t.station.enabled,
            Effect::Report(Report::Rssi(_)) => t.station.enabled,
            _ => true,
        },
{
}

/// A station that loses its network before its interface is up reports a connect error and then
/// the disconnect, both with the reason; without a reason the error is a timeout. Then it waits
/// to try again.
pub proof fn law_refused_station_reports_error_then_disconnect(
    t: WifiTask,
    up: Option<bool>,
    connected: Option<bool>,
    reason: i32,
    since: u64,
    now: u64,
)
    requires
        t.phase == (Phase::NetifUp { since }),
        !tasks::yes(up),
        !tasks::yes(connected),
    ensures
        ({
            let asked = t.after(Event::Flag(up), now);
            let lost = asked.0.after(Event::Flag(connected), now);
            let told = lost.0.after(Event::Reason(reason), now);
            &&& asked.1 + lost.1 + told.1 =~= seq![
                Effect::Report(
                    Report::ConnectError {
                        interface: InterfaceType::WiFiStation,
                        code: if reason != 0 { reason } else { TIMEOUT_CODE },
                    },
                ),
                Effect::Report(
                    Report::Disconnected { interface: InterfaceType::WiFiStation, reason },
                ),
            ]
            &&& told.0 == t.at(Phase::RetryScans { since: now })
        }),
{
}

/// A station that its network refuses reports a connect error and then the disconnect, both with
/// the reason; without a reason there was no network to lose, and the error carries the code of
/// the platform. Then it waits to try again.
pub proof fn law_refused_connect_reports_error_then_disconnect(
    t: WifiTask,
    code: i32,
    reason: i32,
    now: u64,
)
    requires
        t.phase == Phase::Connect,
    ensures
        ({
            let refused = t.after(Event::Done(Err(code)), now);
            let told = refused.0.after(Event::Reason(reason), now);
            let error = Effect::Report(
                Report::ConnectError {
                    interface: InterfaceType::WiFiStation,
                    code: if reason != 0 { reason } else { code },
                },
            );
            let disconnect = Effect::Report(
                Report::Disconnected { interface: InterfaceType::WiFiStation, reason },
            );
            &&& refused.1 + told.1 =~= if reason != 0 {
                seq![error, disconnect]
            } else {
                seq![error]
            }
            &&& told.0 == t.at(Phase::RetryScans { since: now })
        }),
{
}

/// The wait for the station's interface ends: once its time is over, a station that is connected
/// but not up reports a timeout and waits to try again. Until then every round keeps the time at
/// which the wait began.
pub proof fn law_netif_wait_is_bounded(t: WifiTask, up: Option<bool>, since: u64, now: u64)
    requires
        t.phase == (Phase::NetifUp { since }),
        !tasks::yes(up),
    ensures
        ({
            let asked = t.after(Event::Flag(up), now);
            let waited = asked.0.after(Event::Flag(Some(true)), now);
            let slept = waited.0.after(Event::Slept, now);
            if now - since >= NETIF_UP_TIMEOUT_MS {
                &&& waited.0 == t.at(Phase::RetryScans { since: now })
                &&& waited.1 == seq![
                    Effect::Report(
                        Report::ConnectError {
                            interface: InterfaceType::WiFiStation,
                            code: TIMEOUT_CODE,
                        },
                    ),
                ]
            } else {
                &&& slept.0 == t
                &&& asked.1 + waited.1 + slept.1 =~= Seq::empty()
            }
        }),
{
}

/// The code of the timeout is that of the disconnect reason of this name.
pub proof fn law_timeout_code_is_a_reason()
    ensures
        TIMEOUT_CODE == state::WifiDisconnectReason::Timeout.code(),
{
}

/// Station settings that come while the task waits or looks for them are taken up at once: a
/// link is given up, and the radio is configured anew.
pub proof fn law_station_settings_take_over(t: WifiTask, s: WiFiStationSettings, now: u64)
    requires
        t.consistent(),
        t.phase.action() == Action::PollStation || t.phase.action() is WaitStation,
    ensures
        t.after(Event::Station(Received::Got(s)), now).0 == t.without_link().with_station(s),
        t.after(Event::Station(Received::Got(s)), now).1 == t.unlink_effects(),
{
    assert(t.link_registered || t.without_link() == t);
}

/// Access point settings that come while the task looks for them are taken up at once, with the
/// station's settings as they were.
pub proof fn law_ap_settings_take_over(t: WifiTask, ap: WiFiAccessPointSettings, now: u64)
    requires
        t.consistent(),
        t.phase.action() == Action::PollAp,
    ensures
        t.after(Event::Ap(Received::Got(ap)), now).0 == t.without_link().with_ap(ap),
        t.after(Event::Ap(Received::Got(ap)), now).1 == t.unlink_effects(),
{
    assert(t.link_registered || t.without_link() == t);
}

/// A retry comes when the reconnect period is over, and not before.
pub proof fn law_retry_waits_its_period(t: WifiTask, since: u64, now: u64)
    requires
        t.phase == (Phase::RetryAp { since }),
    ensures
        t.after(Event::Ap(Received::Nothing), now).0 == t.at(
            if now - since >= task::retry_millis(t.station) {
                Phase::DrainAp
            } else {
                Phase::RetrySleep { since }
            },
        ),
        1000 <= task::retry_millis(t.station) <= 600_000,
        t.station.valid() ==> task::retry_millis(t.station) == 1000 * t.station.reconnect_period,
{
}

/// A task that is over has left the watchdog. While it is under the watchdog, every wait is
/// shorter than the watchdog's time.
pub proof fn law_task_feeds_its_watchdog(t: WifiTask)
    ensures
        t.phase == Phase::Stopped ==> !t.phase.action().under_watch(),
        t.phase.action() matches Action::WaitStation { millis } ==> millis < 1000 * TASK_WDT_TIMEOUT_SECS,
        t.phase.action() matches Action::Sleep { millis } ==> millis < 1000 * TASK_WDT_TIMEOUT_SECS,
{
}

} // verus!
