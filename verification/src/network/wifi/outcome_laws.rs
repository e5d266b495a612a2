//! What each outcome of a call leads the Wi-Fi task to: what is reported, and which call follows.

use vstd::prelude::*;

use crate::master::messages::interface_settings::{
    InterfaceType, WiFiAccessPointSettings, WiFiStationSettings,
};
use crate::network::addressing::IpInfo;
use crate::network::ipv4::InvalidArgument;
use crate::network::report::Report;
use crate::network::tasks::{Effect, Received};
use crate::network::wifi::config::Configuration;
use crate::network::wifi::task::{Action, Event, Phase, WifiTask};
use crate::text;

verus! {

/// A step leaves settings and link as they were, does exactly this on the side, and makes this
/// call next.
pub open spec fn tells(
    t: WifiTask,
    step: (WifiTask, Seq<Effect>),
    effects: Seq<Effect>,
    next: Action,
) -> bool {
    &&& step.0.station == t.station
    &&& step.0.ap == t.ap
    &&& step.0.link_registered == t.link_registered
    &&& step.0.phase.action() == next
    &&& step.1.len() == effects.len()
    &&& forall|i: int| 0 <= i < effects.len() ==> #[trigger] step.1[i] == effects[i]
}

/// A step leaves settings and link as they were, does nothing on the side, and makes this call
/// next.
pub open spec fn goes_on(t: WifiTask, step: (WifiTask, Seq<Effect>), next: Action) -> bool {
    tells(t, step, Seq::empty(), next)
}

/// A step gives up the link, tells so if there was one, and makes this call next.
pub open spec fn unlinks(t: WifiTask, step: (WifiTask, Seq<Effect>), next: Action) -> bool {
    &&& !step.0.link_registered
    &&& step.0.phase.action() == next
    &&& t.link_registered ==> step.1.len() == 1 && step.1[0] == Effect::LinkDown
    &&& !t.link_registered ==> step.1.len() == 0
}

/// The addresses that the station got are reported as they are: one report, of the station, with
/// the address, the subnet mask and the gateway that were read. Without them nothing is reported.
/// Then the signal strength is read.
pub proof fn law_addresses_are_reported(t: WifiTask, info: IpInfo, now: u64)
    requires
        t.phase == Phase::ReadIp,
    ensures
        ({
            let step = t.after(Event::Ip(Some(info)), now);
            &&& step.1.len() == 1
            &&& step.1[0] matches Effect::Report(Report::GotIp { interface, info: told }) && interface
                == InterfaceType::WiFiStation && told.ip == info.ip && told.netmask == info.netmask
                && told.gateway == info.gateway
            &&& tells(t, step, step.1, Action::ReadRssi)
        }),
        t.phase.action() == Action::ReadIpInfo,
        goes_on(t, t.after(Event::Ip(None), now), Action::ReadRssi),
{
}

/// The hardware address of a station that has joined its network is reported as it was read, of
/// the station; without it nothing is reported. Then the task asks whether the interface is up,
/// from now on.
pub proof fn law_mac_is_reported(t: WifiTask, mac: [u8; 6], now: u64)
    requires
        t.phase == Phase::ReadMac,
    ensures
        t.phase.action() == Action::ReadMac,
        tells(
            t,
            t.after(Event::Mac(Some(mac)), now),
            seq![
                Effect::Report(Report::Connected { interface: InterfaceType::WiFiStation, mac }),
            ],
            Action::IsUp,
        ),
        goes_on(t, t.after(Event::Mac(None), now), Action::IsUp),
        t.after(Event::Mac(Some(mac)), now).0.phase == (Phase::NetifUp { since: now }),
        t.after(Event::Mac(None), now).0.phase == (Phase::NetifUp { since: now }),
{
}

/// A signal strength that was read is reported as it is; one that was not is not reported. From
/// then on its age is counted.
pub proof fn law_signal_is_reported(t: WifiTask, rssi: i32, now: u64)
    requires
        t.phase.action() == Action::ReadRssi,
    ensures
        ({
            let next = if t.phase == Phase::FirstRssi {
                Action::ServeScans
            } else {
                Action::Sleep { millis: 1000 }
            };
            let phase = if t.phase == Phase::FirstRssi {
                Phase::MonitorScans { rssi_at: now }
            } else {
                Phase::MonitorSleep { rssi_at: now }
            };
            &&& tells(
                t,
                t.after(Event::Rssi(Some(rssi)), now),
                seq![Effect::Report(Report::Rssi(rssi))],
                next,
            )
            &&& goes_on(t, t.after(Event::Rssi(None), now), next)
            &&& t.after(Event::Rssi(Some(rssi)), now).0.phase == phase
            &&& t.after(Event::Rssi(None), now).0.phase == phase
        }),
{
}

/// The driver is started once, and signalled in either case; without it the task is over.
pub proof fn law_driver_start(t: WifiTask, now: u64)
    requires
        t.phase == Phase::Init,
    ensures
        t.phase.action() == Action::InitDriver,
        tells(
            t,
            t.after(Event::Driver(true), now),
            seq![Effect::DriverStarted],
            (Action::WaitStation { millis: 250 }),
        ),
        tells(t, t.after(Event::Driver(false), now), seq![Effect::DriverStarted], Action::Stop),
{
}

/// Station settings that come while the task waits or looks for them are its settings from then
/// on; the access point keeps its own. A link is given up, and the latest access point settings
/// are looked for.
pub proof fn law_station_settings_are_taken(t: WifiTask, s: WiFiStationSettings, now: u64)
    requires
        t.consistent(),
        t.phase.action() == Action::PollStation || t.phase.action() is WaitStation,
    ensures
        ({
            let step = t.after(Event::Station(Received::Got(s)), now);
            &&& step.0.station == s
            &&& step.0.ap == t.ap
            &&& unlinks(t, step, Action::PollAp)
            &&& step.0.phase == Phase::DrainAp
        }),
{
}

/// Access point settings that come while the task looks for them are its settings from then on;
/// the station keeps its own. A link is given up, and further settings are looked for.
pub proof fn law_ap_settings_are_taken(t: WifiTask, ap: WiFiAccessPointSettings, now: u64)
    requires
        t.consistent(),
        t.phase.action() == Action::PollAp,
    ensures
        ({
            let step = t.after(Event::Ap(Received::Got(ap)), now);
            &&& step.0.ap == ap
            &&& step.0.station == t.station
            &&& unlinks(t, step, Action::PollAp)
            &&& step.0.phase == Phase::DrainAp
        }),
{
}

/// Nothing else changes the settings.
pub proof fn law_settings_stay_otherwise(t: WifiTask, event: Event, now: u64)
    ensures
        t.after(event, now).0.station != t.station ==> event == Event::Station(
            Received::Got(t.after(event, now).0.station),
        ),
        t.after(event, now).0.ap != t.ap ==> event == Event::Ap(
            Received::Got(t.after(event, now).0.ap),
        ),
{
}

/// While it is not configured the task waits for station settings in turns of a quarter of a
/// second, and serves scans between two of them. Where the settings cannot be used it only waits
/// for others. It is over when none can come.
pub proof fn law_task_waits_for_station(t: WifiTask, now: u64)
    ensures
        t.phase == Phase::AwaitStation ==> ({
            let step = t.after(Event::Station(Received::Nothing), now);
            &&& t.phase.action() == Action::WaitStation { millis: 250 }
            &&& goes_on(t, step, Action::ServeScans)
            &&& step.0.after(Event::Scanned, now).0 == t
            &&& goes_on(t, step.0.after(Event::Scanned, now), Action::WaitStation { millis: 250 })
            &&& goes_on(t, t.after(Event::Station(Received::Closed), now), Action::Stop)
        }),
        t.phase == Phase::AwaitReplacement ==> ({
            &&& t.after(Event::Station(Received::Nothing), now) == (t, Seq::<Effect>::empty())
            &&& t.phase.action() == Action::WaitStation { millis: 250 }
            &&& goes_on(t, t.after(Event::Station(Received::Closed), now), Action::Stop)
        }),
{
}

/// What the settings ask for decides what comes once no further access point settings are there.
/// Where both sides are disabled the radio is switched off. Else a name of more than 32 bytes or a
/// password of more than 64 rules the settings out: silently for the station, with a report of an
/// invalid argument for an access point that is enabled. Else the radio is configured.
pub proof fn law_settings_decide(t: WifiTask, received: Received<WiFiAccessPointSettings>, now: u64)
    requires
        t.phase == Phase::DrainAp,
        !(received is Got),
    ensures
        ({
            let step = t.after(Event::Ap(received), now);
            let off = !t.station.enabled && !t.ap.enabled;
            let station_fits = text::byte_len(t.station.ssid@) <= 32 && text::byte_len(
                t.station.password@,
            ) <= 64;
            let ap_fits = !t.ap.enabled || (text::byte_len(t.ap.ssid@) <= 32 && text::byte_len(
                t.ap.password@,
            ) <= 64);
            if off {
                goes_on(t, step, Action::ServeScans) && step.0.phase == Phase::DisableScans
            } else if !station_fits {
                goes_on(t, step, Action::WaitStation { millis: 250 }) && step.0.phase
                    == Phase::AwaitReplacement
            } else if !ap_fits {
                tells(
                    t,
                    step,
                    seq![Effect::Report(Report::ApStartError(0x102))],
                    Action::WaitStation { millis: 250 },
                ) && step.0.phase == Phase::AwaitReplacement
            } else {
                goes_on(t, step, Action::IsStarted)
            }
        }),
{
}

/// Switching the radio off: scans are served, then a link is given up and the connections of the
/// TCP server are void, then the radio is stopped. Where that succeeded the station is reported
/// as disconnected, with the reason that was found. Then the task waits for settings.
pub proof fn law_radio_is_switched_off(t: WifiTask, reason: i32, code: i32, now: u64)
    requires
        t.phase == Phase::DisableScans,
    ensures
        ({
            let step = t.after(Event::Scanned, now);
            let off = step.0.after(Event::Done(Ok(())), now);
            let failed = step.0.after(Event::Done(Err(code)), now);
            let told = off.0.after(Event::Reason(reason), now);
            &&& step.0.station == t.station
            &&& step.0.ap == t.ap
            &&& !step.0.link_registered
            &&& step.0.phase.action() == Action::StopRadio
            &&& step.1 =~= (if t.link_registered {
                seq![Effect::LinkDown, Effect::ResetTcp]
            } else {
                seq![Effect::ResetTcp]
            })
            &&& goes_on(step.0, off, Action::TakeReason)
            &&& goes_on(step.0, failed, Action::WaitStation { millis: 250 })
            &&& failed.0.phase == Phase::AwaitStation
            &&& tells(
                step.0,
                told,
                seq![
                    Effect::Report(
                        Report::Disconnected { interface: InterfaceType::WiFiStation, reason },
                    ),
                ],
                Action::WaitStation { millis: 250 },
            )
            &&& told.0.phase == Phase::AwaitStation
        }),
{
}

/// Bringing the radio up: one that runs is stopped first, which voids the connections of the TCP
/// server; then it is configured, the station and then the access point get their addresses, and
/// the radio is started.
pub proof fn law_radio_is_brought_up(
    t: WifiTask,
    started: Option<bool>,
    outcome: Result<(), i32>,
    now: u64,
)
    ensures
        t.phase == Phase::CheckStarted ==> ({
            let step = t.after(Event::Flag(started), now);
            if started == Some(true) {
                &&& tells(t, step, seq![Effect::ResetTcp], Action::StopRadio)
                &&& goes_on(t, step.0.after(Event::Done(outcome), now), Action::Configure)
            } else {
                goes_on(t, step, Action::Configure)
            }
        }),
        t.phase == Phase::Configure ==> goes_on(
            t,
            t.after(Event::Done(Ok(())), now),
            Action::ApplyStationIp,
        ),
        t.phase == Phase::ApplyStationIp ==> goes_on(
            t,
            t.after(Event::Done(Ok(())), now),
            Action::ApplyApIp,
        ),
        t.phase == Phase::ApplyApIp ==> goes_on(
            t,
            t.after(Event::Done(Ok(())), now),
            Action::StartRadio,
        ),
{
}

/// A failure on the way up leaves the task waiting for other settings. It is reported with its
/// code where an address could not be given: as a failed connection of the station, or as a failed
/// start of the access point.
pub proof fn law_failed_setup_is_reported(t: WifiTask, code: i32, now: u64)
    ensures
        ({
            let step = t.after(Event::Done(Err(code)), now);
            let wait = Action::WaitStation { millis: 250 };
            &&& t.phase == Phase::Configure ==> goes_on(t, step, wait) && step.0.phase
                == Phase::AwaitReplacement
            &&& t.phase == Phase::ApplyStationIp ==> tells(
                t,
                step,
                seq![
                    Effect::Report(
                        Report::ConnectError { interface: InterfaceType::WiFiStation, code },
                    ),
                ],
                wait,
            ) && step.0.phase == Phase::AwaitReplacement
            &&& t.phase == Phase::ApplyApIp ==> tells(
                t,
                step,
                seq![Effect::Report(Report::ApStartError(code))],
                wait,
            ) && step.0.phase == Phase::AwaitReplacement
        }),
{
}

/// A radio that was started reports an enabled access point; then an enabled station joins its
/// network, else scans are served. One that could not be started reports a failed connection, with
/// the reason that was found or else the code, and a failed start of an enabled access point with
/// the code. Then the task waits to try again, from now on.
pub proof fn law_radio_start_is_reported(t: WifiTask, code: i32, reason: i32, now: u64)
    requires
        t.phase == Phase::Start,
    ensures
        t.phase.action() == Action::StartRadio,
        tells(
            t,
            t.after(Event::Done(Ok(())), now),
            if t.ap.enabled {
                seq![Effect::Report(Report::ApStarted)]
            } else {
                Seq::empty()
            },
            if t.station.enabled {
                Action::Connect
            } else {
                Action::ServeScans
            },
        ),
        !t.station.enabled ==> t.after(Event::Done(Ok(())), now).0.phase == Phase::ApOnlyScans,
        ({
            let failed = t.after(Event::Done(Err(code)), now);
            let told = failed.0.after(Event::Reason(reason), now);
            let error = Effect::Report(
                Report::ConnectError {
                    interface: InterfaceType::WiFiStation,
                    code: if reason == 0 {
                        code
                    } else {
                        reason
                    },
                },
            );
            &&& goes_on(t, failed, Action::TakeReason)
            &&& tells(
                t,
                told,
                if t.ap.enabled {
                    seq![error, Effect::Report(Report::ApStartError(code))]
                } else {
                    seq![error]
                },
                Action::ServeScans,
            )
            &&& told.0.phase == Phase::RetryScans { since: now }
        }),
{
}

/// An access point that runs alone serves scans, looks for station settings and for access point
/// settings, and sleeps a quarter of a second; then it begins again.
pub proof fn law_ap_only_round(
    t: WifiTask,
    station: Received<WiFiStationSettings>,
    ap: Received<WiFiAccessPointSettings>,
    now: u64,
)
    requires
        t.phase == Phase::ApOnlyScans,
        !(station is Got),
        !(ap is Got),
    ensures
        ({
            let a = t.after(Event::Scanned, now);
            let b = a.0.after(Event::Station(station), now);
            let c = b.0.after(Event::Ap(ap), now);
            let d = c.0.after(Event::Slept, now);
            &&& t.phase.action() == Action::ServeScans
            &&& goes_on(t, a, Action::PollStation)
            &&& goes_on(t, b, Action::PollAp)
            &&& goes_on(t, c, Action::Sleep { millis: 250 })
            &&& d == (t, Seq::<Effect>::empty())
        }),
{
}

/// A station that has joined its network reads its hardware address; one that has not asks for the
/// reason.
pub proof fn law_connect_outcome(t: WifiTask, code: i32, now: u64)
    requires
        t.phase == Phase::Connect,
    ensures
        t.phase.action() == Action::Connect,
        goes_on(t, t.after(Event::Done(Ok(())), now), Action::ReadMac),
        goes_on(t, t.after(Event::Done(Err(code)), now), Action::TakeReason),
{
}

/// A station whose interface is up has a link, which is counted once; then its addresses are read.
/// While it is not up the task asks whether it is still connected. One that is not asks for the
/// reason; one that is sleeps a quarter of a second, unless it has waited 15 seconds: then a
/// failed connection is reported with the code 39, and the task waits to try again, from now on.
pub proof fn law_interface_comes_up(
    t: WifiTask,
    up: Option<bool>,
    connected: Option<bool>,
    since: u64,
    now: u64,
)
    ensures
        t.phase == (Phase::NetifUp { since }) && up == Some(true) ==> ({
            let step = t.after(Event::Flag(up), now);
            &&& step.0.link_registered
            &&& step.0.station == t.station
            &&& step.0.ap == t.ap
            &&& step.0.phase.action() == Action::ReadIpInfo
            &&& t.link_registered ==> step.1.len() == 0
            &&& !t.link_registered ==> step.1.len() == 1 && step.1[0] == Effect::LinkUp
        }),
        t.phase == (Phase::NetifUp { since }) && up != Some(true) ==> ({
            let step = t.after(Event::Flag(up), now);
            goes_on(t, step, Action::IsConnected) && step.0.phase == Phase::NetifConnected { since }
        }),
        t.phase == (Phase::NetifConnected { since }) ==> ({
            let step = t.after(Event::Flag(connected), now);
            if connected != Some(true) {
                goes_on(t, step, Action::TakeReason)
            } else if now - since >= 15_000 {
                tells(
                    t,
                    step,
                    seq![
                        Effect::Report(
                            Report::ConnectError {
                                interface: InterfaceType::WiFiStation,
                                code: 39,
                            },
                        ),
                    ],
                    Action::ServeScans,
                ) && step.0.phase == Phase::RetryScans { since: now }
            } else {
                goes_on(t, step, Action::Sleep { millis: 250 }) && step.0.after(
                    Event::Slept,
                    now,
                ).0.phase == Phase::NetifUp { since }
            }
        }),
{
}

/// Where the station lost its network while it waited, the reason is reported twice: as that of a
/// failed connection, which is a timeout where there is none, and as that of the disconnect.
pub proof fn law_loss_before_link_is_reported(t: WifiTask, reason: i32, now: u64)
    requires
        t.phase == Phase::NetifLost,
    ensures
        tells(
            t,
            t.after(Event::Reason(reason), now),
            seq![
                Effect::Report(
                    Report::ConnectError {
                        interface: InterfaceType::WiFiStation,
                        code: if reason == 0 {
                            39
                        } else {
                            reason
                        },
                    },
                ),
                Effect::Report(
                    Report::Disconnected { interface: InterfaceType::WiFiStation, reason },
                ),
            ],
            Action::ServeScans,
        ),
        t.after(Event::Reason(reason), now).0.phase == (Phase::RetryScans { since: now }),
{
}

/// Watching a link: scans, access point settings, station settings, whether the station is
/// connected and whether it is up. While both are so the task sleeps a second; before that it
/// reads the signal strength if the last reading is 20 seconds old.
pub proof fn law_link_is_watched(
    t: WifiTask,
    rssi_at: u64,
    connected: Option<bool>,
    up: Option<bool>,
    now: u64,
)
    requires
        t.phase == (Phase::MonitorScans { rssi_at }),
    ensures
        ({
            let a = t.after(Event::Scanned, now);
            let b = a.0.after(Event::Ap(Received::Nothing), now);
            let c = b.0.after(Event::Station(Received::Nothing), now);
            let d = c.0.after(Event::Flag(connected), now);
            let e = d.0.after(Event::Flag(up), now);
            let f = e.0.after(Event::Slept, now);
            &&& t.phase.action() == Action::ServeScans
            &&& goes_on(t, a, Action::PollAp)
            &&& goes_on(t, b, Action::PollStation)
            &&& goes_on(t, c, Action::IsConnected)
            &&& goes_on(t, d, Action::IsUp)
            &&& connected != Some(true) || up != Some(true) ==> goes_on(t, e, Action::TakeReason)
            &&& connected == Some(true) && up == Some(true) && now - rssi_at >= 20_000 ==> goes_on(
                t,
                e,
                Action::ReadRssi,
            )
            &&& connected == Some(true) && up == Some(true) && now - rssi_at < 20_000 ==> goes_on(
                t,
                e,
                Action::Sleep { millis: 1000 },
            ) && f == (t, Seq::<Effect>::empty())
        }),
{
}

/// A link that is lost is reported with the reason, and no longer counted. Then the task waits to
/// try again, from now on.
pub proof fn law_lost_link_is_reported(t: WifiTask, reason: i32, now: u64)
    requires
        t.phase == Phase::MonitorLost,
    ensures
        ({
            let step = t.after(Event::Reason(reason), now);
            let lost = Effect::Report(
                Report::Disconnected { interface: InterfaceType::WiFiStation, reason },
            );
            &&& step.0.station == t.station
            &&& step.0.ap == t.ap
            &&& !step.0.link_registered
            &&& step.0.phase == Phase::RetryScans { since: now }
            &&& step.1 =~= (if t.link_registered {
                seq![lost, Effect::LinkDown]
            } else {
                seq![lost]
            })
        }),
{
}

/// A task that finds its queues closed while it watches a link, or waits to try again, gives up the
/// link and is over.
pub proof fn law_closed_queue_ends_the_task(t: WifiTask, rssi_at: u64, since: u64, now: u64)
    ensures
        t.phase == (Phase::MonitorAp { rssi_at }) ==> unlinks(
            t,
            t.after(Event::Ap(Received::Closed), now),
            Action::Stop,
        ),
        t.phase == (Phase::MonitorStation { rssi_at }) ==> unlinks(
            t,
            t.after(Event::Station(Received::Closed), now),
            Action::Stop,
        ),
        t.phase == (Phase::RetryStation { since }) ==> unlinks(
            t,
            t.after(Event::Station(Received::Closed), now),
            Action::Stop,
        ),
{
}

/// Waiting to try again: scans, station settings, access point settings, and a sleep of a quarter
/// of a second, until the reconnect period of the settings is over, which counts as at least one
/// second and at most 600. Then the latest access point settings are looked for, and all begins
/// anew.
pub proof fn law_retry_round(
    t: WifiTask,
    since: u64,
    ap: Received<WiFiAccessPointSettings>,
    now: u64,
)
    requires
        t.phase == (Phase::RetryScans { since }),
        !(ap is Got),
    ensures
        ({
            let a = t.after(Event::Scanned, now);
            let b = a.0.after(Event::Station(Received::Nothing), now);
            let c = b.0.after(Event::Ap(ap), now);
            let d = c.0.after(Event::Slept, now);
            let seconds: int = if t.station.reconnect_period == 0 {
                1
            } else if t.station.reconnect_period > 600 {
                600
            } else {
                t.station.reconnect_period as int
            };
            &&& t.phase.action() == Action::ServeScans
            &&& goes_on(t, a, Action::PollStation)
            &&& goes_on(t, b, Action::PollAp)
            &&& now - since >= 1000 * seconds ==> goes_on(t, c, Action::PollAp) && c.0.phase
                == Phase::DrainAp
            &&& now - since < 1000 * seconds ==> goes_on(t, c, Action::Sleep { millis: 250 }) && d
                == (t, Seq::<Effect>::empty())
        }),
{
}

/// The radio serves the access point alone where the station is disabled, else both. The station
/// has the name and the password of its settings. An enabled access point has those of its own,
/// and their channel and number of clients; a disabled one stays hidden. There is no
/// configuration exactly where a name takes more than 32 bytes or a password more than 64; those
/// of a disabled access point do not count.
pub proof fn law_radio_is_configured_for_its_settings(
    t: WifiTask,
    r: Result<Configuration, InvalidArgument>,
)
    requires
        t.is_configuration(r),
    ensures
        r is Err <==> text::byte_len(t.station.ssid@) > 32 || text::byte_len(t.station.password@)
            > 64 || (t.ap.enabled && (text::byte_len(t.ap.ssid@) > 32 || text::byte_len(
            t.ap.password@,
        ) > 64)),
        r matches Ok(Configuration::Mixed(_, _)) ==> t.station.enabled,
        r matches Ok(Configuration::AccessPoint(_)) ==> !t.station.enabled,
        r matches Ok(Configuration::Mixed(station, _)) ==> station.ssid@ == t.station.ssid@
            && station.password@ == t.station.password@,
        match r {
            Ok(Configuration::Mixed(_, ap)) | Ok(Configuration::AccessPoint(ap)) => {
                &&& ap.ssid_hidden <==> !t.ap.enabled
                &&& t.ap.enabled ==> ap.ssid@ == t.ap.ssid@ && ap.password@ == t.ap.password@
                    && ap.channel == t.ap.channel && ap.max_connections == t.ap.max_clients
            },
            Err(_) => true,
        },
{
}

} // verus!
