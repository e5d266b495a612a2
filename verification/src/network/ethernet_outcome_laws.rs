//! What each outcome of a call leads the Ethernet task to: what is reported, and which call
//! follows.

use vstd::prelude::*;

use crate::master::messages::interface_settings::{EthernetSettings, InterfaceType};
use crate::network::addressing::IpInfo;
use crate::network::ethernet::{Action, EthernetTask, Event, Phase};
use crate::network::report::Report;
use crate::network::tasks::{Effect, Received};

verus! {

/// A step leaves the settings as they were, and makes this call next.
pub open spec fn keeps_settings(t: EthernetTask, next: EthernetTask, action: Action) -> bool {
    &&& next.settings == t.settings
    &&& next.mock_dhcp_on_boot == t.mock_dhcp_on_boot
    &&& next.phase.action() == action
}

/// A step leaves settings, link and what the master knows of it as they were, does exactly this on
/// the side, and makes this call next.
pub open spec fn tells(
    t: EthernetTask,
    step: (EthernetTask, Seq<Effect>),
    effects: Seq<Effect>,
    action: Action,
) -> bool {
    &&& keeps_settings(t, step.0, action)
    &&& step.0.link_registered == t.link_registered
    &&& step.0.announced == t.announced
    &&& step.1.len() == effects.len()
    &&& forall|i: int| 0 <= i < effects.len() ==> #[trigger] step.1[i] == effects[i]
}

/// A step leaves all as it was, does nothing on the side, and makes this call next.
pub open spec fn goes_on(t: EthernetTask, step: (EthernetTask, Seq<Effect>), action: Action) -> bool {
    tells(t, step, Seq::empty(), action)
}

/// The report that the port could not be brought up.
pub open spec fn failure(code: i32) -> Effect {
    Effect::Report(Report::ConnectError { interface: InterfaceType::Ethernet, code })
}

/// The report that the port has no link any more.
pub open spec fn loss() -> Effect {
    Effect::Report(Report::Disconnected { interface: InterfaceType::Ethernet, reason: 0 })
}

/// A step tells the master that the link is gone, no longer counts it, and looks for settings
/// while the link is waited for.
pub open spec fn loses_link(t: EthernetTask, step: (EthernetTask, Seq<Effect>)) -> bool {
    &&& keeps_settings(t, step.0, Action::PollSettings)
    &&& step.0.phase == Phase::RecoverSettings
    &&& !step.0.link_registered
    &&& !step.0.announced
    &&& step.1 =~= (if t.link_registered {
        seq![loss(), Effect::LinkDown]
    } else {
        seq![loss()]
    })
}

/// The addresses that the port got are reported as they are: one report, of the port, with the
/// address, the subnet mask and the gateway that were read. Without them nothing is reported.
/// Then the task looks for settings.
pub proof fn law_addresses_are_reported(t: EthernetTask, info: IpInfo, now: u64)
    requires
        t.phase == Phase::ReadIp,
    ensures
        t.phase.action() == Action::ReadIpInfo,
        ({
            let step = t.after(Event::Ip(Some(info)), now);
            &&& step.1.len() == 1
            &&& step.1[0] matches Effect::Report(Report::GotIp { interface, info: told }) && interface
                == InterfaceType::Ethernet && told.ip == info.ip && told.netmask == info.netmask
                && told.gateway == info.gateway
            &&& tells(t, step, step.1, Action::PollSettings)
        }),
        goes_on(t, t.after(Event::Ip(None), now), Action::PollSettings),
{
}

/// The hardware address of a port with a link is reported as it was read, of the port; six zeros
/// stand for one that could not be read. From then on the master knows of the link, and the task
/// asks whether the interface is up.
pub proof fn law_mac_is_reported(t: EthernetTask, mac: Option<[u8; 6]>, now: u64)
    requires
        t.phase == Phase::ReadMac,
    ensures
        ({
            let step = t.after(Event::Mac(mac), now);
            &&& t.phase.action() == Action::ReadMac
            &&& keeps_settings(t, step.0, Action::IsUp)
            &&& step.0.phase == Phase::NetifWait { since: now }
            &&& step.0.link_registered == t.link_registered
            &&& step.0.announced
            &&& step.1.len() == 1
            &&& step.1[0] matches Effect::Report(Report::Connected { interface, mac: told })
                && interface == InterfaceType::Ethernet && match mac {
                Some(read) => told == read,
                None => forall|i: int| 0 <= i < 6 ==> #[trigger] told[i] == 0,
            }
        }),
{
}

/// The driver is started once, and signalled in either case; without it the task is over. A port
/// that is to come up by itself follows its settings at once; else the task waits for settings.
pub proof fn law_driver_start(t: EthernetTask, now: u64)
    requires
        t.consistent(),
        t.phase == Phase::Init,
    ensures
        t.phase.action() == Action::InitDriver,
        tells(t, t.after(Event::Driver(false), now), seq![Effect::DriverStarted], Action::Stop),
        tells(
            t,
            t.after(Event::Driver(true), now),
            seq![Effect::DriverStarted],
            if t.mock_dhcp_on_boot {
                Action::ApplyIp
            } else {
                Action::WaitSettings { millis: 1000 }
            },
        ),
{
}

/// Settings that come while the task waits or looks for them are its settings from then on. A link
/// is given up; an enabled port is brought up, a disabled one is stopped.
pub proof fn law_new_settings_are_taken(t: EthernetTask, s: EthernetSettings, now: u64)
    requires
        t.consistent(),
        t.phase.action() == Action::PollSettings || t.phase.action() is WaitSettings,
    ensures
        ({
            let step = t.after(Event::Settings(Received::Got(s)), now);
            &&& step.0.settings == s
            &&& step.0.mock_dhcp_on_boot == t.mock_dhcp_on_boot
            &&& step.0.announced == t.announced
            &&& !step.0.link_registered
            &&& step.0.phase.action() == (if s.enabled {
                Action::ApplyIp
            } else {
                Action::StopDriver
            })
            &&& step.1 =~= (if t.link_registered {
                seq![Effect::LinkDown]
            } else {
                Seq::empty()
            })
        }),
{
}

/// Nothing else changes the settings.
pub proof fn law_settings_stay_otherwise(t: EthernetTask, event: Event, now: u64)
    ensures
        t.after(event, now).0.mock_dhcp_on_boot == t.mock_dhcp_on_boot,
        t.after(event, now).0.settings != t.settings ==> event == Event::Settings(
            Received::Got(t.after(event, now).0.settings),
        ),
{
}

/// While it is not configured the task waits for settings in turns of a second. It is over when
/// none can come.
pub proof fn law_task_waits_for_settings(t: EthernetTask, now: u64)
    requires
        t.phase == Phase::AwaitSettings,
    ensures
        t.phase.action() == (Action::WaitSettings { millis: 1000 }),
        t.after(Event::Settings(Received::Nothing), now) == (t, Seq::<Effect>::empty()),
        goes_on(t, t.after(Event::Settings(Received::Closed), now), Action::Stop),
{
}

/// A port that was stopped is reported as disconnected, and the master knows of no link; where it
/// could not be stopped nothing is reported. Then the task waits for settings.
pub proof fn law_stopped_port_is_reported(t: EthernetTask, code: i32, now: u64)
    requires
        t.phase == Phase::Disable,
    ensures
        ({
            let wait = Action::WaitSettings { millis: 1000 };
            let step = t.after(Event::Done(Ok(())), now);
            &&& keeps_settings(t, step.0, wait)
            &&& step.0.phase == Phase::AwaitSettings
            &&& step.0.link_registered == t.link_registered
            &&& !step.0.announced
            &&& step.1.len() == 1
            &&& step.1[0] == loss()
            &&& goes_on(t, t.after(Event::Done(Err(code)), now), wait)
            &&& t.after(Event::Done(Err(code)), now).0.phase == Phase::AwaitSettings
        }),
{
}

/// Bringing the port up: it gets its address, and then the driver is started; then the link is
/// waited for, from now on. A failure is reported with its code: where the address could not be
/// given the task waits for other settings, where the driver could not be started it tries again
/// after 5 seconds.
pub proof fn law_port_is_brought_up(t: EthernetTask, code: i32, now: u64)
    ensures
        t.phase == Phase::ApplyIp ==> {
            &&& goes_on(t, t.after(Event::Done(Ok(())), now), Action::StartDriver)
            &&& tells(
                t,
                t.after(Event::Done(Err(code)), now),
                seq![failure(code)],
                Action::WaitSettings { millis: 1000 },
            )
        },
        t.phase == Phase::Start ==> {
            &&& goes_on(t, t.after(Event::Done(Ok(())), now), Action::IsConnected)
            &&& t.after(Event::Done(Ok(())), now).0.phase == Phase::LinkWait { since: now }
            &&& tells(
                t,
                t.after(Event::Done(Err(code)), now),
                seq![failure(code)],
                Action::WaitSettings { millis: 5000 },
            )
        },
{
}

/// Waiting for the link: once it is there the hardware address is read. Without it the task sleeps
/// a quarter of a second. After 15 seconds the loss of a link that the master knows of is
/// reported; without such a link a timeout is, with the code 0x107, and the task tries again after
/// 5 seconds. So it does where asking failed, with the code of that.
pub proof fn law_link_is_waited_for(t: EthernetTask, since: u64, code: i32, now: u64)
    requires
        t.phase == (Phase::LinkWait { since }),
    ensures
        ({
            let none = t.after(Event::Check(Ok(false)), now);
            &&& goes_on(t, t.after(Event::Check(Ok(true)), now), Action::ReadMac)
            &&& tells(
                t,
                t.after(Event::Check(Err(code)), now),
                seq![failure(code)],
                Action::WaitSettings { millis: 5000 },
            )
            &&& now - since < 15_000 ==> goes_on(t, none, Action::Sleep { millis: 250 })
                && none.0.after(Event::Slept, now) == (t, Seq::<Effect>::empty())
            &&& now - since >= 15_000 && t.announced ==> loses_link(t, none)
            &&& now - since >= 15_000 && !t.announced ==> tells(
                t,
                none,
                seq![failure(0x107)],
                Action::WaitSettings { millis: 5000 },
            )
        }),
{
}

/// A port whose interface is up has a link that is counted once; then its addresses are read.
/// While it is not up the task asks whether the link is still there. Where asking failed that is
/// reported with its code, and the task tries again after 5 seconds.
pub proof fn law_interface_comes_up(t: EthernetTask, since: u64, code: i32, now: u64)
    requires
        t.phase == (Phase::NetifWait { since }),
    ensures
        ({
            let up = t.after(Event::Check(Ok(true)), now);
            let down = t.after(Event::Check(Ok(false)), now);
            &&& keeps_settings(t, up.0, Action::ReadIpInfo)
            &&& up.0.link_registered
            &&& up.0.announced == t.announced
            &&& up.1 =~= (if t.link_registered {
                Seq::empty()
            } else {
                seq![Effect::LinkUp]
            })
            &&& goes_on(t, down, Action::IsConnected)
            &&& down.0.phase == Phase::NetifLink { since }
            &&& tells(
                t,
                t.after(Event::Check(Err(code)), now),
                seq![failure(code)],
                Action::WaitSettings { millis: 5000 },
            )
        }),
{
}

/// A port that is not up and has no link any more, or does not say so, has lost it. One with a
/// link sleeps a quarter of a second, unless it has waited 15 seconds: then a timeout is reported,
/// with the code 0x107, and the task tries again after 5 seconds.
pub proof fn law_interface_is_waited_for(
    t: EthernetTask,
    since: u64,
    answer: Result<bool, i32>,
    now: u64,
)
    requires
        t.phase == (Phase::NetifLink { since }),
    ensures
        ({
            let step = t.after(Event::Check(answer), now);
            &&& answer != Ok::<bool, i32>(true) ==> loses_link(t, step)
            &&& answer == Ok::<bool, i32>(true) && now - since >= 15_000 ==> tells(
                t,
                step,
                seq![failure(0x107)],
                Action::WaitSettings { millis: 5000 },
            )
            &&& answer == Ok::<bool, i32>(true) && now - since < 15_000 ==> goes_on(
                t,
                step,
                Action::Sleep { millis: 250 },
            ) && step.0.after(Event::Slept, now).0.phase == Phase::NetifWait { since }
        }),
{
}

/// Watching the link: settings, whether the port is connected and whether it is up; while both are
/// so the task sleeps a second and begins again, else the link is lost. Where no settings can come
/// any more the link is given up and the task is over.
pub proof fn law_link_is_watched(
    t: EthernetTask,
    connected: Result<bool, i32>,
    up: Result<bool, i32>,
    now: u64,
)
    requires
        t.phase == Phase::MonitorSettings,
    ensures
        ({
            let yes = Ok::<bool, i32>(true);
            let a = t.after(Event::Settings(Received::Nothing), now);
            let b = a.0.after(Event::Check(connected), now);
            let c = b.0.after(Event::Check(up), now);
            let over = t.after(Event::Settings(Received::Closed), now);
            &&& t.phase.action() == Action::PollSettings
            &&& goes_on(t, a, Action::IsConnected)
            &&& goes_on(t, b, Action::IsUp)
            &&& connected == yes && up == yes ==> goes_on(t, c, Action::Sleep { millis: 1000 })
                && c.0.after(Event::Slept, now) == (t, Seq::<Effect>::empty())
            &&& connected != yes || up != yes ==> loses_link(t, c)
            &&& keeps_settings(t, over.0, Action::Stop)
            &&& !over.0.link_registered
            &&& over.1 =~= (if t.link_registered {
                seq![Effect::LinkDown]
            } else {
                Seq::empty()
            })
        }),
{
}

/// Waiting for a lost link: settings, and whether the port is connected. Once it is the hardware
/// address is read; until then the task sleeps a second and begins again.
pub proof fn law_lost_link_is_waited_for(t: EthernetTask, answer: Result<bool, i32>, now: u64)
    requires
        t.phase == Phase::RecoverSettings,
    ensures
        ({
            let a = t.after(Event::Settings(Received::Nothing), now);
            let b = a.0.after(Event::Check(answer), now);
            &&& t.phase.action() == Action::PollSettings
            &&& goes_on(t, t.after(Event::Settings(Received::Closed), now), Action::Stop)
            &&& goes_on(t, a, Action::IsConnected)
            &&& answer == Ok::<bool, i32>(true) ==> goes_on(t, b, Action::ReadMac)
            &&& answer != Ok::<bool, i32>(true) ==> goes_on(t, b, Action::Sleep { millis: 1000 })
                && b.0.after(Event::Slept, now) == (t, Seq::<Effect>::empty())
        }),
{
}

/// After a failure the task waits 5 seconds for other settings, and then follows its own again.
pub proof fn law_failure_is_retried(t: EthernetTask, now: u64)
    requires
        t.consistent(),
        t.phase == Phase::Retry,
    ensures
        t.phase.action() == (Action::WaitSettings { millis: 5000 }),
        goes_on(
            t,
            t.after(Event::Settings(Received::Nothing), now),
            if t.settings.enabled {
                Action::ApplyIp
            } else {
                Action::StopDriver
            },
        ),
        goes_on(t, t.after(Event::Settings(Received::Closed), now), Action::Stop),
{
}

} // verus!
