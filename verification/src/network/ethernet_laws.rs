//! What holds of the Ethernet task from one call to the next.

use vstd::prelude::*;

use crate::master::messages::interface_settings::{EthernetSettings, InterfaceType};
use crate::network::ethernet;
use crate::network::ethernet::{
    Action, EthernetTask, Event, Phase, ESP_ERR_TIMEOUT, UP_TIMEOUT_MS,
};
use crate::network::report::Report;
use crate::network::tasks;
use crate::network::tasks::{Effect, Received};
use crate::system::wdt::TASK_WDT_TIMEOUT_SECS;

verus! {

/// Whatever a call gives, the task stays consistent.
pub proof fn law_task_stays_consistent(t: EthernetTask, event: Event, now: u64)
    requires
        t.consistent(),
    ensures
        t.after(event, now).0.consistent(),
{
}

/// The number of interfaces with a link goes up by one when the port's link is counted, and
/// down by one when it no longer is; it changes in no other way.
pub proof fn law_links_are_counted(t: EthernetTask, event: Event, now: u64)
    ensures
        tasks::link_change(t.after(event, now).1) == (if t.after(event, now).0.link_registered {
            1int
        } else {
            0
        }) - (if t.link_registered {
            1int
        } else {
            0
        }),
{
    reveal_with_fuel(tasks::link_change, 4);
    let effects = t.after(event, now).1;
    if effects.len() == 2 {
        assert(effects.drop_last().drop_last() =~= Seq::empty());
    } else if effects.len() == 1 {
        assert(effects.drop_last() =~= Seq::empty());
    }
}

/// A task that has stopped does nothing more, and leaves no link counted.
pub proof fn law_stop_is_final(t: EthernetTask, event: Event, now: u64)
    requires
        t.consistent(),
        t.phase == Phase::Stopped,
    ensures
        t.after(event, now) == (t, Seq::<Effect>::empty()),
        t.phase.action() == Action::Stop,
        !t.link_registered,
{
}

/// The outcomes that belong to a call.
pub open spec fn answers(event: Event, action: Action) -> bool {
    match action {
        Action::InitDriver => event is Driver,
        Action::WaitSettings { .. } => event is Settings,
        Action::PollSettings => event is Settings,
        Action::StopDriver => event is Done,
        Action::ApplyIp => event is Done,
        Action::StartDriver => event is Done,
        Action::IsConnected => event is Check,
        Action::IsUp => event is Check,
        Action::ReadMac => event is Mac,
        Action::ReadIpInfo => event is Ip,
        Action::Sleep { .. } => event is Slept,
        Action::Stop => false,
    }
}

/// An outcome that does not belong to the call changes nothing. One that does moves the task on,
/// except that a wait for settings goes on when none have come.
pub proof fn law_outcome_belongs_to_call(t: EthernetTask, event: Event, now: u64)
    ensures
        !answers(event, t.phase.action()) ==> t.after(event, now) == (t, Seq::<Effect>::empty()),
        answers(event, t.phase.action()) ==> t.after(event, now).0.phase != t.phase || t.phase
            == Phase::AwaitSettings,
{
}

/// The start of the driver is signalled once: when it has gone through it, which never comes again.
pub proof fn law_driver_start_is_signalled_once(t: EthernetTask, event: Event, now: u64)
    ensures
        t.after(event, now).1.contains(Effect::DriverStarted) <==> t.phase == Phase::Init
            && event is Driver,
        t.after(event, now).0.phase == Phase::Init ==> t.phase == Phase::Init && !(event is Driver),
{
    let effects = t.after(event, now).1;
    if t.phase == Phase::Init && event is Driver {
        assert(effects[0] == Effect::DriverStarted);
    }
}

/// The report of a link is among the effects.
pub open spec fn says_connected(effects: Seq<Effect>) -> bool {
    exists|k: int|
        0 <= k < effects.len() && (#[trigger] effects[k]) matches Effect::Report(
            Report::Connected { .. },
        )
}

/// What the master is told of a link and of its loss is what the task holds for known: after a
/// report of the link the link counts as announced, after a report of its loss it does not, and
/// nothing else changes that.
pub proof fn law_announced_is_what_was_told(t: EthernetTask, event: Event, now: u64)
    ensures
        ({
            let (next, effects) = t.after(event, now);
            &&& next.announced <==> says_connected(effects) || t.announced && !effects.contains(
                ethernet::disconnected(),
            )
            &&& !(says_connected(effects) && effects.contains(ethernet::disconnected()))
        }),
{
    let (next, effects) = t.after(event, now);
    if effects.len() > 0 {
        assert(effects.len() == 1 || effects[1] == Effect::LinkDown || effects[0]
            == Effect::DriverStarted);
    }
}

/// A port that loses its link, or its interface, after the master was told of it reports the
/// disconnect once, and its link no longer counts; then it waits for the link to come back. So
/// it does while it watches the link, while it waits for its address, and when a link that the
/// master knows of does not come back in time.
pub proof fn law_lost_link_is_reported(
    t: EthernetTask,
    connected: bool,
    since: u64,
    answer: Result<bool, i32>,
    now: u64,
)
    requires
        t.consistent(),
        ({
            ||| t.phase == (Phase::MonitorUp { connected }) && (!connected || answer != Ok::<
                bool,
                i32,
            >(true))
            ||| t.phase == (Phase::NetifLink { since }) && answer != Ok::<bool, i32>(true)
            ||| t.phase == (Phase::LinkWait { since }) && answer == Ok::<bool, i32>(false) && now
                - since >= UP_TIMEOUT_MS && t.announced
        }),
    ensures
        t.after(Event::Check(answer), now).0 == (EthernetTask {
            phase: Phase::RecoverSettings,
            link_registered: false,
            announced: false,
            ..t
        }),
        t.after(Event::Check(answer), now).1 == seq![
            Effect::Report(Report::Disconnected { interface: InterfaceType::Ethernet, reason: 0 }),
        ] + t.unlink_effects(),
{
}

/// No connect error is reported for want of a link that the master knows of: such an error is a
/// failed call, or an interface without an address, or a link that was never there.
pub proof fn law_lost_link_is_no_connect_error(t: EthernetTask, event: Event, now: u64)
    requires
        t.consistent(),
        t.after(event, now).1 == ethernet::connect_error(ESP_ERR_TIMEOUT),
        event matches Event::Check(Ok(_)),
    ensures
        match t.phase {
            Phase::LinkWait { .. } => !t.announced,
            Phase::NetifLink { .. } => event == Event::Check(Ok(true)),
            _ => false,
        },
{
    assert(t.lost().1[0] == ethernet::disconnected());
    assert(ethernet::connect_error(ESP_ERR_TIMEOUT)[0] != ethernet::disconnected());
}

/// While the task waits for a lost link to come back it reports nothing, however long that
/// takes and whatever asking for the link gives; it goes on only when the link is back, or when
/// there are new settings.
pub proof fn law_recovery_is_silent(t: EthernetTask, event: Event, now: u64)
    requires
        t.consistent(),
        t.phase.recovering(),
    ensures
        t.after(event, now).1 == Seq::<Effect>::empty(),
        t.after(event, now).0.phase == Phase::ReadMac ==> t.phase == Phase::RecoverLink && event
            == Event::Check(Ok(true)),
        match t.after(event, now).0.phase {
            Phase::RecoverSettings => true,
            Phase::RecoverLink => true,
            Phase::RecoverSleep => true,
            Phase::ReadMac => true,
            Phase::Stopped => event == Event::Settings(Received::Closed),
            _ => event matches Event::Settings(Received::Got(_)),
        },
{
}

/// The wait for the link ends: once its time is over, the task reports a timeout and tries again
/// later, or reports the disconnect if the master knew of the link. Until then every round keeps
/// the time at which the wait began.
pub proof fn law_link_wait_is_bounded(t: EthernetTask, since: u64, now: u64)
    requires
        t.phase == (Phase::LinkWait { since }),
    ensures
        ({
            let asked = t.after(Event::Check(Ok(false)), now);
            let slept = asked.0.after(Event::Slept, now);
            if now - since < UP_TIMEOUT_MS {
                slept.0 == t && asked.1 + slept.1 =~= Seq::empty()
            } else if t.announced {
                asked == t.lost()
            } else {
                asked == (t.at(Phase::Retry), ethernet::connect_error(ESP_ERR_TIMEOUT))
            }
        }),
{
}

/// The wait for the interface ends: once its time is over, a port with a link but without an
/// address reports a timeout and tries again later. Until then every round keeps the time at
/// which the wait began.
pub proof fn law_netif_wait_is_bounded(t: EthernetTask, since: u64, now: u64)
    requires
        t.phase == (Phase::NetifWait { since }),
    ensures
        ({
            let asked = t.after(Event::Check(Ok(false)), now);
            let checked = asked.0.after(Event::Check(Ok(true)), now);
            let slept = checked.0.after(Event::Slept, now);
            if now - since >= UP_TIMEOUT_MS {
                &&& asked.1 =~= Seq::empty()
                &&& checked == (t.at(Phase::Retry), ethernet::connect_error(ESP_ERR_TIMEOUT))
            } else {
                slept.0 == t && asked.1 + checked.1 + slept.1 =~= Seq::empty()
            }
        }),
{
}

/// Settings that come while the task waits or looks for them are taken up at once: an enabled
/// port is brought up anew, a disabled one is stopped, and a link is given up either way.
pub proof fn law_settings_take_over(t: EthernetTask, s: EthernetSettings, now: u64)
    requires
        t.consistent(),
        t.phase.action() == Action::PollSettings || t.phase.action() is WaitSettings,
    ensures
        t.after(Event::Settings(Received::Got(s)), now) == (
            EthernetTask {
                phase: if s.enabled { Phase::ApplyIp } else { Phase::Disable },
                settings: s,
                link_registered: false,
                ..t
            },
            t.unlink_effects(),
        ),
{
}

/// A task that is over has left the watchdog. While it is under the watchdog, every wait is
/// shorter than the watchdog's time.
pub proof fn law_task_feeds_its_watchdog(t: EthernetTask)
    ensures
        t.phase == Phase::Stopped ==> !t.phase.action().under_watch(),
        t.phase.action() matches Action::WaitSettings { millis } ==> millis < 1000 * TASK_WDT_TIMEOUT_SECS,
        t.phase.action() matches Action::Sleep { millis } ==> millis < 1000 * TASK_WDT_TIMEOUT_SECS,
{
}

} // verus!
