//! How the UDP listener takes new settings, opens its sockets and goes from socket to socket.

use vstd::prelude::*;

use crate::master::messages::service_settings::UdpListenerSettings;
use crate::network::tasks::Received;
use crate::services::json;
use crate::services::udp_listener;
use crate::services::udp_listener::{Action, Event, Phase, UdpListenerTask};
use crate::text_laws;

verus! {

/// The sockets are open while the task works with them, and closed while it is on the way to
/// opening them.
pub open spec fn sockets_match(t: UdpListenerTask) -> bool {
    match t.phase {
        Phase::AwaitSettings | Phase::Latch | Phase::Open | Phase::Reopen => !t.open,
        Phase::Receiving { .. } | Phase::Replying { .. } | Phase::Sleep => t.open,
        Phase::DrainSettings | Phase::Stopped => true,
    }
}

/// Settings that come are the settings of the task from then on, and no sockets are open for
/// them yet. A task that waited for settings goes on to the latch; one that is in its round looks
/// for further settings first. How many requests were answered does not change.
pub proof fn law_new_settings_are_taken(t: UdpListenerTask, s: UdpListenerSettings)
    requires
        sockets_match(t),
        t.phase == Phase::AwaitSettings || t.phase == Phase::DrainSettings,
    ensures
        ({
            let next = t.after(Event::Settings(Received::Got(s)));
            &&& next.settings == s
            &&& !next.open
            &&& next.response_rr == t.response_rr
            &&& t.phase == Phase::AwaitSettings ==> next.pending() == Action::WaitLatch
            &&& t.phase == Phase::DrainSettings ==> next.pending() == Action::PollSettings
        }),
{
}

/// Nothing but settings that come while the task waits or looks for them changes its settings.
pub proof fn law_settings_stay_otherwise(t: UdpListenerTask, event: Event)
    requires
        !(event matches Event::Settings(Received::Got(_))) || !(t.phase == Phase::AwaitSettings
            || t.phase == Phase::DrainSettings),
    ensures
        t.after(event).settings == t.settings,
{
}

/// The sockets become open only when they were opened, for the settings that the task has then;
/// they are closed only by new settings; and requests are read and answered only while they are
/// open.
pub proof fn law_sockets_are_open_when_opened(t: UdpListenerTask, event: Event)
    requires
        sockets_match(t),
    ensures
        sockets_match(t.after(event)),
        !t.open && t.after(event).open ==> t.pending() == Action::OpenSockets && event
            == Event::Opened(true) && t.after(event).settings == t.settings,
        t.open && !t.after(event).open ==> (event matches Event::Settings(Received::Got(s))
            && t.after(event).settings == s),
        t.pending() is Receive || t.pending() is Reply ==> t.open,
{
}

/// A task whose sockets are not open leaves its round without a look at any of them: it waits
/// 10 milliseconds, then for the latch, and opens sockets for its settings.
pub proof fn law_sockets_are_opened_anew(t: UdpListenerTask, received: Received<UdpListenerSettings>)
    requires
        t.phase == Phase::DrainSettings,
        !t.open,
        !(received is Got),
    ensures
        ({
            let a = t.after(Event::Settings(received));
            let b = a.after(Event::Slept);
            let c = b.after(Event::LatchOpen);
            let d = c.after(Event::Opened(true));
            let e = c.after(Event::Opened(false));
            &&& a.pending() == Action::Sleep { millis: 10 }
            &&& b.pending() == Action::WaitLatch
            &&& c.pending() == Action::OpenSockets
            &&& c.settings == t.settings
            &&& !c.open
            &&& d.pending() == Action::PollSettings
            &&& d.open
            &&& d.settings == t.settings
            &&& e.pending() == Action::WaitSettings { millis: 1000 }
            &&& !e.open
        }),
{
}

/// While no settings come, a task that waits for them waits on; it is over when none can come.
pub proof fn law_task_waits_for_settings(t: UdpListenerTask)
    requires
        t.phase == Phase::AwaitSettings,
    ensures
        t.pending() == (Action::WaitSettings { millis: 1000 }),
        t.after(Event::Settings(Received::Nothing)) == t,
        t.after(Event::Settings(Received::Closed)).pending() == Action::Stop,
{
}

/// A round goes through the sockets of all request ports, from the first to the last, and then
/// sleeps 2 milliseconds before it looks for settings again. A request that is not answered, and
/// an answer that was sent, both lead to the next socket.
pub proof fn law_round_goes_through_all_sockets(
    t: UdpListenerTask,
    received: Received<UdpListenerSettings>,
    socket: usize,
    port: u16,
    request: Option<String>,
)
    requires
        t.consistent(),
    ensures
        t.phase == Phase::DrainSettings && t.open && !(received is Got) ==> t.after(
            Event::Settings(received),
        ).pending() == (Action::Receive { socket: 0 }),
        t.phase == (Phase::Receiving { socket }) && (request matches Some(kind) ==> kind@
            != t.settings.request_type@) ==> {
            &&& t.pending() == (Action::Receive { socket })
            &&& t.after(Event::Request(request)).response_rr == t.response_rr
            &&& t.after(Event::Request(request)).pending() == (if socket + 1
                < t.settings.request_ports@.len() {
                Action::Receive { socket: (socket + 1) as usize }
            } else {
                Action::Sleep { millis: 2 }
            })
        },
        t.phase == (Phase::Replying { socket, port }) ==> {
            &&& t.pending() == (Action::Reply { socket, port })
            &&& t.after(Event::Replied).response_rr == t.response_rr
            &&& t.after(Event::Replied).pending() == (if socket + 1
                < t.settings.request_ports@.len() {
                Action::Receive { socket: (socket + 1) as usize }
            } else {
                Action::Sleep { millis: 2 }
            })
        },
        t.phase == Phase::Sleep ==> t.after(Event::Slept).pending() == Action::PollSettings,
{
}

/// A request of the type of the settings is answered from the socket that it came to, on the
/// response port whose turn it is, and counted.
pub proof fn law_wanted_request_is_answered(t: UdpListenerTask, socket: usize, kind: String)
    requires
        t.consistent(),
        t.phase == (Phase::Receiving { socket }),
        kind@ == t.settings.request_type@,
    ensures
        ({
            let next = t.after(Event::Request(Some(kind)));
            let ports = t.settings.response_ports@;
            &&& next.pending() == (Action::Reply {
                socket,
                port: if ports.len() == 1 || t.response_rr % 2 == 0 {
                    ports[0]
                } else {
                    ports[1]
                },
            })
            &&& t.response_rr < usize::MAX ==> next.response_rr == t.response_rr + 1
            &&& t.response_rr == usize::MAX ==> next.response_rr == 0
            &&& next.open == t.open
        }),
{
}

/// An advertisement is a JSON object of three members: the identifier as a string, then the type
/// of the device and the port as numbers.
pub proof fn law_advertisement_is_an_object(
    s: UdpListenerSettings,
    device_type: Seq<char>,
    port: Seq<char>,
)
    requires
        text_laws::numeral(device_type, s.device_type as int),
        text_laws::numeral(port, s.port as int),
    ensures
        udp_listener::advertisement(s) == "{\"serviceId\":"@ + seq!['"'] + json::escaped_text(
            s.service_id@,
        ) + seq!['"'] + ",\"deviceType\":"@ + device_type + ",\"port\":"@ + port + "}"@,
{
    text_laws::law_numeral_is_decimal(device_type, s.device_type as nat);
    text_laws::law_numeral_is_decimal(port, s.port as nat);
    assert(udp_listener::advertisement(s) =~= "{\"serviceId\":"@ + seq!['"']
        + json::escaped_text(s.service_id@) + seq!['"'] + ",\"deviceType\":"@ + device_type
        + ",\"port\":"@ + port + "}"@);
}

/// A text inside a JSON string is that of its characters, one after another. A character that
/// needs no escape stands for itself; a quote or a backslash has a backslash in front.
pub proof fn law_text_is_escaped_by_character(a: Seq<char>, b: Seq<char>, c: char)
    ensures
        json::escaped_text(Seq::empty()).len() == 0,
        json::escaped_text(a + b) == json::escaped_text(a) + json::escaped_text(b),
        json::escaped_text(a.push(c)) == json::escaped_text(a) + json::escaped(c),
        c >= ' ' && c != '"' && c != '\\' ==> json::escaped(c) == seq![c],
        c == '"' || c == '\\' ==> json::escaped(c) == seq!['\\', c],
    decreases b.len(),
{
    assert(a.push(c).drop_last() =~= a);
    assert(a.push(c).last() == c);
    if b.len() == 0 {
        assert(a + b =~= a);
        assert(json::escaped_text(a) + Seq::<char>::empty() =~= json::escaped_text(a));
        assert(json::escaped_text(b) =~= Seq::empty());
    } else {
        law_text_is_escaped_by_character(a, b.drop_last(), c);
        assert((a + b).drop_last() =~= a + b.drop_last());
        assert((a + b).last() == b.last());
        assert(json::escaped_text(a + b) =~= json::escaped_text(a) + json::escaped_text(b));
    }
}

} // verus!
