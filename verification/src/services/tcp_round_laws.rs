//! What each outcome of a round of the TCP server does: to which slot, with which report, and
//! which call follows.

use vstd::prelude::*;

use crate::master::messages::record_laws;
use crate::master::messages::service_settings::{ServiceType, TcpServerSettings};
use crate::master::messages::service_state::{
    TcpConnectedPayload, TcpDisconnectReason, TcpDisconnectedPayload,
};
use crate::master::messages::payload::Payload;
use crate::master::messages::tcp_command::TcpCommandMessage;
use crate::master::messages::tcp_data;
use crate::master::protocol;
use crate::master::protocol::{Content, PacketError};
use crate::msgpack;
use crate::network::tasks::Received;
use crate::services::tcp_server::{Action, Event, Incoming, Phase, TcpState};
use crate::services::tcp_server_laws;
use crate::services::tcp_slots;
use crate::services::tcp_slots::{ReadOutcome, TcpReport};

verus! {

/// Nothing but one slot differs between two lists of slots, and that one is now `last`.
pub open spec fn only_slot(
    before: Seq<Option<u64>>,
    now: Seq<Option<u64>>,
    slot: int,
    last: Option<u64>,
) -> bool {
    &&& now.len() == before.len()
    &&& now[slot] == last
    &&& forall|j: int| 0 <= j < before.len() && j != slot ==> #[trigger] now[j] == before[j]
}

/// Two states have the same settings and the same listener.
pub open spec fn same_listener(a: TcpState, b: TcpState) -> bool {
    a.settings == b.settings && a.listening == b.listening
}

/// The call reads from the first slot with a client from `from` on, or ends the round with a
/// sleep of 5 milliseconds where there is none.
pub open spec fn reads_next(slots: Seq<Option<u64>>, from: int, action: Action) -> bool {
    match action {
        Action::Read { slot } => from <= slot < slots.len() && slots[slot as int] is Some && forall|
            j: int,
        |
            from <= j < slot ==> (#[trigger] slots[j]) is None,
        Action::Sleep { millis } => millis == 5 && forall|j: int|
            from <= j < slots.len() ==> (#[trigger] slots[j]) is None,
        _ => false,
    }
}

proof fn lemma_reads_next(t: TcpState, from: int)
    requires
        0 <= from,
        t.slots.len() == 4,
    ensures
        reads_next(t.slots, from, t.reading_from(from).pending()),
    decreases t.slots.len() - from,
{
    if from < t.slots.len() && t.slots[from] is None {
        lemma_reads_next(t, from + 1);
    }
}

/// Data of the master goes to the client of the very slot that it names, and once it was written
/// the activity of that slot, and of no other, is renewed. Data that could not be written renews
/// nothing. Then the task looks for more data.
pub proof fn law_data_is_written_to_its_slot(t: TcpState, index: u8, now: u64, later: u64)
    requires
        t.consistent(),
        t.phase == Phase::DrainData,
        index < 4,
        t.slots[index as int] is Some,
    ensures
        ({
            let (found, reports) = t.after(Event::Data(Some(index)), now);
            let (done, after_done) = found.after(Event::Written(true), later);
            let (failed, after_failed) = found.after(Event::Written(false), later);
            &&& found.pending() == Action::Write { index }
            &&& found.slots == t.slots
            &&& same_listener(found, t)
            &&& reports.len() == 0
            &&& only_slot(t.slots, done.slots, index as int, Some(later))
            &&& same_listener(done, t)
            &&& done.pending() == Action::PollData
            &&& after_done.len() == 0
            &&& failed.slots == t.slots
            &&& same_listener(failed, t)
            &&& failed.pending() == Action::PollData
            &&& after_failed.len() == 0
        }),
{
}

/// A write that succeeded renews the activity of the slot that was written to, and of no other;
/// one that failed renews nothing.
pub proof fn law_write_renews_its_slot(t: TcpState, index: u8, now: u64)
    requires
        t.consistent(),
        t.pending() == (Action::Write { index }),
    ensures
        only_slot(t.slots, t.after(Event::Written(true), now).0.slots, index as int, Some(now)),
        t.after(Event::Written(false), now).0.slots == t.slots,
{
}

/// Data for a slot without client is answered with the report that it has none; data for a slot
/// that does not exist is dropped. Neither changes anything. After the last data the task looks
/// for clients if it listens, else the round is over.
pub proof fn law_data_without_client_is_refused(t: TcpState, index: u8, now: u64)
    requires
        t.consistent(),
        t.phase == Phase::DrainData,
    ensures
        index >= 4 ==> t.after(Event::Data(Some(index)), now) == (t, Seq::<TcpReport>::empty()),
        index < 4 && t.slots[index as int] is None ==> t.after(Event::Data(Some(index)), now) == (
            t,
            seq![
                TcpReport::Disconnected { index, reason: TcpDisconnectReason::NotConnected },
            ],
        ),
        ({
            let (next, reports) = t.after(Event::Data(None), now);
            &&& next.slots == t.slots
            &&& same_listener(next, t)
            &&& reports.len() == 0
            &&& next.pending() == (if t.listening {
                Action::Accept
            } else {
                Action::Sleep { millis: 5 }
            })
        }),
{
}

/// A command to close the slot of a client frees that slot, and no other, and is answered with
/// the report that the server closed the connection. A command for a free slot is answered with
/// the report that it has no client. Any other command does nothing. After the last command the
/// task looks for data.
pub proof fn law_command_is_answered(t: TcpState, message: TcpCommandMessage, now: u64)
    requires
        t.consistent(),
        t.phase == Phase::DrainCommands,
    ensures
        ({
            let (next, reports) = t.after(Event::Command(Some(message)), now);
            let index = message.index;
            &&& next.pending() == Action::PollCommand
            &&& same_listener(next, t)
            &&& !message.command.close || index >= 4 ==> next.slots == t.slots && reports.len() == 0
            &&& message.command.close && index < 4 && t.slots[index as int] is Some ==> {
                &&& only_slot(t.slots, next.slots, index as int, None)
                &&& reports == seq![
                    TcpReport::Disconnected {
                        index,
                        reason: TcpDisconnectReason::ServerClosedConnection,
                    },
                ]
            }
            &&& message.command.close && index < 4 && t.slots[index as int] is None ==> {
                &&& next.slots == t.slots
                &&& reports == seq![
                    TcpReport::Disconnected { index, reason: TcpDisconnectReason::NotConnected },
                ]
            }
        }),
        ({
            let (next, reports) = t.after(Event::Command(None), now);
            &&& next.pending() == Action::PollData
            &&& same_listener(next, t)
            &&& next.slots == t.slots
            &&& reports.len() == 0
        }),
{
}

proof fn lemma_lowest_free(slots: Seq<Option<u64>>, from: int, index: int)
    requires
        0 <= from <= index < slots.len(),
        slots[index] is None,
        forall|j: int| 0 <= j < index ==> (#[trigger] slots[j]) is Some,
    ensures
        tcp_slots::free_from(slots, from) == Some(index),
    decreases index - from,
{
    if from < index {
        lemma_lowest_free(slots, from + 1, index);
    }
}

proof fn lemma_none_free(slots: Seq<Option<u64>>, from: int)
    requires
        0 <= from,
        forall|j: int| 0 <= j < slots.len() ==> (#[trigger] slots[j]) is Some,
    ensures
        tcp_slots::free_from(slots, from) is None,
    decreases slots.len() - from,
{
    if from < slots.len() {
        lemma_none_free(slots, from + 1);
    }
}

/// A new client takes the lowest free slot, active from now on, and no other slot changes; the
/// master is told which slot it took and where it comes from. Then the task looks for another.
pub proof fn law_client_takes_the_lowest_free_slot(
    t: TcpState,
    client: Incoming,
    index: u8,
    now: u64,
)
    requires
        t.consistent(),
        t.phase == Phase::Accept,
        client.ready,
        index < 4,
        t.slots[index as int] is None,
        forall|j: int| 0 <= j < index ==> (#[trigger] t.slots[j]) is Some,
    ensures
        ({
            let (next, reports) = t.after(Event::Incoming(Some(client)), now);
            &&& only_slot(t.slots, next.slots, index as int, Some(now))
            &&& same_listener(next, t)
            &&& next.pending() == Action::Accept
            &&& reports == seq![
                TcpReport::Connected {
                    index,
                    remote_ip: client.remote_ip,
                    remote_port: client.remote_port,
                },
            ]
        }),
{
    lemma_lowest_free(t.slots, 0, index as int);
}

/// A client is turned away without a word where all slots are taken or where its connection could
/// not be set up. When no more clients come, the task reads from the first slot with one.
pub proof fn law_other_clients_are_turned_away(t: TcpState, client: Incoming, now: u64)
    requires
        t.consistent(),
        t.phase == Phase::Accept,
    ensures
        !client.ready || (forall|j: int| 0 <= j < 4 ==> (#[trigger] t.slots[j]) is Some) ==> t.after(
            Event::Incoming(Some(client)),
            now,
        ) == (t, Seq::<TcpReport>::empty()),
        ({
            let (next, reports) = t.after(Event::Incoming(None), now);
            &&& reads_next(t.slots, 0, next.pending())
            &&& next.slots == t.slots
            &&& same_listener(next, t)
            &&& reports.len() == 0
        }),
{
    lemma_reads_next(t, 0);
    if forall|j: int| 0 <= j < 4 ==> (#[trigger] t.slots[j]) is Some {
        lemma_none_free(t.slots, 0);
    }
}

/// Why a client is dropped by a read: it closed the connection, the read failed, or it was silent
/// for more than the timeout.
pub open spec fn dropped_for(
    t: TcpState,
    slot: usize,
    outcome: ReadOutcome,
    now: u64,
) -> Option<TcpDisconnectReason> {
    let silent = now - t.slots[slot as int]->0;
    match outcome {
        ReadOutcome::Closed => Some(TcpDisconnectReason::ClientClosedConnection),
        ReadOutcome::Failed => Some(TcpDisconnectReason::Undefined),
        ReadOutcome::Nothing if t.settings.client_timeout > 0 && silent > 1000
            * t.settings.client_timeout => Some(TcpDisconnectReason::InactivityTimeout),
        _ => None,
    }
}

/// Bytes of a client are passed on under the number of its slot, and renew the activity of that
/// slot and of no other; the task reads from it again. A client that is dropped frees its slot,
/// and no other, and the master is told which one and why. Else nothing changes. Then the task
/// reads from the next slot with a client.
pub proof fn law_read_concerns_its_slot(t: TcpState, slot: usize, outcome: ReadOutcome, now: u64)
    requires
        t.consistent(),
        t.phase == (Phase::Reading { slot }),
    ensures
        ({
            let (next, reports) = t.after(Event::Read(outcome), now);
            &&& t.pending() == Action::Read { slot }
            &&& same_listener(next, t)
            &&& match (outcome, dropped_for(t, slot, outcome, now)) {
                (ReadOutcome::Data(data), _) => {
                    &&& only_slot(t.slots, next.slots, slot as int, Some(now))
                    &&& reports == seq![TcpReport::Data { index: slot as u8, payload: data@ }]
                    &&& next.pending() == Action::Read { slot }
                },
                (_, Some(reason)) => {
                    &&& only_slot(t.slots, next.slots, slot as int, None)
                    &&& reports == seq![TcpReport::Disconnected { index: slot as u8, reason }]
                    &&& reads_next(t.slots, slot + 1, next.pending())
                },
                (_, None) => {
                    &&& next.slots == t.slots
                    &&& reports.len() == 0
                    &&& reads_next(t.slots, slot + 1, next.pending())
                },
            }
        }),
{
    lemma_reads_next(t, slot + 1);
    let freed = t.with_slot(slot as int, None);
    lemma_reads_next(freed, slot + 1);
    let action = freed.reading_from(slot + 1).pending();
    assert forall|j: int| slot + 1 <= j < 4 implies freed.slots[j] == #[trigger] t.slots[j] by {}
    assert(reads_next(t.slots, slot + 1, action));
}

/// The listener is open while clients are looked for and read, and closed while the task is on
/// the way to opening it.
pub open spec fn listener_matches(t: TcpState) -> bool {
    match t.phase {
        Phase::AwaitSettings | Phase::Latch | Phase::Open => !t.listening,
        Phase::Accept | Phase::Reading { .. } => t.listening,
        _ => true,
    }
}

/// Settings that come are the settings of the task from then on, and there is no listener for
/// them yet. In a round they leave no client; the task looks for further settings first. A task
/// that waited for settings goes on to the latch.
pub proof fn law_new_settings_are_taken(t: TcpState, s: TcpServerSettings, now: u64)
    requires
        t.consistent(),
        listener_matches(t),
        t.phase == Phase::AwaitSettings || t.phase == Phase::DrainSettings,
    ensures
        ({
            let next = t.after(Event::Settings(Received::Got(s)), now).0;
            &&& next.settings == s
            &&& !next.listening
            &&& t.phase == Phase::AwaitSettings ==> next.pending() == Action::WaitLatch
                && next.slots == t.slots
            &&& t.phase == Phase::DrainSettings ==> next.pending() == Action::PollSettings
                && next.slots.len() == 4 && forall|j: int|
                0 <= j < 4 ==> (#[trigger] next.slots[j]) is None
        }),
{
}

/// Nothing but settings that come while the task waits or looks for them changes its settings.
/// The listener is opened on the port of the settings; it counts as open when that succeeded, and
/// as closed from new settings on.
pub proof fn law_listener_follows_settings(t: TcpState, event: Event, now: u64)
    requires
        listener_matches(t),
    ensures
        ({
            let next = t.after(event, now).0;
            &&& listener_matches(next)
            &&& next.settings != t.settings ==> (t.phase == Phase::AwaitSettings || t.phase
                == Phase::DrainSettings) && event == Event::Settings(Received::Got(next.settings))
            &&& !t.listening && next.listening ==> t.pending() == (Action::OpenListener {
                port: t.settings.port,
            }) && event == Event::Opened(true) && next.settings == t.settings
            &&& t.listening && !next.listening ==> event == Event::Settings(
                Received::Got(next.settings),
            )
        }),
{
}

/// The start of the server: it waits for settings in turns of a second, then for the latch, and
/// listens on the port of its settings; where it cannot, it waits for other settings. It is over
/// when no settings can come.
pub proof fn law_server_starts_on_its_port(t: TcpState, now: u64)
    requires
        t.consistent(),
    ensures
        t.phase == Phase::AwaitSettings ==> {
            &&& t.pending() == (Action::WaitSettings { millis: 1000 })
            &&& t.after(Event::Settings(Received::Nothing), now).0 == t
            &&& t.after(Event::Settings(Received::Closed), now).0.pending() == Action::Stop
        },
        t.phase == Phase::Latch ==> t.after(Event::LatchOpen, now).0 == (TcpState {
            phase: Phase::Open,
            ..t
        }),
        t.phase == Phase::Open ==> {
            let (opened, no_report) = t.after(Event::Opened(true), now);
            let (refused, nothing) = t.after(Event::Opened(false), now);
            &&& t.pending() == (Action::OpenListener { port: t.settings.port })
            &&& opened.listening
            &&& opened.pending() == Action::PollSettings
            &&& opened.settings == t.settings
            &&& opened.slots == t.slots
            &&& no_report.len() == 0
            &&& refused.listening == t.listening
            &&& refused.pending() == (Action::WaitSettings { millis: 1000 })
            &&& refused.slots == t.slots
            &&& nothing.len() == 0
        },
{
}

/// A round begins with settings, goes on with resets, and then with commands; it ends with a
/// sleep of 5 milliseconds, after which the next round begins, or the listener is opened anew
/// where there is none.
pub proof fn law_round_is_in_order(t: TcpState, got: bool, now: u64)
    requires
        t.consistent(),
    ensures
        t.phase == Phase::DrainSettings ==> ({
            let (next, reports) = t.after(Event::Settings(Received::Nothing), now);
            &&& next == TcpState { phase: Phase::DrainResets { got: false }, ..t }
            &&& next.pending() == Action::PollReset
            &&& reports.len() == 0
            &&& t.after(Event::Settings(Received::Closed), now) == (next, reports)
        }),
        t.phase == (Phase::DrainResets { got }) ==> ({
            let (again, nothing) = t.after(Event::Reset(true), now);
            let (next, reports) = t.after(Event::Reset(false), now);
            &&& again == TcpState { phase: Phase::DrainResets { got: true }, ..t }
            &&& again.pending() == Action::PollReset
            &&& nothing.len() == 0
            &&& next.pending() == Action::PollCommand
            &&& same_listener(next, t)
            &&& !got ==> next.slots == t.slots && reports.len() == 0
            &&& got ==> next.slots.len() == 4 && forall|j: int|
                0 <= j < 4 ==> (#[trigger] next.slots[j]) is None
        }),
        t.phase == Phase::Sleep ==> ({
            let (next, reports) = t.after(Event::Slept, now);
            &&& t.pending() == (Action::Sleep { millis: 5 })
            &&& next.pending() == (if t.listening {
                Action::PollSettings
            } else {
                Action::WaitLatch
            })
            &&& same_listener(next, t)
            &&& next.slots == t.slots
            &&& reports.len() == 0
        }),
{
}

proof fn lemma_drop_reports(
    slots: Seq<Option<u64>>,
    count: nat,
    reason: TcpDisconnectReason,
    k: int,
)
    requires
        count <= 4,
        slots.len() == 4,
        0 <= k < tcp_slots::drop_reports(slots, count, reason).len(),
    ensures
        ({
            let reports = tcp_slots::drop_reports(slots, count, reason);
            &&& reports[k] is Disconnected
            &&& reports[k]->reason == reason
            &&& reports[k]->Disconnected_index < count
            &&& slots[reports[k]->Disconnected_index as int] is Some
            &&& k > 0 ==> reports[k - 1]->Disconnected_index < reports[k]->Disconnected_index
        }),
    decreases count,
{
    if count > 0 {
        let before = tcp_slots::drop_reports(slots, (count - 1) as nat, reason);
        let reports = tcp_slots::drop_reports(slots, count, reason);
        if slots[count - 1] is Some {
            if k < before.len() {
                lemma_drop_reports(slots, (count - 1) as nat, reason, k);
            } else if k > 0 {
                lemma_drop_reports(slots, (count - 1) as nat, reason, k - 1);
            }
        } else {
            lemma_drop_reports(slots, (count - 1) as nat, reason, k);
        }
    }
}

/// Where new settings or a reset drop all clients, each of them is reported once, in the order of
/// the slots, as closed by the server.
pub proof fn law_dropped_clients_are_reported(
    t: TcpState,
    s: TcpServerSettings,
    now: u64,
    k: int,
    i: int,
)
    requires
        t.consistent(),
        t.phase == Phase::DrainSettings || t.phase == (Phase::DrainResets { got: true }),
    ensures
        ({
            let reports = t.after(
                if t.phase == Phase::DrainSettings {
                    Event::Settings(Received::Got(s))
                } else {
                    Event::Reset(false)
                },
                now,
            ).1;
            &&& 0 <= k < reports.len() ==> {
                &&& reports[k] is Disconnected
                &&& reports[k]->reason == TcpDisconnectReason::ServerClosedConnection
                &&& reports[k]->Disconnected_index < 4
                &&& t.slots[reports[k]->Disconnected_index as int] is Some
                &&& k > 0 ==> reports[k - 1]->Disconnected_index < reports[k]->Disconnected_index
            }
            &&& 0 <= i < 4 && t.slots[i] is Some ==> tcp_server_laws::says_gone(reports, i)
        }),
{
    let event = if t.phase == Phase::DrainSettings {
        Event::Settings(Received::Got(s))
    } else {
        Event::Reset(false)
    };
    let reports = t.after(event, now).1;
    if 0 <= k < reports.len() {
        lemma_drop_reports(t.slots, 4, TcpDisconnectReason::ServerClosedConnection, k);
    }
    if 0 <= i < 4 {
        tcp_server_laws::law_reports_match_slots(t, event, now, i);
    }
}

/// Reports are queued in order: those of one list come after those of the list before it.
pub proof fn law_reports_are_queued_in_order(
    outbox: Seq<Seq<u8>>,
    first: Seq<TcpReport>,
    second: Seq<TcpReport>,
)
    ensures
        tcp_slots::all_reported(outbox, Seq::empty()) == outbox,
        tcp_slots::all_reported(outbox, first + second) == tcp_slots::all_reported(
            tcp_slots::all_reported(outbox, first),
            second,
        ),
    decreases second.len(),
{
    if second.len() == 0 {
        assert(first + second =~= first);
    } else {
        law_reports_are_queued_in_order(outbox, first, second.drop_last());
        assert((first + second).drop_last() =~= first + second.drop_last());
        assert((first + second).last() == second.last());
    }
}

/// The report of a new client is one frame of the TCP server with the slot, the address and the
/// port of the client. An address takes at most 45 bytes as a text.
pub proof fn law_connected_report(
    outbox: Seq<Seq<u8>>,
    index: u8,
    remote_ip: String,
    remote_port: u16,
)
    requires
        crate::text::byte_len(remote_ip@) <= 45,
    ensures
        ({
            let queue = tcp_slots::all_reported(
                outbox,
                seq![TcpReport::Connected { index, remote_ip, remote_port }],
            );
            let record = (TcpConnectedPayload { connected: true, index, remote_ip, remote_port }).value();
            &&& queue.len() == outbox.len() + 1
            &&& queue.drop_last() == outbox
            &&& protocol::frame_content(queue.last()) == Ok::<Content, PacketError>(
                Content { cmd: 5, parameter: 2, payload: msgpack::encode(record) },
            )
        }),
{
    let reports = seq![TcpReport::Connected { index, remote_ip, remote_port }];
    assert(reports.drop_last() =~= Seq::empty());
    reveal_with_fuel(tcp_slots::all_reported, 2);
    tcp_server_laws::law_slot_reports_fit(index, TcpDisconnectReason::Undefined, remote_ip, remote_port);
    let record = (TcpConnectedPayload { connected: true, index, remote_ip, remote_port }).value();
    record_laws::law_state_frames(
        crate::master::messages::interface_settings::InterfaceType::Ethernet,
        ServiceType::TcpServer,
        record,
    );
    assert(tcp_slots::all_reported(outbox, reports).drop_last() =~= outbox);
}

/// The report of a slot without client is one frame of the TCP server with the slot and the
/// reason.
pub proof fn law_disconnected_report(outbox: Seq<Seq<u8>>, index: u8, reason: TcpDisconnectReason)
    ensures
        ({
            let queue = tcp_slots::all_reported(
                outbox,
                seq![TcpReport::Disconnected { index, reason }],
            );
            let record = (TcpDisconnectedPayload {
                connected: false,
                index,
                reason: reason.code(),
            }).value();
            &&& queue.len() == outbox.len() + 1
            &&& queue.drop_last() == outbox
            &&& protocol::frame_content(queue.last()) == Ok::<Content, PacketError>(
                Content { cmd: 5, parameter: 2, payload: msgpack::encode(record) },
            )
        }),
{
    let reports = seq![TcpReport::Disconnected { index, reason }];
    assert(reports.drop_last() =~= Seq::empty());
    reveal_with_fuel(tcp_slots::all_reported, 2);
    tcp_server_laws::lemma_gone_len(index, reason);
    let record = (TcpDisconnectedPayload { connected: false, index, reason: reason.code() }).value();
    record_laws::law_state_frames(
        crate::master::messages::interface_settings::InterfaceType::Ethernet,
        ServiceType::TcpServer,
        record,
    );
    assert(tcp_slots::all_reported(outbox, reports).drop_last() =~= outbox);
}

/// Bytes of a client are cut as late as can be: every piece but the last has 1500 bytes, and the
/// last is empty only where there are no bytes at all.
pub proof fn law_pieces_are_full(payload: Seq<u8>, i: int)
    requires
        0 <= i < tcp_slots::pieces(payload).len(),
    ensures
        i + 1 < tcp_slots::pieces(payload).len() ==> tcp_slots::pieces(payload)[i].len() == 1500,
        tcp_slots::pieces(payload)[i].len() <= 1500,
        payload.len() > 0 ==> tcp_slots::pieces(payload)[i].len() > 0,
        tcp_slots::pieces(payload)[i] == payload.subrange(
            1500 * i,
            1500 * i + tcp_slots::pieces(payload)[i].len(),
        ),
        1500 * i + tcp_slots::pieces(payload)[i].len() <= payload.len(),
    decreases payload.len(),
{
    let all = tcp_slots::pieces(payload);
    if payload.len() > 1500 {
        let tail = payload.skip(1500);
        let rest = tcp_slots::pieces(tail);
        assert(all == seq![payload.take(1500)] + rest);
        if i > 0 {
            law_pieces_are_full(tail, i - 1);
            assert(all[i] == rest[i - 1]);
            assert(all[i] =~= payload.subrange(1500 * i, 1500 * i + all[i].len()));
        } else {
            assert(all[0] =~= payload.subrange(0, 1500));
        }
    } else {
        assert(all[0] =~= payload.subrange(0, payload.len() as int));
    }
}

proof fn lemma_pieces_queued(outbox: Seq<Seq<u8>>, index: u8, list: Seq<Seq<u8>>)
    requires
        index < 4,
        forall|i: int| 0 <= i < list.len() ==> (#[trigger] list[i]).len() <= 1500,
    ensures
        ({
            let queue = tcp_slots::pieces_queued(outbox, index, list);
            &&& queue.len() == outbox.len() + list.len()
            &&& queue.take(outbox.len() as int) == outbox
            &&& forall|i: int|
                0 <= i < list.len() ==> protocol::frame_content(
                    #[trigger] queue[outbox.len() + i],
                ) == Ok::<Content, PacketError>(
                    Content { cmd: 7, parameter: index, payload: list[i] },
                )
        }),
    decreases list.len(),
{
    let queue = tcp_slots::pieces_queued(outbox, index, list);
    if list.len() == 0 {
        assert(queue.take(outbox.len() as int) =~= outbox);
    } else {
        record_laws::law_data_frame(index, list[0]);
        let one = tcp_slots::piece_queued(outbox, index, list[0]);
        let rest = list.skip(1);
        assert forall|i: int| 0 <= i < rest.len() implies (#[trigger] rest[i]).len() <= 1500 by {
            assert(rest[i] == list[i + 1]);
        }
        lemma_pieces_queued(one, index, rest);
        assert(one == outbox.push(tcp_data::data_frame(index, list[0])->Ok_0));
        assert(queue.take(one.len() as int) == one);
        assert forall|i: int| 0 <= i < list.len() implies protocol::frame_content(
            #[trigger] queue[outbox.len() + i],
        ) == Ok::<Content, PacketError>(
            Content { cmd: 7, parameter: index, payload: list[i] },
        ) by {
            if i == 0 {
                assert(queue[outbox.len() as int] == queue.take(one.len() as int)[outbox.len() as int]);
            } else {
                assert(rest[i - 1] == list[i]);
                assert(queue[one.len() + (i - 1)] == queue[outbox.len() + i]);
            }
        }
        assert(queue.take(outbox.len() as int) =~= outbox) by {
            assert forall|j: int| 0 <= j < outbox.len() implies queue[j] == outbox[j] by {
                assert(queue[j] == queue.take(one.len() as int)[j]);
            }
        }
    }
}

/// Bytes of a client are queued behind what is queued before, one frame for each piece, in order
/// and under the number of the slot.
pub proof fn law_data_report(outbox: Seq<Seq<u8>>, index: u8, payload: Seq<u8>)
    requires
        index < 4,
    ensures
        ({
            let queue = tcp_slots::all_reported(outbox, seq![TcpReport::Data { index, payload }]);
            let list = tcp_slots::pieces(payload);
            &&& queue.len() == outbox.len() + list.len()
            &&& queue.take(outbox.len() as int) == outbox
            &&& forall|i: int|
                0 <= i < list.len() ==> protocol::frame_content(
                    #[trigger] queue[outbox.len() + i],
                ) == Ok::<Content, PacketError>(
                    Content { cmd: 7, parameter: index, payload: list[i] },
                )
        }),
{
    let reports = seq![TcpReport::Data { index, payload }];
    assert(reports.drop_last() =~= Seq::empty());
    reveal_with_fuel(tcp_slots::all_reported, 2);
    let list = tcp_slots::pieces(payload);
    assert forall|i: int| 0 <= i < list.len() implies (#[trigger] list[i]).len() <= 1500 by {
        law_pieces_are_full(payload, i);
    }
    lemma_pieces_queued(outbox, index, list);
}

} // verus!
