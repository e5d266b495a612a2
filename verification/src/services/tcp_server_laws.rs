//! What holds of the TCP server task from one call to the next.

use vstd::prelude::*;

use crate::master::messages::service_settings::TcpServerSettings;
use crate::master::messages::payload::Payload;
use crate::master::messages::service_state::{
    TcpConnectedPayload, TcpDisconnectReason, TcpDisconnectedPayload,
};
use crate::master::messages::tcp_command::{TcpCommandMessage, TcpCommandPayload};
use crate::msgpack;
use crate::msgpack_laws;
use crate::network::tasks::Received;
use crate::services::tcp_server::{Action, Event, Phase, TcpState};
use crate::services::tcp_slots;
use crate::services::tcp_slots::{ReadOutcome, MAX_CLIENTS};
use crate::system::wdt::TASK_WDT_TIMEOUT_SECS;
use crate::text;

verus! {

proof fn lemma_free_from(slots: Seq<Option<u64>>, from: int)
    requires
        0 <= from,
    ensures
        tcp_slots::free_from(slots, from) matches Some(i) ==> from <= i < slots.len()
            && slots[i] is None,
        tcp_slots::free_from(slots, from) is None ==> forall|i: int|
            from <= i < slots.len() ==> (#[trigger] slots[i]) is Some,
    decreases slots.len() - from,
{
    if from < slots.len() && slots[from] is Some {
        lemma_free_from(slots, from + 1);
    }
}

proof fn lemma_taken_from(slots: Seq<Option<u64>>, from: int)
    requires
        0 <= from,
    ensures
        tcp_slots::taken_from(slots, from) matches Some(i) ==> from <= i < slots.len()
            && slots[i] is Some,
    decreases slots.len() - from,
{
    if from < slots.len() && slots[from] is None {
        lemma_taken_from(slots, from + 1);
    }
}

/// Whatever a call gives, the task stays consistent.
pub proof fn law_task_stays_consistent(t: TcpState, event: Event, now: u64)
    requires
        t.consistent(),
    ensures
        t.after(event, now).0.consistent(),
{
    lemma_free_from(t.slots, 0);
    lemma_taken_from(t.slots, 0);
    if let Phase::Reading { slot } = t.phase {
        lemma_taken_from(t.slots, slot + 1);
        lemma_taken_from(t.with_slot(slot as int, None).slots, slot + 1);
    }
}

/// The report that a client took slot `i` is among the reports.
pub open spec fn says_connected(reports: Seq<tcp_slots::TcpReport>, i: int) -> bool {
    exists|k: int|
        0 <= k < reports.len() && (#[trigger] reports[k]) is Connected && reports[k]->Connected_index
            == i
}

/// The report that the client of slot `i` is gone is among the reports.
pub open spec fn says_gone(reports: Seq<tcp_slots::TcpReport>, i: int) -> bool {
    exists|k: int|
        0 <= k < reports.len() && (#[trigger] reports[k]) is Disconnected
            && reports[k]->Disconnected_index == i && reports[k]->reason
            != TcpDisconnectReason::NotConnected
}

/// The report that slot `i` has no client to send data to, or to close, is among the reports.
pub open spec fn says_not_connected(reports: Seq<tcp_slots::TcpReport>, i: int) -> bool {
    exists|k: int|
        0 <= k < reports.len() && (#[trigger] reports[k]) is Disconnected
            && reports[k]->Disconnected_index == i && reports[k]->reason
            == TcpDisconnectReason::NotConnected
}

/// The keys of the records are short.
proof fn lemma_keys()
    ensures
        text::byte_len("connected"@) <= 15,
        text::byte_len("index"@) <= 15,
        text::byte_len("reason"@) <= 15,
        text::byte_len("remoteIp"@) <= 15,
        text::byte_len("remotePort"@) <= 15,
{
    reveal_strlit("connected");
    msgpack_laws::lemma_key_len("connected");
    reveal_strlit("index");
    msgpack_laws::lemma_key_len("index");
    reveal_strlit("reason");
    msgpack_laws::lemma_key_len("reason");
    reveal_strlit("remoteIp");
    msgpack_laws::lemma_key_len("remoteIp");
    reveal_strlit("remotePort");
    msgpack_laws::lemma_key_len("remotePort");
}

proof fn lemma_drop_reports(
    slots: Seq<Option<u64>>,
    count: nat,
    reason: TcpDisconnectReason,
    i: int,
)
    requires
        count <= MAX_CLIENTS,
        slots.len() == MAX_CLIENTS,
        reason != TcpDisconnectReason::NotConnected,
        0 <= i < MAX_CLIENTS,
    ensures
        !says_connected(tcp_slots::drop_reports(slots, count, reason), i),
        !says_not_connected(tcp_slots::drop_reports(slots, count, reason), i),
        says_gone(tcp_slots::drop_reports(slots, count, reason), i) <==> i < count
            && slots[i] is Some,
    decreases count,
{
    if count > 0 {
        let before = tcp_slots::drop_reports(slots, (count - 1) as nat, reason);
        let reports = tcp_slots::drop_reports(slots, count, reason);
        lemma_drop_reports(slots, (count - 1) as nat, reason, i);
        if slots[count - 1] is Some {
            assert(reports.last() is Disconnected);
            assert forall|k: int| 0 <= k < before.len() implies #[trigger] reports[k] == before[k] by {}
            if i == count - 1 {
                assert(reports[reports.len() - 1] is Disconnected);
            } else if says_gone(before, i) {
                let k = choose|k: int|
                    0 <= k < before.len() && (#[trigger] before[k]) is Disconnected
                        && before[k]->Disconnected_index == i && before[k]->reason
                        != TcpDisconnectReason::NotConnected;
                assert(reports[k] == before[k]);
            }
        }
    }
}

/// The outcome is an operation of the master on slot `i`: data for its client, or the command to
/// close it.
pub open spec fn operates_on(t: TcpState, event: Event, i: int) -> bool {
    match (t.phase, event) {
        (Phase::DrainData, Event::Data(Some(index))) => index == i,
        (Phase::DrainCommands, Event::Command(Some(message))) => message.command.close
            && message.index == i,
        _ => false,
    }
}

/// The master always knows which slots have a client: it is told of a new client exactly when a
/// free slot is taken, and of a client that is gone exactly when a taken slot becomes free. It
/// is told that a slot has no client exactly when it operates on one that is free; such a slot
/// stays free.
pub proof fn law_reports_match_slots(t: TcpState, event: Event, now: u64, i: int)
    requires
        t.consistent(),
        0 <= i < MAX_CLIENTS,
    ensures
        ({
            let (next, reports) = t.after(event, now);
            &&& says_connected(reports, i) <==> t.slots[i] is None && next.slots[i] is Some
            &&& says_gone(reports, i) <==> t.slots[i] is Some && next.slots[i] is None
            &&& says_not_connected(reports, i) <==> t.slots[i] is None && operates_on(t, event, i)
            &&& operates_on(t, event, i) && t.slots[i] is None ==> next == t
        }),
{
    lemma_free_from(t.slots, 0);
    lemma_drop_reports(
        t.slots,
        MAX_CLIENTS as nat,
        TcpDisconnectReason::ServerClosedConnection,
        i,
    );
    let (next, reports) = t.after(event, now);
    if reports.len() == 1 {
        let only = reports[0];
        assert(says_connected(reports, i) <==> only is Connected && only->Connected_index == i);
        assert(says_gone(reports, i) <==> only is Disconnected && only->Disconnected_index == i
            && only->reason != TcpDisconnectReason::NotConnected);
        assert(says_not_connected(reports, i) <==> only is Disconnected
            && only->Disconnected_index == i && only->reason == TcpDisconnectReason::NotConnected);
    }
}

/// A new client is turned away only if all slots are taken, or if its connection could not be
/// set up.
pub proof fn law_client_is_turned_away_only_when_full(
    t: TcpState,
    client: crate::services::tcp_server::Incoming,
    now: u64,
)
    requires
        t.consistent(),
        t.phase == Phase::Accept,
        client.ready,
        t.after(Event::Incoming(Some(client)), now).0.slots == t.slots,
    ensures
        forall|i: int| 0 <= i < MAX_CLIENTS ==> (#[trigger] t.slots[i]) is Some,
{
    lemma_free_from(t.slots, 0);
    if let Some(i) = tcp_slots::free_from(t.slots, 0) {
        assert(t.slots.update(i, Some(now))[i] is Some);
    }
}

/// New settings, and a reset of the network, leave no client connected.
pub proof fn law_reset_drops_every_client(t: TcpState, settings: TcpServerSettings, now: u64)
    requires
        t.consistent(),
    ensures
        t.phase == (Phase::DrainResets { got: true }) ==> t.after(Event::Reset(false), now).0.slots
            == tcp_slots::all_free(),
        t.phase == Phase::DrainSettings ==> t.after(
            Event::Settings(Received::Got(settings)),
            now,
        ).0.slots == tcp_slots::all_free(),
{
}

/// Without a timeout a client is never dropped for being silent; with one it is dropped at the
/// first look after it was silent for longer.
pub proof fn law_silent_client_is_dropped_by_timeout(t: TcpState, slot: usize, now: u64)
    requires
        t.consistent(),
        t.phase == (Phase::Reading { slot }),
    ensures
        ({
            let next = t.after(Event::Read(ReadOutcome::Nothing), now).0;
            next.slots[slot as int] is None <==> t.settings.client_timeout != 0 && now
                - t.slots[slot as int]->0 > 1000 * t.settings.client_timeout
        }),
{
}

pub proof fn lemma_gone_len(index: u8, reason: TcpDisconnectReason)
    ensures
        tcp_slots::disconnected_frame(index, reason) is Ok,
{
    lemma_keys();
    let gone = (TcpDisconnectedPayload { connected: false, index, reason: reason.code() }).value();
    let entries = gone->Table_0;
    msgpack_laws::lemma_value_len(entries[0].1);
    msgpack_laws::lemma_value_len(entries[1].1);
    msgpack_laws::lemma_value_len(entries[2].1);
    msgpack_laws::lemma_entries_len(entries, 50);
    assert(msgpack::encode(gone).len() <= 5 + 3 * 70);
}

proof fn lemma_come_len(index: u8, remote_ip: String, remote_port: u16)
    requires
        text::byte_len(remote_ip@) <= 45,
    ensures
        tcp_slots::connected_frame(index, remote_ip, remote_port) is Ok,
{
    lemma_keys();
    let come = (TcpConnectedPayload { connected: true, index, remote_ip, remote_port }).value();
    let entries = come->Table_0;
    msgpack_laws::lemma_value_len(entries[0].1);
    msgpack_laws::lemma_value_len(entries[1].1);
    msgpack_laws::lemma_value_len(entries[2].1);
    msgpack_laws::lemma_value_len(entries[3].1);
    msgpack_laws::lemma_entries_len(entries, 50);
    assert(msgpack::encode(come).len() <= 5 + 4 * 70);
}

/// The master is told of every client that comes and of every slot without client: the frames
/// always fit. The text of an address takes at most 45 bytes.
pub proof fn law_slot_reports_fit(
    index: u8,
    reason: TcpDisconnectReason,
    remote_ip: String,
    remote_port: u16,
)
    ensures
        tcp_slots::disconnected_frame(index, reason) is Ok,
        text::byte_len(remote_ip@) <= 45 ==> tcp_slots::connected_frame(
            index,
            remote_ip,
            remote_port,
        ) is Ok,
{
    lemma_gone_len(index, reason);
    if text::byte_len(remote_ip@) <= 45 {
        lemma_come_len(index, remote_ip, remote_port);
    }
}

/// A command to close drops the client of its slot, and of no other slot.
pub proof fn law_close_drops_its_client(t: TcpState, index: u8, now: u64)
    requires
        t.consistent(),
        t.phase == Phase::DrainCommands,
        index < MAX_CLIENTS,
    ensures
        ({
            let close = TcpCommandMessage { index, command: TcpCommandPayload { close: true } };
            let keep = TcpCommandMessage { index, command: TcpCommandPayload { close: false } };
            &&& t.after(Event::Command(Some(close)), now).0.slots == t.slots.update(
                index as int,
                None,
            )
            &&& t.after(Event::Command(Some(keep)), now).0 == t
        }),
{
    assert(t.slots[index as int] is None ==> t.slots.update(index as int, None) =~= t.slots);
}

/// The outcomes that belong to a call.
pub open spec fn answers(event: Event, action: Action) -> bool {
    match action {
        Action::WaitSettings { .. } => event is Settings,
        Action::WaitLatch => event is LatchOpen,
        Action::OpenListener { .. } => event is Opened,
        Action::PollSettings => event is Settings,
        Action::PollReset => event is Reset,
        Action::PollCommand => event is Command,
        Action::PollData => event is Data,
        Action::Write { .. } => event is Written,
        Action::Accept => event is Incoming,
        Action::Read { .. } => event is Read,
        Action::Sleep { .. } => event is Slept,
        Action::Stop => false,
    }
}

/// An outcome that does not belong to the call changes nothing; a task that has stopped stays so.
pub proof fn law_outcome_belongs_to_call(t: TcpState, event: Event, now: u64)
    ensures
        !answers(event, t.pending()) ==> t.after(event, now) == (
            t,
            Seq::<tcp_slots::TcpReport>::empty(),
        ),
        t.phase == Phase::Stopped ==> t.after(event, now).0 == t,
{
}

/// A task that is over has left the watchdog. While it is under the watchdog, every wait is
/// shorter than the watchdog's time.
pub proof fn law_task_feeds_its_watchdog(t: TcpState)
    ensures
        t.phase == Phase::Stopped ==> !t.pending().under_watch(),
        t.pending() matches Action::WaitSettings { millis } ==> millis < 1000
            * TASK_WDT_TIMEOUT_SECS,
        t.pending() matches Action::Sleep { millis } ==> millis < 1000 * TASK_WDT_TIMEOUT_SECS,
{
}

} // verus!
