//! The client slots of the TCP server.

use vstd::prelude::*;
use vstd::slice::slice_subrange;

use crate::bytes;
use crate::master::messages::payload::Payload;
use crate::master::messages::service_settings::ServiceType;
use crate::master::messages::service_state;
use crate::master::messages::service_state::{
    TcpConnectedPayload, TcpDisconnectReason, TcpDisconnectedPayload,
};
use crate::master::messages::tcp_data;
use crate::master::protocol;
use crate::master::protocol::{PacketError, MAX_PAYLOAD_SIZE};
use crate::network::wifi::state;

verus! {

/// Clients that can be connected at the same time.
pub const MAX_CLIENTS: usize = 4;

/// For each slot the time of the last activity of its client, or nothing if it is free.
pub struct TcpSlots {
    slots: Vec<Option<u64>>,
}

impl View for TcpSlots {
    type V = Seq<Option<u64>>;

    closed spec fn view(&self) -> Seq<Option<u64>> {
        self.slots@
    }
}

/// The frame that tells the master of a new client.
pub open spec fn connected_frame(index: u8, remote_ip: String, remote_port: u16) -> Result<
    Seq<u8>,
    PacketError,
> {
    service_state::state_frame(
        ServiceType::TcpServer,
        (TcpConnectedPayload { connected: true, index, remote_ip, remote_port }).value(),
    )
}

/// The frame that tells the master of a slot without client.
pub open spec fn disconnected_frame(index: u8, reason: TcpDisconnectReason) -> Result<
    Seq<u8>,
    PacketError,
> {
    service_state::state_frame(
        ServiceType::TcpServer,
        (TcpDisconnectedPayload { connected: false, index, reason: reason.code() }).value(),
    )
}

/// Queues a frame for the master; one that could not be built is dropped.
pub fn send_service_state(outbox: &mut Vec<Vec<u8>>, frame_result: Result<Vec<u8>, PacketError>)
    ensures
        bytes::views(final(outbox)@) == state::queued(
            bytes::views(old(outbox)@),
            protocol::bytes_of(frame_result),
        ),
{
    match frame_result {
        Ok(frame) => {
            let ghost this = frame@;
            outbox.push(frame);
            assert(bytes::views(outbox@) =~= bytes::views(old(outbox)@).push(this));
        },
        Err(_) => {},
    }
}

/// Bytes cut into pieces that fit a frame: each but the last as long as a frame allows.
pub open spec fn pieces(payload: Seq<u8>) -> Seq<Seq<u8>>
    decreases payload.len(),
{
    if payload.len() <= MAX_PAYLOAD_SIZE {
        seq![payload]
    } else {
        seq![payload.take(MAX_PAYLOAD_SIZE as int)] + pieces(payload.skip(MAX_PAYLOAD_SIZE as int))
    }
}

/// The queue after one piece was passed on.
pub open spec fn piece_queued(outbox: Seq<Seq<u8>>, index: u8, piece: Seq<u8>) -> Seq<Seq<u8>> {
    match tcp_data::data_frame(index, piece) {
        Ok(frame) => outbox.push(frame),
        Err(_) => outbox,
    }
}

/// The queue after pieces were passed on one after another.
pub open spec fn pieces_queued(outbox: Seq<Seq<u8>>, index: u8, pieces: Seq<Seq<u8>>) -> Seq<Seq<u8>>
    decreases pieces.len(),
{
    if pieces.len() == 0 {
        outbox
    } else {
        pieces_queued(piece_queued(outbox, index, pieces[0]), index, pieces.skip(1))
    }
}

/// The queue after bytes of a client were passed on.
pub open spec fn data_queued(outbox: Seq<Seq<u8>>, index: u8, payload: Seq<u8>) -> Seq<Seq<u8>> {
    pieces_queued(outbox, index, pieces(payload))
}

fn send_piece(outbox: &mut Vec<Vec<u8>>, index: u8, piece: &[u8])
    ensures
        bytes::views(final(outbox)@) == piece_queued(bytes::views(old(outbox)@), index, piece@),
{
    match tcp_data::encode(index, piece) {
        Ok(frame) => {
            let ghost this = frame@;
            outbox.push(frame);
            assert(bytes::views(outbox@) =~= bytes::views(old(outbox)@).push(this));
        },
        Err(_) => {},
    }
}

/// Passes bytes of a client on to the master, in as many frames as they need.
pub fn send_tcp_data_upstream(outbox: &mut Vec<Vec<u8>>, index: u8, payload: &[u8])
    ensures
        bytes::views(final(outbox)@) == data_queued(bytes::views(old(outbox)@), index, payload@),
{
    let mut start: usize = 0;
    assert(payload@.skip(0) =~= payload@);
    while payload.len() - start > MAX_PAYLOAD_SIZE
        invariant
            start <= payload@.len(),
            data_queued(bytes::views(old(outbox)@), index, payload@) == data_queued(
                bytes::views(outbox@),
                index,
                payload@.skip(start as int),
            ),
        decreases payload@.len() - start,
    {
        let ghost rest = payload@.skip(start as int);
        let ghost later = pieces(rest.skip(MAX_PAYLOAD_SIZE as int));
        let piece = slice_subrange(payload, start, start + MAX_PAYLOAD_SIZE);
        assert(piece@ =~= rest.take(MAX_PAYLOAD_SIZE as int));
        send_piece(outbox, index, piece);
        proof {
            assert((seq![piece@] + later).skip(1) =~= later);
            assert(payload@.skip(start + MAX_PAYLOAD_SIZE) =~= rest.skip(MAX_PAYLOAD_SIZE as int));
        }
        start = start + MAX_PAYLOAD_SIZE;
    }
    let last = slice_subrange(payload, start, payload.len());
    assert(last@ =~= payload@.skip(start as int));
    send_piece(outbox, index, last);
    assert(seq![last@].skip(1) =~= Seq::empty());
    reveal_with_fuel(pieces_queued, 2);
}

/// Bytes of a client arrive whole: the pieces put together are the bytes, and each of them fits
/// a frame of its own.
pub proof fn law_data_arrives_whole(index: u8, payload: Seq<u8>)
    requires
        index < MAX_CLIENTS,
    ensures
        pieces(payload).flatten() == payload,
        forall|i: int|
            0 <= i < pieces(payload).len() ==> tcp_data::data_frame(
                index,
                #[trigger] pieces(payload)[i],
            ) is Ok,
    decreases payload.len(),
{
    if payload.len() <= MAX_PAYLOAD_SIZE {
        let one = seq![payload];
        assert(one.drop_first() =~= Seq::empty());
        assert(one.drop_first().flatten() =~= Seq::empty());
        assert(one.flatten() =~= payload);
    } else {
        let head = payload.take(MAX_PAYLOAD_SIZE as int);
        let tail = payload.skip(MAX_PAYLOAD_SIZE as int);
        law_data_arrives_whole(index, tail);
        let all = pieces(payload);
        assert(all.drop_first() =~= pieces(tail));
        assert(all.flatten() == head + pieces(tail).flatten());
        assert(head + tail =~= payload);
        assert forall|i: int| 0 <= i < all.len() implies tcp_data::data_frame(
            index,
            #[trigger] all[i],
        ) is Ok by {
            if i > 0 {
                assert(all[i] == pieces(tail)[i - 1]);
            }
        }
    }
}

/// The first free slot from `from` on.
pub open spec fn free_from(slots: Seq<Option<u64>>, from: int) -> Option<int>
    decreases slots.len() - from,
{
    if from >= slots.len() {
        None
    } else if slots[from] is None {
        Some(from)
    } else {
        free_from(slots, from + 1)
    }
}

/// The first slot with a client from `from` on.
pub open spec fn taken_from(slots: Seq<Option<u64>>, from: int) -> Option<int>
    decreases slots.len() - from,
{
    if from >= slots.len() {
        None
    } else if slots[from] is Some {
        Some(from)
    } else {
        taken_from(slots, from + 1)
    }
}

/// What the master is told of the slots.
pub enum TcpReport {
    /// A client took a slot.
    Connected { index: u8, remote_ip: String, remote_port: u16 },
    /// A slot has no client any more, or had none.
    Disconnected { index: u8, reason: TcpDisconnectReason },
    /// Bytes of a client.
    Data { index: u8, payload: Seq<u8> },
}

/// The queue after a report.
pub open spec fn reported(outbox: Seq<Seq<u8>>, report: TcpReport) -> Seq<Seq<u8>> {
    match report {
        TcpReport::Connected { index, remote_ip, remote_port } => state::queued(
            outbox,
            connected_frame(index, remote_ip, remote_port),
        ),
        TcpReport::Disconnected { index, reason } => state::queued(
            outbox,
            disconnected_frame(index, reason),
        ),
        TcpReport::Data { index, payload } => data_queued(outbox, index, payload),
    }
}

/// The queue after reports that follow each other.
pub open spec fn all_reported(outbox: Seq<Seq<u8>>, reports: Seq<TcpReport>) -> Seq<Seq<u8>>
    decreases reports.len(),
{
    if reports.len() == 0 {
        outbox
    } else {
        reported(all_reported(outbox, reports.drop_last()), reports.last())
    }
}

/// The reports of dropping every client of the first `count` slots.
pub open spec fn drop_reports(
    slots: Seq<Option<u64>>,
    count: nat,
    reason: TcpDisconnectReason,
) -> Seq<TcpReport>
    decreases count,
{
    if count == 0 {
        Seq::empty()
    } else if slots[count - 1] is Some {
        drop_reports(slots, (count - 1) as nat, reason).push(
            TcpReport::Disconnected { index: (count - 1) as u8, reason },
        )
    } else {
        drop_reports(slots, (count - 1) as nat, reason)
    }
}

/// Slots without any client.
pub open spec fn all_free() -> Seq<Option<u64>> {
    Seq::new(MAX_CLIENTS as nat, |i: int| None::<u64>)
}

/// What reading from a client gave.
#[derive(Debug)]
pub enum ReadOutcome {
    /// Some bytes.
    Data(Vec<u8>),
    /// The client has closed the connection.
    Closed,
    /// Nothing for now.
    Nothing,
    Failed,
}

/// Whether a client that was last active at `last` is dropped at `now`: it was silent for more
/// than the timeout, which is in seconds; 0 is no timeout.
pub open spec fn timed_out(last: u64, now: u64, timeout_secs: u16) -> bool {
    timeout_secs > 0 && now - last > 1000 * timeout_secs
}

/// Why a client is dropped after a read, if it is.
pub open spec fn drop_reason(
    outcome: ReadOutcome,
    last: u64,
    now: u64,
    timeout_secs: u16,
) -> Option<TcpDisconnectReason> {
    match outcome {
        ReadOutcome::Data(_) => None,
        ReadOutcome::Closed => Some(TcpDisconnectReason::ClientClosedConnection),
        ReadOutcome::Failed => Some(TcpDisconnectReason::Undefined),
        ReadOutcome::Nothing => if timed_out(last, now, timeout_secs) {
            Some(TcpDisconnectReason::InactivityTimeout)
        } else {
            None
        },
    }
}

impl TcpSlots {
    /// There are as many slots as clients can be connected.
    pub closed spec fn wf(&self) -> bool {
        self.slots@.len() == MAX_CLIENTS
    }

    /// There are as many slots as clients can be connected.
    pub proof fn lemma_len(&self)
        requires
            self.wf(),
        ensures
            self@.len() == MAX_CLIENTS,
    {
    }

    pub fn new() -> (slots: TcpSlots)
        ensures
            slots.wf(),
            slots@ == all_free(),
    {
        let mut slots: Vec<Option<u64>> = Vec::new();
        slots.push(None);
        slots.push(None);
        slots.push(None);
        slots.push(None);
        assert(slots@ =~= all_free());
        TcpSlots { slots }
    }

    /// Whether a slot has a client.
    pub fn is_connected(&self, index: usize) -> (r: bool)
        requires
            self.wf(),
        ensures
            r == (index < MAX_CLIENTS && self@[index as int] is Some),
    {
        index < MAX_CLIENTS && self.slots[index].is_some()
    }

    pub fn first_free_slot(&self) -> (r: Option<usize>)
        requires
            self.wf(),
        ensures
            match r {
                Some(index) => index < MAX_CLIENTS && free_from(self@, 0) == Some(index as int)
                    && self@[index as int] is None,
                None => free_from(self@, 0) is None,
            },
    {
        let mut i: usize = 0;
        while i < MAX_CLIENTS
            invariant
                self.slots@.len() == MAX_CLIENTS,
                0 <= i <= MAX_CLIENTS,
                free_from(self@, 0) == free_from(self@, i as int),
            decreases MAX_CLIENTS - i,
        {
            if self.slots[i].is_none() {
                return Some(i);
            }
            i += 1;
        }
        None
    }

    /// The first slot with a client from `from` on.
    pub fn next_connected(&self, from: usize) -> (r: Option<usize>)
        requires
            self.wf(),
        ensures
            match r {
                Some(index) => from <= index < MAX_CLIENTS && taken_from(self@, from as int) == Some(
                    index as int,
                ) && self@[index as int] is Some,
                None => taken_from(self@, from as int) is None,
            },
    {
        let mut i: usize = from;
        while i < MAX_CLIENTS
            invariant
                self.slots@.len() == MAX_CLIENTS,
                from <= i,
                taken_from(self@, from as int) == taken_from(self@, i as int),
            decreases MAX_CLIENTS - i,
        {
            if self.slots[i].is_some() {
                return Some(i);
            }
            i += 1;
        }
        None
    }

    /// Gives a new client the first free slot and tells the master; without a free slot nothing
    /// happens.
    pub fn accept(
        &mut self,
        remote_ip: String,
        remote_port: u16,
        now: u64,
        outbox: &mut Vec<Vec<u8>>,
    ) -> (r: Option<usize>)
        requires
            old(self).wf(),
        ensures
            final(self).wf(),
            match r {
                Some(index) => {
                    &&& index < MAX_CLIENTS
                    &&& free_from(old(self)@, 0) == Some(index as int)
                    &&& final(self)@ == old(self)@.update(index as int, Some(now))
                    &&& bytes::views(final(outbox)@) == state::queued(
                        bytes::views(old(outbox)@),
                        connected_frame(index as u8, remote_ip, remote_port),
                    )
                },
                None => {
                    &&& free_from(old(self)@, 0) is None
                    &&& final(self)@ == old(self)@
                    &&& final(outbox)@ == old(outbox)@
                },
            },
    {
        match self.first_free_slot() {
            Some(index) => {
                self.slots.set(index, Some(now));
                send_service_state(
                    outbox,
                    service_state::encode_tcp_connected(index as u8, remote_ip, remote_port),
                );
                Some(index)
            },
            None => None,
        }
    }

    /// Drops the client of a slot and tells the master why.
    fn drop_client(
        &mut self,
        index: usize,
        reason: TcpDisconnectReason,
        outbox: &mut Vec<Vec<u8>>,
    )
        requires
            old(self).wf(),
            index < MAX_CLIENTS,
        ensures
            final(self).wf(),
            final(self)@ == old(self)@.update(index as int, None),
            bytes::views(final(outbox)@) == state::queued(
                bytes::views(old(outbox)@),
                disconnected_frame(index as u8, reason),
            ),
    {
        self.slots.set(index, None);
        send_service_state(
            outbox,
            service_state::encode_tcp_disconnected(index as u8, reason),
        );
    }

    /// Drops every client and tells the master why.
    pub fn disconnect_all(&mut self, reason: TcpDisconnectReason, outbox: &mut Vec<Vec<u8>>)
        requires
            old(self).wf(),
        ensures
            final(self).wf(),
            final(self)@ == all_free(),
            bytes::views(final(outbox)@) == all_reported(
                bytes::views(old(outbox)@),
                drop_reports(old(self)@, MAX_CLIENTS as nat, reason),
            ),
    {
        let ghost before = self@;
        let mut i: usize = 0;
        while i < MAX_CLIENTS
            invariant
                self.wf(),
                before == old(self)@,
                before.len() == MAX_CLIENTS,
                0 <= i <= MAX_CLIENTS,
                forall|k: int| 0 <= k < i ==> (#[trigger] self@[k]) is None,
                forall|k: int| i <= k < MAX_CLIENTS ==> self@[k] == before[k],
                bytes::views(outbox@) == all_reported(
                    bytes::views(old(outbox)@),
                    drop_reports(before, i as nat, reason),
                ),
            decreases MAX_CLIENTS - i,
        {
            if self.slots[i].is_some() {
                self.drop_client(i, reason, outbox);
                assert(drop_reports(before, (i + 1) as nat, reason).drop_last() =~= drop_reports(
                    before,
                    i as nat,
                    reason,
                ));
            }
            i += 1;
        }
        assert(self@ =~= all_free());
    }

    /// Follows a command of the master for a slot; returns whether it had a client that was
    /// dropped. Of a slot without client that is to be closed the master is told so.
    pub fn command(&mut self, index: u8, close: bool, outbox: &mut Vec<Vec<u8>>) -> (dropped: bool)
        requires
            old(self).wf(),
        ensures
            final(self).wf(),
            dropped == (close && index < MAX_CLIENTS && old(self)@[index as int] is Some),
            final(self)@ == (if dropped {
                old(self)@.update(index as int, None)
            } else {
                old(self)@
            }),
            bytes::views(final(outbox)@) == (if !close || index >= MAX_CLIENTS {
                bytes::views(old(outbox)@)
            } else {
                state::queued(
                    bytes::views(old(outbox)@),
                    disconnected_frame(
                        index,
                        if dropped {
                            TcpDisconnectReason::ServerClosedConnection
                        } else {
                            TcpDisconnectReason::NotConnected
                        },
                    ),
                )
            }),
    {
        if !close || index as usize >= MAX_CLIENTS {
            return false;
        }
        if self.is_connected(index as usize) {
            self.drop_client(index as usize, TcpDisconnectReason::ServerClosedConnection, outbox);
            return true;
        }
        send_service_state(
            outbox,
            service_state::encode_tcp_disconnected(index, TcpDisconnectReason::NotConnected),
        );
        false
    }

    /// Whether data of the master for a slot can be written: its client must be there. Of a slot
    /// without client the master is told so.
    pub fn can_write(&self, index: u8, outbox: &mut Vec<Vec<u8>>) -> (r: bool)
        requires
            self.wf(),
        ensures
            r == (index < MAX_CLIENTS && self@[index as int] is Some),
            bytes::views(final(outbox)@) == if index < MAX_CLIENTS && self@[index as int] is None {
                state::queued(
                    bytes::views(old(outbox)@),
                    disconnected_frame(index, TcpDisconnectReason::NotConnected),
                )
            } else {
                bytes::views(old(outbox)@)
            },
    {
        if index as usize >= MAX_CLIENTS {
            return false;
        }
        if self.slots[index as usize].is_some() {
            return true;
        }
        send_service_state(
            outbox,
            service_state::encode_tcp_disconnected(index, TcpDisconnectReason::NotConnected),
        );
        false
    }

    /// Data was written to the client of a slot.
    pub fn written(&mut self, index: usize, now: u64)
        requires
            old(self).wf(),
            index < MAX_CLIENTS,
            old(self)@[index as int] is Some,
        ensures
            final(self).wf(),
            final(self)@ == old(self)@.update(index as int, Some(now)),
    {
        self.slots.set(index, Some(now));
    }

    /// Follows what reading from the client of a slot gave; returns whether there may be more to
    /// read.
    pub fn read(
        &mut self,
        index: usize,
        outcome: ReadOutcome,
        now: u64,
        timeout_secs: u16,
        outbox: &mut Vec<Vec<u8>>,
    ) -> (more: bool)
        requires
            old(self).wf(),
            index < MAX_CLIENTS,
            old(self)@[index as int] is Some,
        ensures
            final(self).wf(),
            more == outcome is Data,
            match (outcome, drop_reason(outcome, old(self)@[index as int]->0, now, timeout_secs)) {
                (ReadOutcome::Data(data), _) => {
                    &&& final(self)@ == old(self)@.update(index as int, Some(now))
                    &&& bytes::views(final(outbox)@) == data_queued(
                        bytes::views(old(outbox)@),
                        index as u8,
                        data@,
                    )
                },
                (_, Some(reason)) => {
                    &&& final(self)@ == old(self)@.update(index as int, None)
                    &&& bytes::views(final(outbox)@) == state::queued(
                        bytes::views(old(outbox)@),
                        disconnected_frame(index as u8, reason),
                    )
                },
                (_, None) => {
                    &&& final(self)@ == old(self)@
                    &&& final(outbox)@ == old(outbox)@
                },
            },
    {
        match outcome {
            ReadOutcome::Data(data) => {
                self.slots.set(index, Some(now));
                send_tcp_data_upstream(outbox, index as u8, data.as_slice());
                true
            },
            ReadOutcome::Closed => {
                self.drop_client(index, TcpDisconnectReason::ClientClosedConnection, outbox);
                false
            },
            ReadOutcome::Failed => {
                self.drop_client(index, TcpDisconnectReason::Undefined, outbox);
                false
            },
            ReadOutcome::Nothing => {
                let last: u64 = match self.slots[index] {
                    Some(last) => last,
                    None => now,
                };
                if timeout_secs > 0 && now.saturating_sub(last) > 1000 * (timeout_secs as u64) {
                    self.drop_client(index, TcpDisconnectReason::InactivityTimeout, outbox);
                }
                false
            },
        }
    }
}

} // verus!
