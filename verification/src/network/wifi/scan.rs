//! Scans: what is found is listed to the master in as few frames as it fits in order.

use vstd::prelude::*;
use vstd::slice::slice_subrange;

use crate::bytes;
use crate::master::messages::payload;
use crate::master::messages::wifi_scan;
use crate::master::messages::wifi_scan::{WifiScanRequestMessage, WifiScanResultItem};
use crate::master::protocol;
use crate::msgpack;
use crate::text;

verus! {

/// Chunks of a response are numbered by one byte.
pub const MAX_CHUNKS: usize = 256;

/// How a network protects itself.
#[derive(Debug, Clone, Copy, PartialEq, Eq, Structural)]
pub enum AuthMethod {
    Open,
    Wep,
    Wpa,
    Wpa2Personal,
    WpaWpa2Personal,
    Wpa2Enterprise,
    Wpa3Personal,
    Wpa2Wpa3Personal,
    WapiPersonal,
}

impl AuthMethod {
    /// The name by which the method is listed.
    pub open spec fn name(self) -> Seq<char> {
        match self {
            AuthMethod::Open => "None"@,
            AuthMethod::Wep => "WEP"@,
            AuthMethod::Wpa => "WPA"@,
            AuthMethod::Wpa2Personal => "WPA2Personal"@,
            AuthMethod::WpaWpa2Personal => "WPAWPA2Personal"@,
            AuthMethod::Wpa2Enterprise => "WPA2Enterprise"@,
            AuthMethod::Wpa3Personal => "WPA3Personal"@,
            AuthMethod::Wpa2Wpa3Personal => "WPA2WPA3Personal"@,
            AuthMethod::WapiPersonal => "WAPIPersonal"@,
        }
    }

    pub fn as_text(self) -> (text: &'static str)
        ensures
            text@ == self.name(),
    {
        match self {
            AuthMethod::Open => "None",
            AuthMethod::Wep => "WEP",
            AuthMethod::Wpa => "WPA",
            AuthMethod::Wpa2Personal => "WPA2Personal",
            AuthMethod::WpaWpa2Personal => "WPAWPA2Personal",
            AuthMethod::Wpa2Enterprise => "WPA2Enterprise",
            AuthMethod::Wpa3Personal => "WPA3Personal",
            AuthMethod::Wpa2Wpa3Personal => "WPA2WPA3Personal",
            AuthMethod::WapiPersonal => "WAPIPersonal",
        }
    }
}

/// A network as the radio reports it.
#[derive(Debug, Clone)]
pub struct AccessPoint {
    pub ssid: String,
    pub bssid: [u8; 6],
    pub channel: u8,
    pub signal_strength: i8,
    pub auth_method: Option<AuthMethod>,
}

/// The name listed for an authentication method; an unknown one counts as none.
pub open spec fn auth_name(auth_method: Option<AuthMethod>) -> Seq<char> {
    match auth_method {
        Some(method) => method.name(),
        None => "None"@,
    }
}

pub fn auth_method_list(auth_method: Option<AuthMethod>) -> (list: Vec<String>)
    ensures
        list@.len() == 1,
        list@[0]@ == auth_name(auth_method),
{
    let name = match auth_method {
        Some(method) => method.as_text(),
        None => "None",
    };
    let mut list: Vec<String> = Vec::new();
    list.push(name.to_owned());
    list
}

/// How a network is listed.
pub open spec fn listed(ap: AccessPoint) -> msgpack::Value {
    msgpack::Value::Table(
        seq![
            ("ssid"@, msgpack::Value::Str(ap.ssid@)),
            ("bssid"@, msgpack::Value::Str(text::mac_text(ap.bssid@))),
            ("channel"@, msgpack::Value::Int(ap.channel as int)),
            ("rssi"@, msgpack::Value::Int(ap.signal_strength as int)),
            (
                "authMethod"@,
                msgpack::Value::Array(seq![msgpack::Value::Str(auth_name(ap.auth_method))]),
            ),
        ],
    )
}

/// How a list of networks is listed.
pub open spec fn all_listed(found: Seq<AccessPoint>) -> Seq<msgpack::Value> {
    Seq::new(found.len(), |i: int| listed(found[i]))
}

fn result_item(ap: &AccessPoint) -> (item: WifiScanResultItem)
    ensures
        payload::Payload::value(&item) == listed(*ap),
{
    let item = WifiScanResultItem {
        ssid: ap.ssid.clone(),
        bssid: text::format_mac(ap.bssid),
        channel: ap.channel,
        rssi: ap.signal_strength,
        auth_method: auth_method_list(ap.auth_method),
    };
    proof {
        let names = msgpack::texts_value(item.auth_method@);
        assert(names->Array_0 =~= seq![msgpack::Value::Str(auth_name(ap.auth_method))]);
        assert(payload::Payload::value(&item)->Table_0 =~= listed(*ap)->Table_0);
    }
    item
}

/// A list fits one frame.
pub open spec fn fits(items: Seq<msgpack::Value>) -> bool {
    wifi_scan::list_payload(items).len() <= protocol::MAX_PAYLOAD_SIZE
}

/// How far a chunk that holds the items from `start` to `end` can be extended.
pub open spec fn chunk_end(items: Seq<msgpack::Value>, start: int, end: int) -> int
    decreases items.len() - end,
{
    if 0 <= end < items.len() && fits(items.subrange(start, end + 1)) {
        chunk_end(items, start, end + 1)
    } else {
        end
    }
}

/// A chunk ends within the list, and it fits a frame if it holds anything.
pub proof fn lemma_chunk_end(items: Seq<msgpack::Value>, start: int, end: int)
    requires
        start <= end <= items.len(),
    ensures
        end <= chunk_end(items, start, end) <= items.len(),
        chunk_end(items, start, end) > end ==> fits(
            items.subrange(start, chunk_end(items, start, end)),
        ),
        0 <= end && chunk_end(items, start, end) < items.len() ==> !fits(
            items.subrange(start, chunk_end(items, start, end) + 1),
        ),
    decreases items.len() - end,
{
    if 0 <= end < items.len() && fits(items.subrange(start, end + 1)) {
        lemma_chunk_end(items, start, end + 1);
    }
}

/// The chunks of a response from `start` on, while there is room for `room` more, and whether
/// they reach the end of the list. A chunk takes as many items as fit; an item that does not
/// fit a frame of its own is left out.
pub open spec fn plan(items: Seq<msgpack::Value>, start: int, room: nat) -> (
    Seq<Seq<msgpack::Value>>,
    bool,
)
    decreases items.len() - start,
{
    if start >= items.len() {
        (Seq::empty(), true)
    } else {
        let end = chunk_end(items, start, start);
        if end <= start {
            plan(items, start + 1, room)
        } else {
            proof {
                lemma_chunk_end(items, start, start);
            }
            let chunk = items.subrange(start, end);
            if room <= 1 && end < items.len() {
                (seq![chunk], false)
            } else {
                let rest = plan(items, end, (room - 1) as nat);
                (seq![chunk] + rest.0, rest.1)
            }
        }
    }
}

/// The chunks of a response: an empty list has one empty chunk.
pub open spec fn response_chunks(items: Seq<msgpack::Value>) -> Seq<Seq<msgpack::Value>> {
    if items.len() == 0 {
        seq![Seq::empty()]
    } else {
        plan(items, 0, MAX_CHUNKS as nat).0
    }
}

/// Whether a response reaches the end of the list.
pub open spec fn response_complete(items: Seq<msgpack::Value>) -> bool {
    plan(items, 0, MAX_CHUNKS as nat).1
}

/// The frames of chunks that are numbered from `first` on.
pub open spec fn chunk_frames(chunks: Seq<Seq<msgpack::Value>>, first: int) -> Seq<Seq<u8>> {
    Seq::new(
        chunks.len(),
        |i: int|
            protocol::frame_bytes(
                protocol::MessageType::WifiScan.code(),
                (first + i) as u8,
                wifi_scan::list_payload(chunks[i]),
            ),
    )
}

/// A response ran out of chunk numbers.
#[derive(Debug, Clone, Copy, PartialEq, Eq, Structural)]
pub struct TooManyChunks;

proof fn lemma_plan_step(items: Seq<msgpack::Value>, start: int, end: int, room: nat, first: int)
    requires
        0 <= start < items.len(),
        end == chunk_end(items, start, start),
        start < end <= items.len(),
        room > 1 || end >= items.len(),
    ensures
        chunk_frames(plan(items, start, room).0, first) == seq![
            protocol::frame_bytes(
                protocol::MessageType::WifiScan.code(),
                first as u8,
                wifi_scan::list_payload(items.subrange(start, end)),
            ),
        ] + chunk_frames(plan(items, end, (room - 1) as nat).0, first + 1),
        plan(items, start, room).1 == plan(items, end, (room - 1) as nat).1,
{
    let rest = plan(items, end, (room - 1) as nat).0;
    let chunk = items.subrange(start, end);
    assert(plan(items, start, room).0 == seq![chunk] + rest);
    assert(chunk_frames(seq![chunk] + rest, first) =~= seq![
        protocol::frame_bytes(
            protocol::MessageType::WifiScan.code(),
            first as u8,
            wifi_scan::list_payload(chunk),
        ),
    ] + chunk_frames(rest, first + 1));
}

/// Queues the frames that list `entries`.
pub fn send_wifi_scan_chunks(outbox: &mut Vec<Vec<u8>>, entries: &[WifiScanResultItem]) -> (r:
    Result<(), TooManyChunks>)
    ensures
        bytes::views(final(outbox)@) == bytes::views(old(outbox)@) + chunk_frames(
            response_chunks(payload::values(entries@)),
            0,
        ),
        r is Ok <==> response_complete(payload::values(entries@)),
{
    let ghost items = payload::values(entries@);
    let ghost before = bytes::views(outbox@);
    if entries.len() == 0 {
        match wifi_scan::encode(0, entries) {
            Ok(frame) => {
                outbox.push(frame);
            },
            Err(_) => {},
        }
        proof {
            assert(items =~= Seq::empty());
            assert(msgpack::encode_items(items) =~= Seq::empty());
            assert(bytes::views(outbox@) =~= before + chunk_frames(response_chunks(items), 0));
        }
        return Ok(());
    }
    let mut start: usize = 0;
    let mut chunk_index: u8 = 0;
    while start < entries.len()
        invariant
            items == payload::values(entries@),
            0 <= start <= entries@.len(),
            0 < entries@.len(),
            before == bytes::views(old(outbox)@),
            before + chunk_frames(plan(items, 0, MAX_CHUNKS as nat).0, 0) == bytes::views(outbox@)
                + chunk_frames(
                plan(items, start as int, (MAX_CHUNKS - chunk_index) as nat).0,
                chunk_index as int,
            ),
            plan(items, 0, MAX_CHUNKS as nat).1 == plan(
                items,
                start as int,
                (MAX_CHUNKS - chunk_index) as nat,
            ).1,
        decreases entries@.len() - start,
    {
        let mut end: usize = start;
        let mut growing = true;
        while growing && end < entries.len()
            invariant
                items == payload::values(entries@),
                start <= end <= entries@.len(),
                chunk_end(items, start as int, start as int) == chunk_end(
                    items,
                    start as int,
                    end as int,
                ),
                start < end ==> fits(items.subrange(start as int, end as int)),
                !growing ==> end < entries@.len() && !fits(
                    items.subrange(start as int, end + 1),
                ),
            decreases entries@.len() - end, if growing { 1int } else { 0 },
        {
            let longer = slice_subrange(entries, start, end + 1);
            assert(payload::values(longer@) =~= items.subrange(start as int, end + 1));
            if wifi_scan::encode(chunk_index, longer).is_ok() {
                end += 1;
            } else {
                growing = false;
            }
        }
        if end == start {
            start += 1;
            continue;
        }
        let ghost room = (MAX_CHUNKS - chunk_index) as nat;
        let ghost rest = chunk_frames(
            plan(items, end as int, (room - 1) as nat).0,
            chunk_index + 1,
        );
        let chunk = slice_subrange(entries, start, end);
        assert(payload::values(chunk@) =~= items.subrange(start as int, end as int));
        let frame = wifi_scan::encode(chunk_index, chunk).unwrap();
        let ghost sent = bytes::views(outbox@);
        let ghost this = frame@;
        outbox.push(frame);
        assert(bytes::views(outbox@) =~= sent.push(this));
        if chunk_index == 255 && end < entries.len() {
            assert(chunk_frames(plan(items, start as int, room).0, 255) =~= seq![this]);
            assert(sent + seq![this] =~= sent.push(this));
            return Err(TooManyChunks);
        }
        proof {
            lemma_plan_step(items, start as int, end as int, room, chunk_index as int);
            assert(sent + (seq![this] + rest) =~= sent.push(this) + rest);
        }
        start = end;
        chunk_index = chunk_index.saturating_add(1);
        if start == entries.len() {
            assert(chunk_frames(
                plan(items, start as int, (MAX_CHUNKS - chunk_index) as nat).0,
                chunk_index as int,
            ) =~= rest);
        }
    }
    assert(bytes::views(outbox@) + Seq::<Seq<u8>>::empty() =~= bytes::views(outbox@));
    assert(chunk_frames(
        plan(items, start as int, (MAX_CHUNKS - chunk_index) as nat).0,
        chunk_index as int,
    ) =~= Seq::empty());
    Ok(())
}

/// The networks that a request asks for: all of them, or the first `limit`.
pub open spec fn limited(found: Seq<AccessPoint>, limit: u16) -> Seq<AccessPoint> {
    if limit > 0 && found.len() > limit {
        found.take(limit as int)
    } else {
        found
    }
}

/// What a scan found; one that failed found nothing.
pub open spec fn networks(found: Option<Vec<AccessPoint>>) -> Seq<AccessPoint> {
    match found {
        Some(list) => list@,
        None => Seq::empty(),
    }
}

/// Answers a scan request with what the scan found, or with an empty list if it failed.
pub fn process_wifi_scan_request(
    request: &WifiScanRequestMessage,
    found: &Option<Vec<AccessPoint>>,
    outbox: &mut Vec<Vec<u8>>,
) -> (r: Result<(), TooManyChunks>)
    ensures
        bytes::views(final(outbox)@) == bytes::views(old(outbox)@) + chunk_frames(
            response_chunks(all_listed(limited(networks(*found), request.limit))),
            0,
        ),
        r is Ok <==> response_complete(all_listed(limited(networks(*found), request.limit))),
{
    let ghost wanted = limited(networks(*found), request.limit);
    let mut entries: Vec<WifiScanResultItem> = Vec::new();
    match found {
        Some(list) => {
            let count: usize = if request.limit > 0 && list.len() > request.limit as usize {
                request.limit as usize
            } else {
                list.len()
            };
            let mut i: usize = 0;
            while i < count
                invariant
                    i <= count <= list@.len(),
                    count == wanted.len(),
                    wanted =~= list@.take(count as int),
                    payload::values(entries@) == all_listed(wanted).take(i as int),
                decreases count - i,
            {
                let item = result_item(&list[i]);
                let ghost done = entries@;
                let ghost value = payload::Payload::value(&item);
                entries.push(item);
                assert(payload::values(entries@) =~= payload::values(done).push(value));
                assert(wanted[i as int] == list@[i as int]);
                assert(all_listed(wanted).take(i + 1) =~= all_listed(wanted).take(i as int).push(
                    listed(wanted[i as int]),
                ));
                i += 1;
            }
        },
        None => {},
    }
    assert(payload::values(entries@) =~= all_listed(wanted));
    send_wifi_scan_chunks(outbox, entries.as_slice())
}

/// An item that fits a frame of its own.
pub open spec fn deliverable(item: msgpack::Value) -> bool {
    fits(seq![item])
}

/// The items of a list in MessagePack are as long as all of them together.
proof fn lemma_items_len(items: Seq<msgpack::Value>, k: int)
    requires
        0 <= k < items.len(),
    ensures
        msgpack::encode_items(items).len() >= msgpack::encode(items[k]).len(),
    decreases items.len(),
{
    let rest = items.subrange(1, items.len() as int);
    if k > 0 {
        lemma_items_len(rest, k - 1);
        assert(rest[k - 1] == items[k]);
    }
}

/// What fits a frame together fits one alone.
pub proof fn lemma_part_fits(items: Seq<msgpack::Value>, k: int)
    requires
        0 <= k < items.len(),
        fits(items),
    ensures
        deliverable(items[k]),
{
    lemma_items_len(items, k);
    let one = seq![items[k]];
    assert(one.subrange(1, 1) =~= Seq::empty());
    assert(msgpack::encode_items(one.subrange(1, 1)) =~= Seq::empty());
    assert(msgpack::encode_items(one) =~= msgpack::encode(items[k]));
}

proof fn lemma_plan_delivers(items: Seq<msgpack::Value>, start: int, room: nat)
    requires
        0 <= start <= items.len(),
        room >= 1 || start == items.len(),
    ensures
        plan(items, start, room).0.len() <= room,
        forall|i: int|
            #![trigger plan(items, start, room).0[i]]
            0 <= i < plan(items, start, room).0.len() ==> fits(plan(items, start, room).0[i])
                && plan(items, start, room).0[i].len() > 0,
        plan(items, start, room).1 ==> plan(items, start, room).0.flatten() == items.skip(
            start,
        ).filter(|item: msgpack::Value| deliverable(item)),
    decreases items.len() - start,
{
    let wanted = |item: msgpack::Value| deliverable(item);
    let (chunks, complete) = plan(items, start, room);
    if start >= items.len() {
        assert(items.skip(start) =~= Seq::empty());
        reveal(Seq::filter);
        assert(chunks.flatten() =~= Seq::empty());
    } else {
        lemma_chunk_end(items, start, start);
        let end = chunk_end(items, start, start);
        if end <= start {
            lemma_plan_delivers(items, start + 1, room);
            let one = seq![items[start]];
            assert(items.subrange(start, start + 1) =~= one);
            assert(items.skip(start) =~= one + items.skip(start + 1));
            Seq::filter_distributes_over_add(one, items.skip(start + 1), wanted);
            reveal(Seq::filter);
            assert(one.drop_last() =~= Seq::empty());
            assert(one.drop_last().filter(wanted) =~= Seq::empty());
            assert(one.filter(wanted) =~= Seq::empty());
            assert(one.filter(wanted) + items.skip(start + 1).filter(wanted) =~= items.skip(
                start + 1,
            ).filter(wanted));
        } else {
            let chunk = items.subrange(start, end);
            if room > 1 || end >= items.len() {
                let rest = plan(items, end, (room - 1) as nat);
                lemma_plan_delivers(items, end, (room - 1) as nat);
                assert(items.skip(start) =~= chunk + items.skip(end));
                Seq::filter_distributes_over_add(chunk, items.skip(end), wanted);
                assert forall|k: int| 0 <= k < chunk.len() implies wanted(#[trigger] chunk[k]) by {
                    lemma_part_fits(chunk, k);
                }
                lemma_filter_keeps_all(chunk, wanted);
                assert((seq![chunk] + rest.0).drop_first() =~= rest.0);
                assert(chunks.flatten() == chunk + rest.0.flatten());
                assert forall|i: int| 0 <= i < chunks.len() implies fits(#[trigger] chunks[i])
                    && chunks[i].len() > 0 by {
                    if i > 0 {
                        assert(chunks[i] == rest.0[i - 1]);
                    }
                }
            }
        }
    }
}

/// Keeping what is wanted keeps all where all is wanted.
pub proof fn lemma_filter_keeps_all<A>(s: Seq<A>, wanted: spec_fn(A) -> bool)
    requires
        forall|k: int| 0 <= k < s.len() ==> wanted(#[trigger] s[k]),
    ensures
        s.filter(wanted) == s,
    decreases s.len(),
{
    reveal(Seq::filter);
    if s.len() > 0 {
        assert forall|k: int| 0 <= k < s.drop_last().len() implies wanted(
            #[trigger] s.drop_last()[k],
        ) by {
            assert(s.drop_last()[k] == s[k]);
        }
        lemma_filter_keeps_all(s.drop_last(), wanted);
        assert(s.drop_last().push(s.last()) =~= s);
    } else {
        assert(s.filter(wanted) =~= s);
    }
}

/// A response that reaches the end of the list delivers every item that fits a frame, once and
/// in order; every chunk of any response fits a frame and has a number of one byte.
pub proof fn law_scan_response_delivers(items: Seq<msgpack::Value>)
    ensures
        1 <= items.len() && response_complete(items) ==> response_chunks(items).flatten()
            == items.filter(|item: msgpack::Value| deliverable(item)),
        response_chunks(items).len() <= MAX_CHUNKS,
        forall|i: int|
            #![trigger response_chunks(items)[i]]
            0 <= i < response_chunks(items).len() ==> fits(response_chunks(items)[i]) && (
            response_chunks(items)[i].len() > 0 || items.len() == 0),
{
    if items.len() == 0 {
        assert(msgpack::encode_items(Seq::<msgpack::Value>::empty()) =~= Seq::empty());
    } else {
        lemma_plan_delivers(items, 0, MAX_CHUNKS as nat);
        assert(items.skip(0) =~= items);
    }
}

/// Every frame of a response reads back as the chunk with its number.
pub proof fn law_scan_frames_read_back(items: Seq<msgpack::Value>, i: int)
    requires
        0 <= i < response_chunks(items).len(),
    ensures
        protocol::frame_content(chunk_frames(response_chunks(items), 0)[i]) == Ok::<
            protocol::Content,
            protocol::PacketError,
        >(
            protocol::Content {
                cmd: protocol::MessageType::WifiScan.code(),
                parameter: i as u8,
                payload: wifi_scan::list_payload(response_chunks(items)[i]),
            },
        ),
{
    law_scan_response_delivers(items);
    let chunk = response_chunks(items)[i];
    crate::master::protocol_laws::law_frame_reads_back(
        protocol::MessageType::WifiScan.code(),
        i as u8,
        wifi_scan::list_payload(chunk),
    );
}

proof fn lemma_plan_is_greedy(items: Seq<msgpack::Value>, start: int, room: nat, i: int)
    requires
        0 <= start <= items.len(),
        room >= 1 || start == items.len(),
        forall|k: int| 0 <= k < items.len() ==> deliverable(#[trigger] items[k]),
        0 <= i,
        i + 1 < plan(items, start, room).0.len(),
    ensures
        !fits(plan(items, start, room).0[i].push(plan(items, start, room).0[i + 1][0])),
        plan(items, start, room).0[0][0] == items[start],
    decreases items.len() - start,
{
    lemma_chunk_end(items, start, start);
    let end = chunk_end(items, start, start);
    assert(items.subrange(start, start + 1) =~= seq![items[start]]);
    let chunk = items.subrange(start, end);
    let rest = plan(items, end, (room - 1) as nat).0;
    assert(plan(items, start, room).0 == seq![chunk] + rest);
    lemma_chunk_end(items, end, end);
    let next_end = chunk_end(items, end, end);
    assert(items.subrange(end, end + 1) =~= seq![items[end]]);
    assert(rest[0] == items.subrange(end, next_end));
    if i == 0 {
        assert(chunk.push(items[end]) =~= items.subrange(start, end + 1));
    } else {
        lemma_plan_is_greedy(items, end, (room - 1) as nat, i - 1);
    }
}

/// No frame of a response is closed early: where every item fits a frame of its own, a chunk
/// that is followed by another would not have taken the first item of that one.
pub proof fn law_scan_chunks_are_full(items: Seq<msgpack::Value>, i: int)
    requires
        forall|k: int| 0 <= k < items.len() ==> deliverable(#[trigger] items[k]),
        0 <= i,
        i + 1 < response_chunks(items).len(),
    ensures
        !fits(response_chunks(items)[i].push(response_chunks(items)[i + 1][0])),
{
    lemma_plan_is_greedy(items, 0, MAX_CHUNKS as nat, i);
}

} // verus!
