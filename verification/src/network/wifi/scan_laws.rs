//! What a response to a scan request says of the networks that were found.

use vstd::prelude::*;

use crate::master::messages::record_laws;
use crate::master::messages::wifi_scan;
use crate::master::protocol;
use crate::master::protocol_laws;
use crate::msgpack;
use crate::msgpack::Value;
use crate::network::wifi::scan;
use crate::network::wifi::scan::{AccessPoint, AuthMethod};
use crate::text;
use crate::text_laws;

verus! {

/// The record of a network carries the name, the address, the channel and the signal strength of
/// that very network, and the name of its authentication method; a method that the radio does
/// not know is listed as none.
pub proof fn law_network_is_listed(ap: AccessPoint)
    ensures
        record_laws::fields(scan::listed(ap)) == 5,
        record_laws::holds(scan::listed(ap), "ssid"@, Value::Str(ap.ssid@)),
        record_laws::holds(scan::listed(ap), "bssid"@, Value::Str(text::mac_text(ap.bssid@))),
        record_laws::holds(scan::listed(ap), "channel"@, Value::Int(ap.channel as int)),
        record_laws::holds(scan::listed(ap), "rssi"@, Value::Int(ap.signal_strength as int)),
        record_laws::holds(
            scan::listed(ap),
            "authMethod"@,
            Value::Array(
                seq![
                    Value::Str(
                        match ap.auth_method {
                            None => "None"@,
                            Some(AuthMethod::Open) => "None"@,
                            Some(AuthMethod::Wep) => "WEP"@,
                            Some(AuthMethod::Wpa) => "WPA"@,
                            Some(AuthMethod::Wpa2Personal) => "WPA2Personal"@,
                            Some(AuthMethod::WpaWpa2Personal) => "WPAWPA2Personal"@,
                            Some(AuthMethod::Wpa2Enterprise) => "WPA2Enterprise"@,
                            Some(AuthMethod::Wpa3Personal) => "WPA3Personal"@,
                            Some(AuthMethod::Wpa2Wpa3Personal) => "WPA2WPA3Personal"@,
                            Some(AuthMethod::WapiPersonal) => "WAPIPersonal"@,
                        },
                    ),
                ],
            ),
        ),
{
    let entries = scan::listed(ap)->Table_0;
    assert(entries[0] == ("ssid"@, Value::Str(ap.ssid@)));
    assert(entries[1] == ("bssid"@, Value::Str(text::mac_text(ap.bssid@))));
    assert(entries[2] == ("channel"@, Value::Int(ap.channel as int)));
    assert(entries[3] == ("rssi"@, Value::Int(ap.signal_strength as int)));
    assert(entries[4] == (
        "authMethod"@,
        Value::Array(seq![Value::Str(scan::auth_name(ap.auth_method))]),
    ));
}

/// The method as it is listed: one that the radio does not know counts as none.
pub open spec fn known_method(auth_method: Option<AuthMethod>) -> AuthMethod {
    match auth_method {
        Some(method) => method,
        None => AuthMethod::Open,
    }
}

/// Different methods have different names.
pub proof fn law_method_names_differ(a: AuthMethod, b: AuthMethod)
    requires
        a.name() == b.name(),
    ensures
        a == b,
{
    reveal_strlit("None");
    reveal_strlit("WEP");
    reveal_strlit("WPA");
    reveal_strlit("WPA2Personal");
    reveal_strlit("WPAWPA2Personal");
    reveal_strlit("WPA2Enterprise");
    reveal_strlit("WPA3Personal");
    reveal_strlit("WPA2WPA3Personal");
    reveal_strlit("WAPIPersonal");
    assert("None"@.len() == 4);
    assert("WEP"@.len() == 3 && "WEP"@[1] == 'E');
    assert("WPA"@.len() == 3 && "WPA"@[1] == 'P');
    assert("WPA2Personal"@.len() == 12 && "WPA2Personal"@[1] == 'P' && "WPA2Personal"@[3] == '2');
    assert("WPAWPA2Personal"@.len() == 15);
    assert("WPA2Enterprise"@.len() == 14);
    assert("WPA3Personal"@.len() == 12 && "WPA3Personal"@[1] == 'P' && "WPA3Personal"@[3] == '3');
    assert("WPA2WPA3Personal"@.len() == 16);
    assert("WAPIPersonal"@.len() == 12 && "WAPIPersonal"@[1] == 'A');
}

/// Networks that differ in anything that is listed have different records: the record says the
/// name, the address, the channel, the signal strength and the method of its network.
pub proof fn law_record_tells_its_network(a: AccessPoint, b: AccessPoint)
    requires
        scan::listed(a) == scan::listed(b),
    ensures
        a.ssid@ == b.ssid@,
        a.bssid@ == b.bssid@,
        a.channel == b.channel,
        a.signal_strength == b.signal_strength,
        known_method(a.auth_method) == known_method(b.auth_method),
{
    let x = scan::listed(a)->Table_0;
    let y = scan::listed(b)->Table_0;
    assert(x[0] == y[0] && x[1] == y[1] && x[2] == y[2] && x[3] == y[3] && x[4] == y[4]);
    assert forall|k: int| 0 <= k < 6 implies a.bssid@[k] == b.bssid@[k] by {
        text_laws::law_mac_says_its_bytes(a.bssid@, k);
        text_laws::law_mac_says_its_bytes(b.bssid@, k);
    }
    assert(a.bssid@ =~= b.bssid@);
    let m = x[4].1->Array_0;
    let n = y[4].1->Array_0;
    assert(m[0] == n[0]);
    law_method_names_differ(known_method(a.auth_method), known_method(b.auth_method));
}

/// A response lists the first networks that were found, in order: as many as the request asks
/// for, or all of them where it sets no limit or there are no more. A scan that failed has found
/// none.
pub proof fn law_response_lists_the_first_networks(found: Option<Vec<AccessPoint>>, limit: u16, i: int)
    ensures
        ({
            let records = scan::all_listed(scan::limited(scan::networks(found), limit));
            &&& found is None ==> records.len() == 0
            &&& found matches Some(list) ==> {
                &&& records.len() == (if limit == 0 || list@.len() <= limit {
                    list@.len() as int
                } else {
                    limit as int
                })
                &&& 0 <= i < records.len() ==> records[i] == scan::listed(list@[i])
            }
        }),
{
}

/// Where nothing is listed, the response is one frame with an empty list, numbered 0.
pub proof fn law_empty_response_is_sent()
    ensures
        ({
            let nothing = Seq::<Value>::empty();
            &&& scan::response_complete(nothing)
            &&& scan::chunk_frames(scan::response_chunks(nothing), 0).len() == 1
            &&& protocol::frame_content(scan::chunk_frames(scan::response_chunks(nothing), 0)[0])
                == Ok::<protocol::Content, protocol::PacketError>(
                protocol::Content { cmd: 8, parameter: 0, payload: seq![0x90u8] },
            )
        }),
{
    let nothing = Seq::<Value>::empty();
    assert(msgpack::encode_items(nothing) =~= Seq::empty());
    assert(wifi_scan::list_payload(nothing) =~= seq![0x90u8]);
    protocol_laws::law_frame_reads_back(8, 0, seq![0x90u8]);
}

/// A chunk holds at most as much as a frame takes.
pub proof fn law_chunk_limit(items: Seq<Value>)
    ensures
        scan::fits(items) <==> msgpack::encode(Value::Array(items)).len() <= 1500,
{
}

/// Chunks that do not reach the end of the list use all the room, and deliver what comes before
/// some place in it. Returns that place.
proof fn lemma_plan_is_cut(items: Seq<Value>, start: int, room: nat) -> (cut: int)
    requires
        0 <= start <= items.len(),
        room >= 1 || start == items.len(),
        !scan::plan(items, start, room).1,
    ensures
        scan::plan(items, start, room).0.len() == room,
        start <= cut < items.len(),
        scan::plan(items, start, room).0.flatten() == items.subrange(start, cut).filter(
            |item: Value| scan::deliverable(item),
        ),
    decreases items.len() - start,
{
    let wanted = |item: Value| scan::deliverable(item);
    let chunks = scan::plan(items, start, room).0;
    scan::lemma_chunk_end(items, start, start);
    let end = scan::chunk_end(items, start, start);
    if end <= start {
        let cut = lemma_plan_is_cut(items, start + 1, room);
        let one = seq![items[start]];
        assert(items.subrange(start, start + 1) =~= one);
        assert(items.subrange(start, cut) =~= one + items.subrange(start + 1, cut));
        Seq::filter_distributes_over_add(one, items.subrange(start + 1, cut), wanted);
        reveal(Seq::filter);
        assert(one.drop_last() =~= Seq::empty());
        assert(one.drop_last().filter(wanted) =~= Seq::empty());
        assert(one.filter(wanted) =~= Seq::empty());
        assert(one.filter(wanted) + items.subrange(start + 1, cut).filter(wanted)
            =~= items.subrange(start + 1, cut).filter(wanted));
        cut
    } else {
        let chunk = items.subrange(start, end);
        assert forall|k: int| 0 <= k < chunk.len() implies wanted(#[trigger] chunk[k]) by {
            scan::lemma_part_fits(chunk, k);
        }
        scan::lemma_filter_keeps_all(chunk, wanted);
        if room <= 1 && end < items.len() {
            assert(chunks =~= seq![chunk]);
            assert(chunks.drop_first() =~= Seq::empty());
            assert(chunks.drop_first().flatten() =~= Seq::empty());
            assert(chunks.flatten() =~= chunk);
            end
        } else {
            let rest = scan::plan(items, end, (room - 1) as nat);
            let cut = lemma_plan_is_cut(items, end, (room - 1) as nat);
            assert(items.subrange(start, cut) =~= chunk + items.subrange(end, cut));
            Seq::filter_distributes_over_add(chunk, items.subrange(end, cut), wanted);
            assert((seq![chunk] + rest.0).drop_first() =~= rest.0);
            assert(chunks.flatten() == chunk + rest.0.flatten());
            cut
        }
    }
}

/// A response breaks off only after 256 frames, and then it has delivered, once and in order,
/// every item that fits a frame and stands before some place in the list. Returns that place.
pub proof fn law_response_breaks_off_only_when_full(items: Seq<Value>) -> (cut: int)
    requires
        !scan::response_complete(items),
    ensures
        scan::response_chunks(items).len() == 256,
        0 <= cut < items.len(),
        scan::response_chunks(items).flatten() == items.take(cut).filter(
            |item: Value| msgpack::encode(Value::Array(seq![item])).len() <= 1500,
        ),
{
    let cut = lemma_plan_is_cut(items, 0, 256);
    assert(items.subrange(0, cut) =~= items.take(cut));
    assert((|item: Value| scan::deliverable(item)) =~= (|item: Value|
        msgpack::encode(Value::Array(seq![item])).len() <= 1500));
    cut
}

/// A response that does not break off delivers, once and in order, every item that fits a frame.
pub proof fn law_whole_response_lists_all(items: Seq<Value>)
    requires
        scan::response_complete(items),
    ensures
        scan::response_chunks(items).len() <= 256,
        items.len() > 0 ==> scan::response_chunks(items).flatten() == items.filter(
            |item: Value| msgpack::encode(Value::Array(seq![item])).len() <= 1500,
        ),
{
    scan::law_scan_response_delivers(items);
    assert((|item: Value| scan::deliverable(item)) =~= (|item: Value|
        msgpack::encode(Value::Array(seq![item])).len() <= 1500));
}

} // verus!
