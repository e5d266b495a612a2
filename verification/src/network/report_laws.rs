//! Reports always reach the master, and the master can tell them apart.

use vstd::prelude::*;

use crate::master::messages::interface_settings;
use crate::master::messages::interface_settings::InterfaceType;
use crate::master::messages::record_laws;
use crate::master::protocol;
use crate::master::protocol_laws;
use crate::msgpack;
use crate::msgpack::Value;
use crate::msgpack_laws;
use crate::network::ipv4;
use crate::network::report::Report;
use crate::network::tasks;
use crate::network::tasks::Effect;
use crate::text;

verus! {

/// The keys of the records are short.
proof fn lemma_keys()
    ensures
        text::byte_len("connected"@) <= 15,
        text::byte_len("mac"@) <= 15,
        text::byte_len("error"@) <= 15,
        text::byte_len("ip"@) <= 15,
        text::byte_len("rssi"@) <= 15,
        text::byte_len("reason"@) <= 15,
        text::byte_len("started"@) <= 15,
        text::byte_len("clientConnected"@) <= 15,
{
    reveal_strlit("connected");
    msgpack_laws::lemma_key_len("connected");
    reveal_strlit("mac");
    msgpack_laws::lemma_key_len("mac");
    reveal_strlit("error");
    msgpack_laws::lemma_key_len("error");
    reveal_strlit("ip");
    msgpack_laws::lemma_key_len("ip");
    reveal_strlit("rssi");
    msgpack_laws::lemma_key_len("rssi");
    reveal_strlit("reason");
    msgpack_laws::lemma_key_len("reason");
    reveal_strlit("started");
    msgpack_laws::lemma_key_len("started");
    reveal_strlit("clientConnected");
    msgpack_laws::lemma_key_len("clientConnected");
}

proof fn lemma_addresses_len(items: Seq<msgpack::Value>)
    requires
        items.len() == 3,
        forall|i: int|
            0 <= i < 3 ==> msgpack::encode(#[trigger] items[i]).len() <= 20,
    ensures
        msgpack::encode(msgpack::Value::Array(items)).len() <= 65,
{
    let rest = items.subrange(1, 3);
    let last = rest.subrange(1, 2);
    let none = last.subrange(1, 1);
    assert(rest[0] == items[1]);
    assert(last[0] == items[2]);
    assert(msgpack::encode_items(none) =~= Seq::empty());
    assert(msgpack::encode_items(last).len() <= 20);
    assert(msgpack::encode_items(rest).len() <= 40);
    assert(msgpack::encode_items(items).len() <= 60);
    assert(msgpack::encode(msgpack::Value::Array(items)) == msgpack::array_header(3)
        + msgpack::encode_items(items));
}

/// A key and a value that are short, and that MessagePack can carry.
#[verifier::opaque]
spec fn short(entry: (Seq<char>, msgpack::Value)) -> bool {
    &&& text::byte_len(entry.0) <= 15
    &&& msgpack::encode(entry.1).len() <= 65
    &&& msgpack_laws::sized(entry.1)
}

proof fn lemma_short_bool(key: Seq<char>, b: bool)
    requires
        text::byte_len(key) <= 15,
    ensures
        short((key, msgpack::Value::Bool(b))),
{
    reveal(short);
    msgpack_laws::lemma_value_len(msgpack::Value::Bool(b));
}

proof fn lemma_short_int(key: Seq<char>, n: int)
    requires
        text::byte_len(key) <= 15,
        -0x8000_0000 <= n < 0x8000_0000,
    ensures
        short((key, msgpack::Value::Int(n))),
{
    reveal(short);
    msgpack_laws::lemma_value_len(msgpack::Value::Int(n));
}

proof fn lemma_short_mac(key: Seq<char>, mac: Seq<u8>)
    requires
        text::byte_len(key) <= 15,
    ensures
        short((key, msgpack::Value::Str(text::mac_text(mac)))),
{
    reveal(short);
    text::lemma_mac_len(mac);
    msgpack_laws::lemma_value_len(msgpack::Value::Str(text::mac_text(mac)));
}

proof fn lemma_address_value(octets: Seq<u8>)
    ensures
        msgpack::encode(msgpack::Value::Str(ipv4::ipv4_text(octets))).len() <= 20,
        msgpack_laws::sized(msgpack::Value::Str(ipv4::ipv4_text(octets))),
{
    ipv4::lemma_text_len(octets);
    msgpack_laws::lemma_value_len(msgpack::Value::Str(ipv4::ipv4_text(octets)));
}

proof fn lemma_short_address(key: Seq<char>, octets: Seq<u8>)
    requires
        text::byte_len(key) <= 15,
    ensures
        short((key, msgpack::Value::Str(ipv4::ipv4_text(octets)))),
{
    reveal(short);
    lemma_address_value(octets);
}

proof fn lemma_short_addresses(key: Seq<char>, a: Seq<u8>, b: Seq<u8>, c: Seq<u8>)
    requires
        text::byte_len(key) <= 15,
    ensures
        short(
            (
                key,
                msgpack::Value::Array(
                    seq![
                        msgpack::Value::Str(ipv4::ipv4_text(a)),
                        msgpack::Value::Str(ipv4::ipv4_text(b)),
                        msgpack::Value::Str(ipv4::ipv4_text(c)),
                    ],
                ),
            ),
        ),
{
    reveal(short);
    lemma_address_value(a);
    lemma_address_value(b);
    lemma_address_value(c);
    let items = seq![
        msgpack::Value::Str(ipv4::ipv4_text(a)),
        msgpack::Value::Str(ipv4::ipv4_text(b)),
        msgpack::Value::Str(ipv4::ipv4_text(c)),
    ];
    lemma_addresses_len(items);
    assert(msgpack_laws::sized(msgpack::Value::Array(items)));
}

/// The values of a report are short.
proof fn lemma_report_entries(report: Report)
    ensures
        report.value() is Table,
        report.value()->Table_0.len() <= 3,
        forall|i: int|
            0 <= i < report.value()->Table_0.len() ==> short(#[trigger] report.value()->Table_0[i]),
{
    lemma_keys();
    match report {
        Report::Connected { mac, .. } => {
            lemma_short_bool("connected"@, true);
            lemma_short_mac("mac"@, mac@);
        },
        Report::ConnectError { code, .. } => {
            lemma_short_int("error"@, code as int);
        },
        Report::GotIp { info, .. } => {
            lemma_short_addresses("ip"@, info.ip@, info.netmask@, info.gateway@);
        },
        Report::Rssi(rssi) => {
            lemma_short_int("rssi"@, rssi as int);
        },
        Report::Disconnected { reason, .. } => {
            lemma_short_bool("connected"@, false);
            lemma_short_int("reason"@, reason as int);
        },
        Report::ApStarted => {
            lemma_short_bool("started"@, true);
        },
        Report::ApStartError(error) => {
            lemma_short_bool("started"@, false);
            lemma_short_int("error"@, error as int);
        },
        Report::ApClientConnected { mac, ip } => {
            lemma_short_bool("clientConnected"@, true);
            lemma_short_mac("mac"@, mac@);
            lemma_short_address("ip"@, ip@);
        },
        Report::ApClientDisconnected { mac } => {
            lemma_short_bool("clientConnected"@, false);
            lemma_short_mac("mac"@, mac@);
        },
    }
}

proof fn lemma_report_is_sized(report: Report)
    ensures
        msgpack_laws::sized(report.value()),
        msgpack::encode(report.value()).len() <= protocol::MAX_PAYLOAD_SIZE,
{
    lemma_report_entries(report);
    let entries = report.value()->Table_0;
    assert forall|i: int| 0 <= i < entries.len() implies text::byte_len((#[trigger] entries[i]).0)
        <= 15 && msgpack::encode(entries[i].1).len() <= 65 && msgpack_laws::sized(entries[i].1) by {
        reveal(short);
        assert(short(entries[i]));
    }
    msgpack_laws::lemma_entries_len(entries, 65);
    assert(entries.len() * (20 + 65) <= 3 * 85) by (nonlinear_arith)
        requires
            entries.len() <= 3,
    ;
}

/// A report always fits a frame: none is ever dropped for being too long.
pub proof fn law_report_always_fits(report: Report)
    ensures
        report.frame() is Ok,
{
    lemma_report_is_sized(report);
}

/// The frame of a report tells the interface that it is about, and its record.
pub proof fn law_report_is_understood(a: Report, b: Report)
    requires
        a.frame() == b.frame(),
    ensures
        a.interface() == b.interface(),
        a.value() == b.value(),
{
    lemma_report_is_sized(a);
    lemma_report_is_sized(b);
    let cmd = protocol::MessageType::InterfaceState.code();
    protocol_laws::law_frame_reads_back(cmd, a.interface().code(), msgpack::encode(a.value()));
    protocol_laws::law_frame_reads_back(cmd, b.interface().code(), msgpack::encode(b.value()));
    interface_settings::law_interface_by_code(a.interface());
    interface_settings::law_interface_by_code(b.interface());
    msgpack_laws::law_equal_bytes_mean_equal_values(a.value(), b.value());
}

/// The frame of a report reads back as an `InterfaceState` of its interface that carries its
/// record.
pub proof fn law_report_reads_back(report: Report)
    ensures
        report.frame() matches Ok(frame) && protocol::frame_content(frame) == Ok::<
            protocol::Content,
            protocol::PacketError,
        >(
            protocol::Content {
                cmd: protocol::MessageType::InterfaceState.code(),
                parameter: report.interface().code(),
                payload: msgpack::encode(report.value()),
            },
        ),
{
    lemma_report_is_sized(report);
    protocol_laws::law_frame_reads_back(
        protocol::MessageType::InterfaceState.code(),
        report.interface().code(),
        msgpack::encode(report.value()),
    );
}

/// What the frame of a report says, field by field: the interface that it is about, and what
/// happened to it, with the values that the report carries.
pub proof fn law_report_says_what_happened(report: Report)
    ensures
        ({
            let record = report.value();
            let about = report.interface();
            match report {
                Report::Connected { interface, mac } => {
                    &&& about == interface
                    &&& record_laws::fields(record) == 2
                    &&& record_laws::holds(record, "connected"@, Value::Bool(true))
                    &&& record_laws::holds(record, "mac"@, Value::Str(text::mac_text(mac@)))
                },
                Report::ConnectError { interface, code } => {
                    &&& about == interface
                    &&& record_laws::fields(record) == 1
                    &&& record_laws::holds(record, "error"@, Value::Int(code as int))
                },
                Report::GotIp { interface, info } => {
                    &&& about == interface
                    &&& record_laws::fields(record) == 1
                    &&& record_laws::holds(
                        record,
                        "ip"@,
                        Value::Array(
                            seq![
                                Value::Str(ipv4::ipv4_text(info.ip@)),
                                Value::Str(ipv4::ipv4_text(info.netmask@)),
                                Value::Str(ipv4::ipv4_text(info.gateway@)),
                            ],
                        ),
                    )
                },
                Report::Rssi(rssi) => {
                    &&& about == InterfaceType::WiFiStation
                    &&& record_laws::fields(record) == 1
                    &&& record_laws::holds(record, "rssi"@, Value::Int(rssi as int))
                },
                Report::Disconnected { interface, reason } => {
                    &&& about == interface
                    &&& record_laws::fields(record) == 2
                    &&& record_laws::holds(record, "connected"@, Value::Bool(false))
                    &&& record_laws::holds(record, "reason"@, Value::Int(reason as int))
                },
                Report::ApStarted => {
                    &&& about == InterfaceType::WiFiAccessPoint
                    &&& record_laws::fields(record) == 1
                    &&& record_laws::holds(record, "started"@, Value::Bool(true))
                },
                Report::ApStartError(error) => {
                    &&& about == InterfaceType::WiFiAccessPoint
                    &&& record_laws::fields(record) == 2
                    &&& record_laws::holds(record, "started"@, Value::Bool(false))
                    &&& record_laws::holds(record, "error"@, Value::Int(error as int))
                },
                Report::ApClientConnected { mac, ip } => {
                    &&& about == InterfaceType::WiFiAccessPoint
                    &&& record_laws::fields(record) == 3
                    &&& record_laws::holds(record, "clientConnected"@, Value::Bool(true))
                    &&& record_laws::holds(record, "mac"@, Value::Str(text::mac_text(mac@)))
                    &&& record_laws::holds(record, "ip"@, Value::Str(ipv4::ipv4_text(ip@)))
                },
                Report::ApClientDisconnected { mac } => {
                    &&& about == InterfaceType::WiFiAccessPoint
                    &&& record_laws::fields(record) == 2
                    &&& record_laws::holds(record, "clientConnected"@, Value::Bool(false))
                    &&& record_laws::holds(record, "mac"@, Value::Str(text::mac_text(mac@)))
                },
            }
        }),
{
    let entries = report.value()->Table_0;
    assert(entries[0] == (entries[0].0, entries[0].1));
    if entries.len() > 1 {
        assert(entries[1] == (entries[1].0, entries[1].1));
    }
    if entries.len() > 2 {
        assert(entries[2] == (entries[2].0, entries[2].1));
    }
}

/// Effects are sent in order: those of one list come after those of the list before it. An effect
/// that is no report sends nothing; a report is one frame of the interface that it is about, with
/// its record.
pub proof fn law_effects_are_sent_in_order(first: Seq<Effect>, second: Seq<Effect>, effect: Effect)
    ensures
        tasks::frames(first + second) == tasks::frames(first) + tasks::frames(second),
        match effect {
            Effect::Report(report) => tasks::frames(seq![effect]).len() == 1
                && protocol::frame_content(tasks::frames(seq![effect])[0]) == Ok::<
                protocol::Content,
                protocol::PacketError,
            >(
                protocol::Content {
                    cmd: 3,
                    parameter: match report.interface() {
                        InterfaceType::Undefined => 0,
                        InterfaceType::WiFiStation => 1,
                        InterfaceType::WiFiAccessPoint => 2,
                        InterfaceType::Ethernet => 3,
                    },
                    payload: msgpack::encode(report.value()),
                },
            ),
            _ => tasks::frames(seq![effect]).len() == 0,
        },
    decreases second.len(),
{
    assert(seq![effect].drop_last() =~= Seq::empty());
    reveal_with_fuel(tasks::frames, 2);
    if let Effect::Report(report) = effect {
        law_report_reads_back(report);
    }
    if second.len() == 0 {
        assert(first + second =~= first);
        assert(tasks::frames(first) + Seq::<Seq<u8>>::empty() =~= tasks::frames(first));
        assert(tasks::frames(second) =~= Seq::empty());
    } else {
        law_effects_are_sent_in_order(first, second.drop_last(), effect);
        assert((first + second).drop_last() =~= first + second.drop_last());
        assert((first + second).last() == second.last());
        assert(tasks::frames(first + second) =~= tasks::frames(first) + tasks::frames(second));
    }
}

} // verus!
