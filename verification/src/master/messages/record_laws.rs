//! What the records of the messages say, field by field, and which messages are accepted.

use vstd::prelude::*;

use crate::master::messages::interface_settings;
use crate::master::messages::interface_settings::{
    EthernetSettings, InterfaceSettings, InterfaceType, SettingsError, WiFiAccessPointSettings,
    WiFiStationSettings,
};
use crate::master::messages::interface_state;
use crate::master::messages::interface_state::{
    ApClientConnectedPayload, ApClientDisconnectedPayload, ApStartErrorPayload, ApStartedPayload,
    ConnectErrorPayload, ConnectedPayload, DisconnectedPayload, GotIpPayload, RssiPayload,
};
use crate::master::messages::payload;
use crate::master::messages::payload::Payload;
use crate::master::messages::ready;
use crate::master::messages::ready::{BootReason, ResetReasonCodes};
use crate::master::messages::service_settings;
use crate::master::messages::service_settings::{
    NtpClientSettings, ServiceError, ServiceSettings, ServiceType, TcpServerSettings,
    UdpListenerSettings,
};
use crate::master::messages::service_state;
use crate::master::messages::service_state::{
    NtpErrorPayload, NtpSyncedPayload, TcpConnectedPayload, TcpDisconnectReason,
    TcpDisconnectedPayload,
};
use crate::master::messages::tcp_command;
use crate::master::messages::tcp_command::{TcpCommandError, TcpCommandPayload};
use crate::master::messages::tcp_data;
use crate::master::messages::tcp_data::TcpDataError;
use crate::master::messages::wifi_scan;
use crate::master::messages::wifi_scan::{
    WifiScanError, WifiScanRequestPayload, WifiScanResultItem,
};
use crate::master::protocol;
use crate::master::protocol::{Content, MessageType, PacketError};
use crate::master::protocol_laws;
use crate::msgpack::Value;
use crate::text;

verus! {

/// The number of fields of a record.
pub open spec fn fields(record: Value) -> int {
    match record {
        Value::Table(entries) => entries.len() as int,
        _ => -1,
    }
}

/// A record has this value under this key.
pub open spec fn holds(record: Value, key: Seq<char>, value: Value) -> bool {
    record matches Value::Table(entries) && exists|i: int|
        0 <= i < entries.len() && #[trigger] entries[i] == (key, value)
}

/// A record with one field has what stands in it.
pub proof fn lemma_one_field(a: (Seq<char>, Value))
    ensures
        fields(Value::Table(seq![a])) == 1,
        holds(Value::Table(seq![a]), a.0, a.1),
{
    let entries = seq![a];
    assert(entries[0] == (a.0, a.1));
}

/// A record with two fields has what stands in them.
pub proof fn lemma_two_fields(a: (Seq<char>, Value), b: (Seq<char>, Value))
    ensures
        fields(Value::Table(seq![a, b])) == 2,
        holds(Value::Table(seq![a, b]), a.0, a.1),
        holds(Value::Table(seq![a, b]), b.0, b.1),
{
    let entries = seq![a, b];
    assert(entries[0] == (a.0, a.1));
    assert(entries[1] == (b.0, b.1));
}

/// A record with three fields has what stands in them.
pub proof fn lemma_three_fields(
    a: (Seq<char>, Value),
    b: (Seq<char>, Value),
    c: (Seq<char>, Value),
)
    ensures
        fields(Value::Table(seq![a, b, c])) == 3,
        holds(Value::Table(seq![a, b, c]), a.0, a.1),
        holds(Value::Table(seq![a, b, c]), b.0, b.1),
        holds(Value::Table(seq![a, b, c]), c.0, c.1),
{
    let entries = seq![a, b, c];
    assert(entries[0] == (a.0, a.1));
    assert(entries[1] == (b.0, b.1));
    assert(entries[2] == (c.0, c.1));
}

/// The record of a link says that it is there, and the address of the interface.
pub proof fn law_connected_record(mac: String)
    ensures
        ({
            let record = (ConnectedPayload { connected: true, mac }).value();
            &&& fields(record) == 2
            &&& holds(record, "connected"@, Value::Bool(true))
            &&& holds(record, "mac"@, Value::Str(mac@))
        }),
{
    lemma_two_fields(("connected"@, Value::Bool(true)), ("mac"@, Value::Str(mac@)));
}

/// The record of a link that is gone says so, and why.
pub proof fn law_disconnected_record(disconnect_reason: i32)
    ensures
        ({
            let record = (DisconnectedPayload { connected: false, disconnect_reason }).value();
            &&& fields(record) == 2
            &&& holds(record, "connected"@, Value::Bool(false))
            &&& holds(record, "reason"@, Value::Int(disconnect_reason as int))
        }),
{
    lemma_two_fields(
        ("connected"@, Value::Bool(false)),
        ("reason"@, Value::Int(disconnect_reason as int)),
    );
}

/// The records with a single number carry that number.
pub proof fn law_number_records(n: i32)
    ensures
        fields((ConnectErrorPayload { connect_error: n }).value()) == 1,
        holds((ConnectErrorPayload { connect_error: n }).value(), "error"@, Value::Int(n as int)),
        fields((RssiPayload { rssi: n }).value()) == 1,
        holds((RssiPayload { rssi: n }).value(), "rssi"@, Value::Int(n as int)),
{
    lemma_one_field(("error"@, Value::Int(n as int)));
    lemma_one_field(("rssi"@, Value::Int(n as int)));
}

/// The record of an address lists three texts, in the order in which they are given.
pub proof fn law_got_ip_record(ip_config: [String; 3], texts: Seq<Value>)
    requires
        texts.len() == 3,
        forall|i: int| 0 <= i < 3 ==> #[trigger] texts[i] == Value::Str(ip_config@[i]@),
    ensures
        fields((GotIpPayload { ip_config }).value()) == 1,
        holds((GotIpPayload { ip_config }).value(), "ip"@, Value::Array(texts)),
{
    let listed = crate::msgpack::texts_value(ip_config@);
    assert(listed->Array_0 =~= texts);
    lemma_one_field(("ip"@, listed));
}

/// The records of the access point: that it runs, that it could not be started and why, and
/// which client came or left.
pub proof fn law_ap_records(error: i32, mac: String, ip: String)
    ensures
        fields((ApStartedPayload { started: true }).value()) == 1,
        holds((ApStartedPayload { started: true }).value(), "started"@, Value::Bool(true)),
        ({
            let record = (ApStartErrorPayload { started: false, error }).value();
            &&& fields(record) == 2
            &&& holds(record, "started"@, Value::Bool(false))
            &&& holds(record, "error"@, Value::Int(error as int))
        }),
        ({
            let record = (ApClientConnectedPayload { client_connected: true, mac, ip }).value();
            &&& fields(record) == 3
            &&& holds(record, "clientConnected"@, Value::Bool(true))
            &&& holds(record, "mac"@, Value::Str(mac@))
            &&& holds(record, "ip"@, Value::Str(ip@))
        }),
        ({
            let record = (ApClientDisconnectedPayload { client_connected: false, mac }).value();
            &&& fields(record) == 2
            &&& holds(record, "clientConnected"@, Value::Bool(false))
            &&& holds(record, "mac"@, Value::Str(mac@))
        }),
{
    lemma_one_field(("started"@, Value::Bool(true)));
    lemma_two_fields(("started"@, Value::Bool(false)), ("error"@, Value::Int(error as int)));
    lemma_three_fields(
        ("clientConnected"@, Value::Bool(true)),
        ("mac"@, Value::Str(mac@)),
        ("ip"@, Value::Str(ip@)),
    );
    lemma_two_fields(("clientConnected"@, Value::Bool(false)), ("mac"@, Value::Str(mac@)));
}

/// The records of the TCP server: which slot a client took and where it comes from, and which
/// slot has no client and why.
pub proof fn law_tcp_records(
    index: u8,
    remote_ip: String,
    remote_port: u16,
    reason: TcpDisconnectReason,
)
    ensures
        ({
            let record = (TcpConnectedPayload { connected: true, index, remote_ip, remote_port }).value();
            &&& fields(record) == 4
            &&& holds(record, "connected"@, Value::Bool(true))
            &&& holds(record, "index"@, Value::Int(index as int))
            &&& holds(record, "remoteIp"@, Value::Str(remote_ip@))
            &&& holds(record, "remotePort"@, Value::Int(remote_port as int))
        }),
        ({
            let record = (TcpDisconnectedPayload {
                connected: false,
                index,
                reason: reason.code(),
            }).value();
            &&& fields(record) == 3
            &&& holds(record, "connected"@, Value::Bool(false))
            &&& holds(record, "index"@, Value::Int(index as int))
            &&& holds(
                record,
                "reason"@,
                Value::Int(
                    match reason {
                        TcpDisconnectReason::Undefined => 0,
                        TcpDisconnectReason::ClientClosedConnection => 1,
                        TcpDisconnectReason::ServerClosedConnection => 2,
                        TcpDisconnectReason::InactivityTimeout => 3,
                        TcpDisconnectReason::NotConnected => 4,
                    },
                ),
            )
        }),
{
    let entries = (TcpConnectedPayload {
        connected: true,
        index,
        remote_ip,
        remote_port,
    }).value()->Table_0;
    assert(entries[0] == ("connected"@, Value::Bool(true)));
    assert(entries[1] == ("index"@, Value::Int(index as int)));
    assert(entries[2] == ("remoteIp"@, Value::Str(remote_ip@)));
    assert(entries[3] == ("remotePort"@, Value::Int(remote_port as int)));
    lemma_three_fields(
        ("connected"@, Value::Bool(false)),
        ("index"@, Value::Int(index as int)),
        ("reason"@, Value::Int(reason.code() as int)),
    );
}

/// The records of the NTP client: the stratum and the time of a server, or its failure.
pub proof fn law_ntp_records(stratum: u8, timet: i64, error: i32, server: String)
    ensures
        ({
            let record = (NtpSyncedPayload { stratum, timet, server }).value();
            &&& fields(record) == 3
            &&& holds(record, "stratum"@, Value::Int(stratum as int))
            &&& holds(record, "timet"@, Value::Int(timet as int))
            &&& holds(record, "server"@, Value::Str(server@))
        }),
        ({
            let record = (NtpErrorPayload { error, server }).value();
            &&& fields(record) == 2
            &&& holds(record, "error"@, Value::Int(error as int))
            &&& holds(record, "server"@, Value::Str(server@))
        }),
{
    lemma_three_fields(
        ("stratum"@, Value::Int(stratum as int)),
        ("timet"@, Value::Int(timet as int)),
        ("server"@, Value::Str(server@)),
    );
    lemma_two_fields(("error"@, Value::Int(error as int)), ("server"@, Value::Str(server@)));
}

/// The record of a network in reach says its name, its address, its channel, its signal and how
/// it protects itself.
pub proof fn law_scan_record(item: WifiScanResultItem, names: Seq<Value>)
    requires
        names.len() == item.auth_method@.len(),
        forall|i: int|
            0 <= i < names.len() ==> #[trigger] names[i] == Value::Str(item.auth_method@[i]@),
    ensures
        fields(item.value()) == 5,
        holds(item.value(), "ssid"@, Value::Str(item.ssid@)),
        holds(item.value(), "bssid"@, Value::Str(item.bssid@)),
        holds(item.value(), "channel"@, Value::Int(item.channel as int)),
        holds(item.value(), "rssi"@, Value::Int(item.rssi as int)),
        holds(item.value(), "authMethod"@, Value::Array(names)),
{
    let entries = item.value()->Table_0;
    let listed = crate::msgpack::texts_value(item.auth_method@);
    assert(listed->Array_0 =~= names);
    assert(entries[0] == ("ssid"@, Value::Str(item.ssid@)));
    assert(entries[1] == ("bssid"@, Value::Str(item.bssid@)));
    assert(entries[2] == ("channel"@, Value::Int(item.channel as int)));
    assert(entries[3] == ("rssi"@, Value::Int(item.rssi as int)));
    assert(entries[4] == ("authMethod"@, listed));
}

/// A list of records keeps their order.
pub proof fn law_records_keep_their_order<T: Payload>(items: Seq<T>, i: int)
    requires
        0 <= i < items.len(),
    ensures
        payload::values(items).len() == items.len(),
        payload::values(items)[i] == items[i].value(),
{
}

/// A frame with a record that fits says which kind of message it is and whom it is about, and
/// carries the bytes of the record.
pub proof fn law_state_frames(interface: InterfaceType, service: ServiceType, record: Value)
    requires
        crate::msgpack::encode(record).len() <= 1500,
    ensures
        interface_state::state_frame(interface, record) matches Ok(frame)
            && protocol::frame_content(frame) == Ok::<Content, PacketError>(
            Content {
                cmd: 3,
                parameter: match interface {
                    InterfaceType::Undefined => 0,
                    InterfaceType::WiFiStation => 1,
                    InterfaceType::WiFiAccessPoint => 2,
                    InterfaceType::Ethernet => 3,
                },
                payload: crate::msgpack::encode(record),
            },
        ),
        service_state::state_frame(service, record) matches Ok(frame)
            && protocol::frame_content(frame) == Ok::<Content, PacketError>(
            Content {
                cmd: 5,
                parameter: match service {
                    ServiceType::Undefined => 0,
                    ServiceType::UdpListener => 1,
                    ServiceType::TcpServer => 2,
                    ServiceType::NtpClient => 3,
                },
                payload: crate::msgpack::encode(record),
            },
        ),
{
    let payload = crate::msgpack::encode(record);
    protocol_laws::law_frame_reads_back(3, interface.code(), payload);
    protocol_laws::law_frame_reads_back(5, service.code(), payload);
}

/// The numbers of the messages.
pub proof fn law_message_numbers(cmd: u8)
    ensures
        protocol::message_type(cmd) == (match cmd {
            0 => Ok::<MessageType, PacketError>(MessageType::Undefined),
            1 => Ok(MessageType::Ready),
            2 => Ok(MessageType::InterfaceSettings),
            3 => Ok(MessageType::InterfaceState),
            4 => Ok(MessageType::ServiceSettings),
            5 => Ok(MessageType::ServiceState),
            6 => Ok(MessageType::TcpCommand),
            7 => Ok(MessageType::TcpData),
            8 => Ok(MessageType::WifiScan),
            _ => Err(PacketError::UnknownMessageType(cmd)),
        }),
        protocol::message_type(cmd) matches Ok(kind) ==> kind.code() == cmd,
{
}

/// A start is announced by a frame without payload whose parameter is the number of the reason.
pub proof fn law_ready_frame(boot: BootReason)
    ensures
        protocol::frame_content(ready::ready_frame(boot)) == Ok::<Content, PacketError>(
            Content {
                cmd: 1,
                parameter: match boot {
                    BootReason::Undefined => 0,
                    BootReason::Power => 1,
                    BootReason::External => 2,
                    BootReason::Software => 3,
                    BootReason::Panic => 4,
                    BootReason::InterruptWatchdog => 5,
                    BootReason::TaskWatchdog => 6,
                    BootReason::OtherWatchdog => 7,
                    BootReason::DeepSleep => 8,
                    BootReason::Brownout => 9,
                    BootReason::Sdio => 10,
                    BootReason::Usb => 11,
                    BootReason::Jtag => 12,
                    BootReason::Efuse => 13,
                    BootReason::PowerGlitch => 14,
                    BootReason::CpuLockup => 15,
                },
                payload: Seq::empty(),
            },
        ),
{
    protocol_laws::law_frame_reads_back(1, boot.code(), Seq::empty());
}

/// Where the platform's codes differ, each of them stands for the reason of its name, and no
/// other reason of the platform stands for a known one.
pub proof fn law_reset_reason_by_name(reason: u32, codes: ResetReasonCodes)
    requires
        codes.listed().no_duplicates(),
        codes.listed() == seq![
            codes.power_on,
            codes.external,
            codes.software,
            codes.panic,
            codes.interrupt_watchdog,
            codes.task_watchdog,
            codes.watchdog,
            codes.deep_sleep,
            codes.brownout,
            codes.sdio,
            codes.usb,
            codes.jtag,
            codes.efuse,
            codes.power_glitch,
            codes.cpu_lockup,
        ],
    ensures
        match ready::boot_reason(reason, codes) {
            BootReason::Undefined => !codes.listed().contains(reason),
            BootReason::Power => reason == codes.power_on,
            BootReason::External => reason == codes.external,
            BootReason::Software => reason == codes.software,
            BootReason::Panic => reason == codes.panic,
            BootReason::InterruptWatchdog => reason == codes.interrupt_watchdog,
            BootReason::TaskWatchdog => reason == codes.task_watchdog,
            BootReason::OtherWatchdog => reason == codes.watchdog,
            BootReason::DeepSleep => reason == codes.deep_sleep,
            BootReason::Brownout => reason == codes.brownout,
            BootReason::Sdio => reason == codes.sdio,
            BootReason::Usb => reason == codes.usb,
            BootReason::Jtag => reason == codes.jtag,
            BootReason::Efuse => reason == codes.efuse,
            BootReason::PowerGlitch => reason == codes.power_glitch,
            BootReason::CpuLockup => reason == codes.cpu_lockup,
        },
{
    if codes.listed().contains(reason) {
        let i = choose|i: int| 0 <= i < codes.listed().len() && codes.listed()[i] == reason;
        assert(codes.listed()[i] == reason);
    }
}

/// A text is as long as its UTF-8 form.
pub proof fn law_length_is_in_bytes(t: Seq<char>)
    ensures
        text::byte_len(t) == vstd::utf8::encode_utf8(t).len(),
{
}

/// The limits of station settings: a name of 1 to 32 bytes, a password of at most 64, a period of
/// 1 to 600 seconds, and an address by DHCP or from five texts. The first limit that is broken is
/// named, with what broke it.
pub proof fn law_station_limits(s: WiFiStationSettings)
    ensures
        ({
            let ssid = text::byte_len(s.ssid@);
            let password = text::byte_len(s.password@);
            interface_settings::station_fault(s) == (if ssid == 0 || ssid > 32 {
                Some(SettingsError::SsidLength { len: ssid as usize })
            } else if password > 64 {
                Some(SettingsError::PasswordLength { len: password as usize })
            } else if s.reconnect_period == 0 || s.reconnect_period > 600 {
                Some(SettingsError::ReconnectPeriod(s.reconnect_period))
            } else if s.dhcp {
                None
            } else {
                match s.static_config {
                    None => Some(SettingsError::StaticRequired),
                    Some(list) => if list@.len() == 5 {
                        None
                    } else {
                        Some(SettingsError::StaticCount { got: list@.len() as usize })
                    },
                }
            })
        }),
        s.valid() <==> interface_settings::station_fault(s) is None,
{
}

/// The limits of access point settings: a name of 1 to 32 bytes, no password or one of 8 to 64
/// bytes, a channel of 1 to 14, 1 to 10 clients, and two texts for its address. The first limit
/// that is broken is named, with what broke it.
pub proof fn law_ap_limits(s: WiFiAccessPointSettings)
    ensures
        ({
            let ssid = text::byte_len(s.ssid@);
            let password = text::byte_len(s.password@);
            interface_settings::ap_fault(s) == (if ssid == 0 || ssid > 32 {
                Some(SettingsError::SsidLength { len: ssid as usize })
            } else if password > 64 || (password > 0 && password < 8) {
                Some(SettingsError::PasswordLength { len: password as usize })
            } else if s.channel == 0 || s.channel > 14 {
                Some(SettingsError::Channel(s.channel))
            } else if s.max_clients == 0 || s.max_clients > 10 {
                Some(SettingsError::MaxClients(s.max_clients))
            } else if s.static_config@.len() != 2 {
                Some(SettingsError::StaticCount { got: s.static_config@.len() as usize })
            } else {
                None
            })
        }),
        s.valid() <==> interface_settings::ap_fault(s) is None,
{
}

/// The limits of Ethernet settings: an address by DHCP or from five texts.
pub proof fn law_ethernet_limits(s: EthernetSettings)
    ensures
        interface_settings::addressing_fault(s.dhcp, s.static_config) == (if s.dhcp {
            None
        } else {
            match s.static_config {
                None => Some(SettingsError::StaticRequired),
                Some(list) => if list@.len() == 5 {
                    None
                } else {
                    Some(SettingsError::StaticCount { got: list@.len() as usize })
                },
            }
        }),
        s.valid() <==> interface_settings::addressing_fault(s.dhcp, s.static_config) is None,
{
}

/// Settings of an interface come in message 2; the parameter is the number of the interface, and
/// the record must be one of that interface. Then they are accepted as they are, or refused for
/// their own fault.
pub proof fn law_interface_settings_message(
    cmd: u8,
    parameter: u8,
    record: Option<InterfaceSettings>,
)
    ensures
        match interface_settings::decoded(cmd, parameter, record) {
            Ok(message) => cmd == 2 && record == Some(message.settings) && match message.settings {
                InterfaceSettings::WiFiStation(s) => parameter == 1 && message.interface
                    == InterfaceType::WiFiStation && interface_settings::station_fault(s) is None,
                InterfaceSettings::WiFiAccessPoint(s) => parameter == 2 && message.interface
                    == InterfaceType::WiFiAccessPoint && interface_settings::ap_fault(s) is None,
                InterfaceSettings::Ethernet(s) => parameter == 3 && message.interface
                    == InterfaceType::Ethernet && interface_settings::addressing_fault(
                    s.dhcp,
                    s.static_config,
                ) is None,
            },
            Err(SettingsError::NotInterfaceSettings { cmd: other }) => other == cmd && cmd != 2,
            Err(SettingsError::UndefinedInterface) => cmd == 2 && parameter == 0,
            Err(SettingsError::UnknownInterface(other)) => cmd == 2 && other == parameter
                && parameter > 3,
            Err(SettingsError::Malformed) => cmd == 2 && 1 <= parameter <= 3 && match record {
                None => true,
                Some(InterfaceSettings::WiFiStation(_)) => parameter != 1,
                Some(InterfaceSettings::WiFiAccessPoint(_)) => parameter != 2,
                Some(InterfaceSettings::Ethernet(_)) => parameter != 3,
            },
            Err(fault) => cmd == 2 && match record {
                Some(InterfaceSettings::WiFiStation(s)) => parameter == 1
                    && interface_settings::station_fault(s) == Some(fault),
                Some(InterfaceSettings::WiFiAccessPoint(s)) => parameter == 2
                    && interface_settings::ap_fault(s) == Some(fault),
                Some(InterfaceSettings::Ethernet(s)) => parameter == 3
                    && interface_settings::addressing_fault(s.dhcp, s.static_config) == Some(fault),
                None => false,
            },
        },
{
}

/// The limits of UDP listener settings: one or two ports on either side, none of them 0, a type,
/// an identifier of 1 to 32 bytes, and a port. The first limit that is broken is named.
pub proof fn law_udp_limits(s: UdpListenerSettings)
    ensures
        ({
            let id = text::byte_len(s.service_id@);
            service_settings::udp_fault(s) == (if s.request_ports@.len() == 0
                || s.request_ports@.len() > 2 {
                Some(ServiceError::RequestPortCount { got: s.request_ports@.len() as usize })
            } else if s.response_ports@.len() == 0 || s.response_ports@.len() > 2 {
                Some(ServiceError::ResponsePortCount { got: s.response_ports@.len() as usize })
            } else if exists|i: int|
                0 <= i < s.request_ports@.len() && #[trigger] s.request_ports@[i] == 0 {
                Some(ServiceError::RequestPortZero)
            } else if exists|i: int|
                0 <= i < s.response_ports@.len() && #[trigger] s.response_ports@[i] == 0 {
                Some(ServiceError::ResponsePortZero)
            } else if s.request_type@.len() == 0 {
                Some(ServiceError::RequestTypeEmpty)
            } else if id == 0 || id > 32 {
                Some(ServiceError::ServiceIdLength { len: id as usize })
            } else if s.port == 0 {
                Some(ServiceError::PortZero)
            } else {
                None
            })
        }),
        s.valid() <==> service_settings::udp_fault(s) is None,
{
}

/// The limits of TCP server settings: a port, and a timeout of at most 600 seconds.
pub proof fn law_tcp_limits(s: TcpServerSettings)
    ensures
        service_settings::tcp_fault(s) == (if s.port == 0 {
            Some(ServiceError::PortZero)
        } else if s.client_timeout > 600 {
            Some(ServiceError::ClientTimeout(s.client_timeout))
        } else {
            None
        }),
        s.valid() <==> service_settings::tcp_fault(s) is None,
{
}

/// The limits of NTP client settings: a time zone from 12 hours behind UTC to 14 ahead of it, one
/// to three servers, a period of 1 to 1440 minutes, and no server without a name.
pub proof fn law_ntp_limits(s: NtpClientSettings)
    ensures
        service_settings::ntp_fault(s) == (if s.timezone < -720 || s.timezone > 840 {
            Some(ServiceError::Timezone(s.timezone))
        } else if s.servers@.len() == 0 || s.servers@.len() > 3 {
            Some(ServiceError::ServerCount { got: s.servers@.len() as usize })
        } else if s.resync_period == 0 || s.resync_period > 1440 {
            Some(ServiceError::ResyncPeriod(s.resync_period))
        } else if exists|i: int| 0 <= i < s.servers@.len() && text::blank(#[trigger] s.servers@[i]@) {
            Some(ServiceError::ServerBlank)
        } else {
            None
        }),
        s.valid() <==> service_settings::ntp_fault(s) is None,
{
}

/// Settings of a service come in message 4; the parameter is the number of the service, and the
/// record must be one of that service. Then they are accepted as they are, or refused for their
/// own fault.
pub proof fn law_service_settings_message(cmd: u8, parameter: u8, record: Option<ServiceSettings>)
    ensures
        match service_settings::decoded(cmd, parameter, record) {
            Ok(message) => cmd == 4 && record == Some(message.settings) && match message.settings {
                ServiceSettings::UdpListener(s) => parameter == 1 && message.service
                    == ServiceType::UdpListener && service_settings::udp_fault(s) is None,
                ServiceSettings::TcpServer(s) => parameter == 2 && message.service
                    == ServiceType::TcpServer && service_settings::tcp_fault(s) is None,
                ServiceSettings::NtpClient(s) => parameter == 3 && message.service
                    == ServiceType::NtpClient && service_settings::ntp_fault(s) is None,
            },
            Err(ServiceError::NotServiceSettings { cmd: other }) => other == cmd && cmd != 4,
            Err(ServiceError::UndefinedService) => cmd == 4 && parameter == 0,
            Err(ServiceError::UnknownService(other)) => cmd == 4 && other == parameter && parameter
                > 3,
            Err(ServiceError::Malformed) => cmd == 4 && 1 <= parameter <= 3 && match record {
                None => true,
                Some(ServiceSettings::UdpListener(_)) => parameter != 1,
                Some(ServiceSettings::TcpServer(_)) => parameter != 2,
                Some(ServiceSettings::NtpClient(_)) => parameter != 3,
            },
            Err(fault) => cmd == 4 && match record {
                Some(ServiceSettings::UdpListener(s)) => parameter == 1
                    && service_settings::udp_fault(s) == Some(fault),
                Some(ServiceSettings::TcpServer(s)) => parameter == 2
                    && service_settings::tcp_fault(s) == Some(fault),
                Some(ServiceSettings::NtpClient(s)) => parameter == 3
                    && service_settings::ntp_fault(s) == Some(fault),
                None => false,
            },
        },
{
}

/// A command comes in message 6 for a slot from 0 to 3, and is taken as it is.
pub proof fn law_command_message(cmd: u8, parameter: u8, record: Option<TcpCommandPayload>)
    ensures
        match tcp_command::decoded(cmd, parameter, record) {
            Ok(message) => cmd == 6 && parameter < 4 && message.index == parameter && record == Some(
                message.command,
            ),
            Err(TcpCommandError::NotTcpCommand { cmd: other }) => other == cmd && cmd != 6,
            Err(TcpCommandError::IndexOutOfRange(index)) => cmd == 6 && index == parameter
                && parameter >= 4,
            Err(TcpCommandError::Malformed) => cmd == 6 && parameter < 4 && record is None,
        },
{
}

/// Data comes in message 7 for a slot from 0 to 3, and is taken as it is.
pub proof fn law_data_message(content: Content)
    ensures
        match tcp_data::decoded(content) {
            Ok((index, payload)) => content.cmd == 7 && index < 4 && content.parameter == index
                && content.payload == payload,
            Err(TcpDataError::NotTcpData { cmd }) => cmd == content.cmd && cmd != 7,
            Err(TcpDataError::IndexOutOfRange(index)) => content.cmd == 7 && index
                == content.parameter && index >= 4,
            Err(TcpDataError::Packet(_)) => false,
        },
{
}

/// Data for the master goes out in message 7 with the number of its slot, as it is; no other
/// slot, and nothing longer than a frame takes.
pub proof fn law_data_frame(index: u8, payload: Seq<u8>)
    requires
        payload.len() <= usize::MAX,
    ensures
        match tcp_data::data_frame(index, payload) {
            Ok(frame) => index < 4 && payload.len() <= 1500 && protocol::frame_content(frame) == Ok::<
                Content,
                PacketError,
            >(Content { cmd: 7, parameter: index, payload }),
            Err(TcpDataError::IndexOutOfRange(other)) => other == index && index >= 4,
            Err(TcpDataError::Packet(PacketError::PayloadTooLarge { len })) => index < 4 && len
                == payload.len() && len > 1500,
            Err(_) => false,
        },
{
    if payload.len() <= 1500 {
        protocol_laws::law_frame_reads_back(7, index, payload);
    }
}

/// A scan is asked for in message 8 with the parameter 0, and the limit is taken as it is.
pub proof fn law_scan_message(cmd: u8, parameter: u8, record: Option<WifiScanRequestPayload>)
    ensures
        match wifi_scan::decoded(cmd, parameter, record) {
            Ok(message) => cmd == 8 && parameter == 0 && (record matches Some(request)
                && request.limit == message.limit),
            Err(WifiScanError::NotWifiScan { cmd: other }) => other == cmd && cmd != 8,
            Err(WifiScanError::ParameterNotZero(other)) => cmd == 8 && other == parameter
                && parameter != 0,
            Err(WifiScanError::Malformed) => cmd == 8 && parameter == 0 && record is None,
        },
{
}

} // verus!
