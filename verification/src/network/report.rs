//! What the network tasks report to the master.

use vstd::prelude::*;

use crate::bytes;
use crate::master::messages::interface_settings::InterfaceType;
use crate::master::messages::interface_state;
use crate::master::protocol;
use crate::master::protocol::PacketError;
use crate::msgpack;
use crate::network::addressing::IpInfo;
use crate::network::ipv4;
use crate::network::ipv4::format_ipv4;
use crate::network::wifi::state;
use crate::text;

verus! {

/// An event on an interface.
#[derive(Debug, Clone, Copy)]
pub enum Report {
    /// The interface has a link.
    Connected { interface: InterfaceType, mac: [u8; 6] },
    /// The interface could not be brought up.
    ConnectError { interface: InterfaceType, code: i32 },
    /// The interface has an address.
    GotIp { interface: InterfaceType, info: IpInfo },
    /// The signal strength of the station's network.
    Rssi(i32),
    /// The interface has lost its link.
    Disconnected { interface: InterfaceType, reason: i32 },
    ApStarted,
    ApStartError(i32),
    /// A client of the access point got an address.
    ApClientConnected { mac: [u8; 6], ip: [u8; 4] },
    /// A client of the access point left.
    ApClientDisconnected { mac: [u8; 6] },
}

impl Report {
    /// The interface that the report is about.
    pub open spec fn interface(self) -> InterfaceType {
        match self {
            Report::Connected { interface, .. } => interface,
            Report::ConnectError { interface, .. } => interface,
            Report::GotIp { interface, .. } => interface,
            Report::Rssi(_) => InterfaceType::WiFiStation,
            Report::Disconnected { interface, .. } => interface,
            _ => InterfaceType::WiFiAccessPoint,
        }
    }

    /// The record that the report carries.
    pub open spec fn value(self) -> msgpack::Value {
        msgpack::Value::Table(
            match self {
                Report::Connected { mac, .. } => seq![
                    ("connected"@, msgpack::Value::Bool(true)),
                    ("mac"@, msgpack::Value::Str(text::mac_text(mac@))),
                ],
                Report::ConnectError { code, .. } => seq![
                    ("error"@, msgpack::Value::Int(code as int)),
                ],
                Report::GotIp { info, .. } => seq![
                    (
                        "ip"@,
                        msgpack::Value::Array(
                            seq![
                                msgpack::Value::Str(ipv4::ipv4_text(info.ip@)),
                                msgpack::Value::Str(ipv4::ipv4_text(info.netmask@)),
                                msgpack::Value::Str(ipv4::ipv4_text(info.gateway@)),
                            ],
                        ),
                    ),
                ],
                Report::Rssi(rssi) => seq![("rssi"@, msgpack::Value::Int(rssi as int))],
                Report::Disconnected { reason, .. } => seq![
                    ("connected"@, msgpack::Value::Bool(false)),
                    ("reason"@, msgpack::Value::Int(reason as int)),
                ],
                Report::ApStarted => seq![("started"@, msgpack::Value::Bool(true))],
                Report::ApStartError(error) => seq![
                    ("started"@, msgpack::Value::Bool(false)),
                    ("error"@, msgpack::Value::Int(error as int)),
                ],
                Report::ApClientConnected { mac, ip } => seq![
                    ("clientConnected"@, msgpack::Value::Bool(true)),
                    ("mac"@, msgpack::Value::Str(text::mac_text(mac@))),
                    ("ip"@, msgpack::Value::Str(ipv4::ipv4_text(ip@))),
                ],
                Report::ApClientDisconnected { mac } => seq![
                    ("clientConnected"@, msgpack::Value::Bool(false)),
                    ("mac"@, msgpack::Value::Str(text::mac_text(mac@))),
                ],
            },
        )
    }

    /// The frame of the report.
    pub open spec fn frame(self) -> Result<Seq<u8>, PacketError> {
        interface_state::state_frame(self.interface(), self.value())
    }
}

/// The frame of a report.
pub fn encode_report(report: Report) -> (r: Result<Vec<u8>, PacketError>)
    ensures
        protocol::bytes_of(r) == report.frame(),
{
    match report {
        Report::Connected { interface, mac } => interface_state::encode_connected(
            interface,
            text::format_mac(mac),
        ),
        Report::ConnectError { interface, code } => interface_state::encode_connect_error(
            interface,
            code,
        ),
        Report::GotIp { interface, info } => {
            let ip_config: [String; 3] = [
                format_ipv4(info.ip),
                format_ipv4(info.netmask),
                format_ipv4(info.gateway),
            ];
            proof {
                let texts = msgpack::texts_value(ip_config@);
                assert(texts->Array_0 =~= seq![
                    msgpack::Value::Str(ipv4::ipv4_text(info.ip@)),
                    msgpack::Value::Str(ipv4::ipv4_text(info.netmask@)),
                    msgpack::Value::Str(ipv4::ipv4_text(info.gateway@)),
                ]);
            }
            interface_state::encode_got_ip(interface, ip_config)
        },
        Report::Rssi(rssi) => interface_state::encode_rssi(InterfaceType::WiFiStation, rssi),
        Report::Disconnected { interface, reason } => interface_state::encode_disconnected(
            interface,
            reason,
        ),
        Report::ApStarted => interface_state::encode_ap_started(InterfaceType::WiFiAccessPoint),
        Report::ApStartError(error) => interface_state::encode_ap_start_error(
            InterfaceType::WiFiAccessPoint,
            error,
        ),
        Report::ApClientConnected { mac, ip } => interface_state::encode_ap_client_connected(
            InterfaceType::WiFiAccessPoint,
            text::format_mac(mac),
            format_ipv4(ip),
        ),
        Report::ApClientDisconnected { mac } => interface_state::encode_ap_client_disconnected(
            InterfaceType::WiFiAccessPoint,
            text::format_mac(mac),
        ),
    }
}

/// Queues a report for the master.
pub fn send_report(outbox: &mut Vec<Vec<u8>>, report: Report)
    ensures
        bytes::views(final(outbox)@) == state::queued(bytes::views(old(outbox)@), report.frame()),
{
    state::send_interface_state(outbox, encode_report(report));
}

} // verus!
